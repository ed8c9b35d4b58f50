use vstd::prelude::*;
use crate::errors::PreconditionError;

verus! {

/// Abstract state of a completion queue: the pending events in arrival
/// order, whether dispatch has been activated, and whether the queue has
/// been shut down.
pub struct QueueView<E> {
    pub events: Seq<E>,
    pub active: bool,
    pub shut_down: bool,
}

/// The pending events after `k` retrievals with no enqueue in between.
pub open spec fn after_dequeues<E>(s: Seq<E>, k: int) -> Seq<E>
    decreases k,
{
    if k <= 0 {
        s
    } else {
        after_dequeues(s, k - 1).drop_first()
    }
}

/// First-in, first-out: after `k` events have been retrieved, the events
/// still pending are exactly the ones enqueued after the first `k`, and the
/// next event out is the one that was enqueued `k`-th.  Hence events
/// enqueued in some order are retrieved in that same order.
pub proof fn lemma_fifo_order<E>(s: Seq<E>, k: int)
    requires
        0 <= k <= s.len(),
    ensures
        after_dequeues(s, k) == s.skip(k),
        k < s.len() ==> after_dequeues(s, k).first() == s[k],
    decreases k,
{
    if k == 0 {
        assert(s.skip(0) =~= s);
    } else {
        lemma_fifo_order(s, k - 1);
        assert(s.skip(k - 1).drop_first() =~= s.skip(k));
    }
}

/// A FIFO event queue bridging asynchronous completions to a pull-based
/// consumer.  Producers append with `add_event`; the consumer polls with
/// `next_event`.  Shutdown is terminal: it hands back every event that was
/// enqueued before it, so that none is lost, and every later operation is
/// rejected.
pub struct CompletionQueue<E> {
    events: Vec<E>,
    active: bool,
    shut_down: bool,
}

impl<E> View for CompletionQueue<E> {
    type V = QueueView<E>;

    closed spec fn view(&self) -> QueueView<E> {
        QueueView { events: self.events@, active: self.active, shut_down: self.shut_down }
    }
}

impl<E> CompletionQueue<E> {
    /// An empty queue: inactive, not shut down.
    pub fn new() -> (q: Self)
        ensures
            q@.events == Seq::<E>::empty(),
            !q@.active,
            !q@.shut_down,
    {
        CompletionQueue { events: Vec::new(), active: false, shut_down: false }
    }

    /// Activates dispatch.  Fails if the queue has been shut down; starting
    /// an already active queue is harmless.
    pub fn start(&mut self) -> (r: Result<(), PreconditionError>)
        ensures
            old(self)@.shut_down ==> {
                &&& r == Err::<(), PreconditionError>(PreconditionError::QueueShutdown)
                &&& final(self)@ == old(self)@
            },
            !old(self)@.shut_down ==> {
                &&& r == Ok::<(), PreconditionError>(())
                &&& final(self)@.events == old(self)@.events
                &&& final(self)@.active
                &&& !final(self)@.shut_down
            },
    {
        if self.shut_down {
            return Err(PreconditionError::QueueShutdown);
        }
        self.active = true;
        Ok(())
    }

    /// Appends an event at the tail, preserving arrival order.  Fails once
    /// the queue is shut down.
    pub fn add_event(&mut self, event: E) -> (r: Result<(), PreconditionError>)
        ensures
            old(self)@.shut_down ==> {
                &&& r == Err::<(), PreconditionError>(PreconditionError::QueueShutdown)
                &&& final(self)@ == old(self)@
            },
            !old(self)@.shut_down ==> {
                &&& r == Ok::<(), PreconditionError>(())
                &&& final(self)@.events == old(self)@.events.push(event)
                &&& final(self)@.active == old(self)@.active
                &&& !final(self)@.shut_down
            },
    {
        if self.shut_down {
            return Err(PreconditionError::QueueShutdown);
        }
        self.events.push(event);
        Ok(())
    }

    /// Retrieves the head event, or `None` if nothing is pending yet (the
    /// consumer polls again later; waiting up to a timeout is the runtime's
    /// concern).  Fails once the queue is shut down.
    pub fn next_event(&mut self) -> (r: Result<Option<E>, PreconditionError>)
        ensures
            old(self)@.shut_down ==> {
                &&& r == Err::<Option<E>, PreconditionError>(PreconditionError::QueueShutdown)
                &&& final(self)@ == old(self)@
            },
            !old(self)@.shut_down && old(self)@.events.len() == 0 ==> {
                &&& r == Ok::<Option<E>, PreconditionError>(None)
                &&& final(self)@ == old(self)@
            },
            !old(self)@.shut_down && old(self)@.events.len() > 0 ==> {
                &&& r == Ok::<Option<E>, PreconditionError>(Some(old(self)@.events.first()))
                &&& final(self)@.events == old(self)@.events.drop_first()
                &&& final(self)@.active == old(self)@.active
                &&& !final(self)@.shut_down
            },
    {
        if self.shut_down {
            return Err(PreconditionError::QueueShutdown);
        }
        if self.events.len() == 0 {
            return Ok(None);
        }
        let e = self.events.remove(0);
        proof {
            assert(self.events@ =~= old(self)@.events.drop_first());
        }
        Ok(Some(e))
    }

    /// Shuts the queue down and hands back, in order, every event that was
    /// enqueued before the shutdown was requested: shutdown never races
    /// ahead of event delivery, and no queued event is lost.  Fails if
    /// already shut down.
    pub fn shutdown(&mut self) -> (r: Result<Vec<E>, PreconditionError>)
        ensures
            old(self)@.shut_down ==> {
                &&& r == Err::<Vec<E>, PreconditionError>(PreconditionError::QueueShutdown)
                &&& final(self)@ == old(self)@
            },
            !old(self)@.shut_down ==> {
                &&& r matches Ok(drained) && drained@ == old(self)@.events
                &&& final(self)@.events == Seq::<E>::empty()
                &&& !final(self)@.active
                &&& final(self)@.shut_down
            },
    {
        if self.shut_down {
            return Err(PreconditionError::QueueShutdown);
        }
        self.shut_down = true;
        self.active = false;
        let mut drained: Vec<E> = Vec::new();
        std::mem::swap(&mut drained, &mut self.events);
        Ok(drained)
    }

    pub fn is_shutdown(&self) -> (r: bool)
        ensures
            r == self@.shut_down,
    {
        self.shut_down
    }

    /// How many events are pending right now.
    pub fn get_event_count(&self) -> (r: usize)
        ensures
            r == self@.events.len(),
    {
        self.events.len()
    }
}

} // verus!
