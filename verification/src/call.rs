use vstd::prelude::*;
use crate::errors::PreconditionError;
use crate::metadata::{kv_insert_all, Metadata, MetadataView};
use crate::shared_cell::SharedCell;
use crate::status::{Status, StatusCode};

verus! {

/// Where a call stands in its lifecycle.  `cancelled` and `done` are
/// monotonic, so the reachable combinations form this four-state machine;
/// a combination such as "cancelled, then no longer cancelled" is
/// unrepresentable.
#[derive(Clone, Copy, Debug, PartialEq, Eq, Structural)]
pub enum CallPhase {
    /// Neither cancelled nor done.
    Active,
    /// Cancelled, not yet done.
    Cancelled,
    /// Done without having been cancelled.
    Done,
    /// Cancelled and done.
    CancelledDone,
}

pub open spec fn phase_done(p: CallPhase) -> bool {
    p is Done || p is CancelledDone
}

pub open spec fn phase_cancelled(p: CallPhase) -> bool {
    p is Cancelled || p is CancelledDone
}

/// Abstract state of a call: the immutable method, deadline and metadata,
/// the lifecycle phase, the transport-call handle, the messages queued for
/// writing (in submission order) and the messages received but not yet
/// consumed (in arrival order).
pub struct CallView<H> {
    pub method: Seq<char>,
    pub deadline_micros: Option<u64>,
    pub metadata: MetadataView,
    pub phase: CallPhase,
    pub handle: Option<H>,
    pub outbox: Seq<Seq<u8>>,
    pub inbox: Seq<Seq<u8>>,
}

/// Whether a message operation (`send_message`, `recv_message`) is allowed
/// from state `c`: rejected once done, then once cancelled.
pub open spec fn message_op_result<H>(c: CallView<H>) -> Result<(), PreconditionError> {
    if phase_done(c.phase) {
        Err(PreconditionError::CallDone)
    } else if phase_cancelled(c.phase) {
        Err(PreconditionError::CallCancelled)
    } else {
        Ok(())
    }
}

/// The call state after `send_message(msg)`: on success the message joins
/// the tail of the outbox, preserving write order; a rejected send changes
/// nothing.
pub open spec fn after_send<H>(c: CallView<H>, msg: Seq<u8>) -> CallView<H> {
    if message_op_result(c) is Ok {
        CallView { outbox: c.outbox.push(msg), ..c }
    } else {
        c
    }
}

/// The call state after `recv_message`: on success the head of the inbox,
/// if any, is consumed; a rejected receive changes nothing.
pub open spec fn after_recv<H>(c: CallView<H>) -> CallView<H> {
    if message_op_result(c) is Ok && c.inbox.len() > 0 {
        CallView { inbox: c.inbox.drop_first(), ..c }
    } else {
        c
    }
}

/// Whether `cancel` is allowed from state `c`: rejected once done;
/// cancelling an already cancelled call is accepted and changes nothing.
pub open spec fn cancel_result<H>(c: CallView<H>) -> Result<(), PreconditionError> {
    if phase_done(c.phase) {
        Err(PreconditionError::CallDone)
    } else {
        Ok(())
    }
}

/// The call state after `cancel`: the cancelled flag is set, monotonically.
pub open spec fn after_cancel<H>(c: CallView<H>) -> CallView<H> {
    if cancel_result(c) is Ok {
        CallView { phase: CallPhase::Cancelled, ..c }
    } else {
        c
    }
}

/// Whether `finish` is allowed from state `c`: safe after `cancel`, but
/// rejected once done — `done` is monotonic and a second `finish` must not
/// be silently accepted.
pub open spec fn finish_result<H>(c: CallView<H>) -> Result<(), PreconditionError> {
    if phase_done(c.phase) {
        Err(PreconditionError::CallDone)
    } else {
        Ok(())
    }
}

/// The call state after `finish`: the done flag is set, the cancelled flag
/// is kept, and the transport-call handle is released.
pub open spec fn after_finish<H>(c: CallView<H>) -> CallView<H> {
    if finish_result(c) is Ok {
        CallView {
            phase: if phase_cancelled(c.phase) {
                CallPhase::CancelledDone
            } else {
                CallPhase::Done
            },
            handle: None,
            ..c
        }
    } else {
        c
    }
}

/// Whether the deadline timer fires at time `now`: only if a deadline was
/// set, it has elapsed, and the call is not already done.
pub open spec fn deadline_fired<H>(c: CallView<H>, now_micros: u64) -> bool {
    &&& c.deadline_micros matches Some(d) && now_micros >= d
    &&& !phase_done(c.phase)
}

/// The call state after the deadline check at time `now`: an elapsed
/// deadline forces cancelled-and-done and releases the handle; otherwise
/// nothing changes.
pub open spec fn after_deadline<H>(c: CallView<H>, now_micros: u64) -> CallView<H> {
    if deadline_fired(c, now_micros) {
        CallView { phase: CallPhase::CancelledDone, handle: None, ..c }
    } else {
        c
    }
}

/// Once a call is done, every subsequent `send_message`, `recv_message`,
/// `finish` and `cancel` is rejected as already done, and none of them
/// changes the call's state.
pub proof fn lemma_done_rejects_operations<H>(c: CallView<H>, msg: Seq<u8>)
    requires
        phase_done(c.phase),
    ensures
        message_op_result(c) == Err::<(), PreconditionError>(PreconditionError::CallDone),
        cancel_result(c) == Err::<(), PreconditionError>(PreconditionError::CallDone),
        finish_result(c) == Err::<(), PreconditionError>(PreconditionError::CallDone),
        after_send(c, msg) == c,
        after_recv(c) == c,
        after_cancel(c) == c,
        after_finish(c) == c,
{
}

/// `finish` is idempotent to invoke but not to succeed: after one
/// successful `finish` the call is done, and a second `finish` is rejected
/// with the done precondition error.
pub proof fn lemma_finish_twice_rejected<H>(c: CallView<H>)
    requires
        finish_result(c) is Ok,
    ensures
        phase_done(after_finish(c).phase),
        finish_result(after_finish(c)) == Err::<(), PreconditionError>(PreconditionError::CallDone),
{
}

/// The `cancelled` and `done` flags are monotonic: no transition ever
/// clears either of them.
pub proof fn lemma_flags_monotonic<H>(c: CallView<H>, msg: Seq<u8>, now_micros: u64)
    ensures
        phase_done(c.phase) ==> {
            &&& phase_done(after_send(c, msg).phase)
            &&& phase_done(after_recv(c).phase)
            &&& phase_done(after_cancel(c).phase)
            &&& phase_done(after_finish(c).phase)
            &&& phase_done(after_deadline(c, now_micros).phase)
        },
        phase_cancelled(c.phase) ==> {
            &&& phase_cancelled(after_send(c, msg).phase)
            &&& phase_cancelled(after_recv(c).phase)
            &&& phase_cancelled(after_cancel(c).phase)
            &&& phase_cancelled(after_finish(c).phase)
            &&& phase_cancelled(after_deadline(c, now_micros).phase)
        },
{
}

/// An elapsed deadline forces the call to cancelled-and-done, so a call
/// the caller never touches again still terminates.
pub proof fn lemma_deadline_terminates<H>(c: CallView<H>, now_micros: u64)
    requires
        deadline_fired(c, now_micros),
    ensures
        phase_done(after_deadline(c, now_micros).phase),
        phase_cancelled(after_deadline(c, now_micros).phase),
{
}

/// The data a call start needs: a copy of the call's method, deadline and
/// metadata, handed to the task that performs the handshake against the
/// owning channel's or server's transport handle.
#[derive(Debug)]
pub struct StartRequest {
    pub method: String,
    pub deadline_micros: Option<u64>,
    pub metadata: Vec<(String, String)>,
}

/// The per-RPC state machine: one request/response or streaming exchange,
/// with cancellation, completion and deadline expiry.
///
/// Construction stores configuration only.  `start_call` describes the
/// handshake for the runtime to perform; the transport-call handle arrives
/// later through `publish_handle`.  The runtime's writer task drains
/// `take_pending_sends`, its reader task feeds `deliver_message`, and its
/// deadline timer drives `check_deadline`.
pub struct Call<H> {
    method: String,
    deadline_micros: Option<u64>,
    metadata: Metadata,
    phase: CallPhase,
    cell: SharedCell<H>,
    outbox: Vec<Vec<u8>>,
    inbox: Vec<Vec<u8>>,
}

impl<H> View for Call<H> {
    type V = CallView<H>;

    closed spec fn view(&self) -> CallView<H> {
        CallView {
            method: self.method@,
            deadline_micros: self.deadline_micros,
            metadata: self.metadata@,
            phase: self.phase,
            handle: self.cell@,
            outbox: self.outbox.deep_view(),
            inbox: self.inbox.deep_view(),
        }
    }
}

impl<H> Call<H> {
    /// Stores the method name, the optional deadline (microseconds on the
    /// runtime's clock) and the initial metadata; never touches I/O.
    pub fn new(method: String, deadline_micros: Option<u64>, metadata: Vec<(String, String)>) -> (c:
        Self)
        ensures
            c@.method == method@,
            c@.deadline_micros == deadline_micros,
            c@.metadata == kv_insert_all(
                Seq::<(Seq<char>, Seq<char>)>::empty(),
                metadata.deep_view(),
            ),
            c@.phase == CallPhase::Active,
            c@.handle is None,
            c@.outbox == Seq::<Seq<u8>>::empty(),
            c@.inbox == Seq::<Seq<u8>>::empty(),
    {
        let c = Call {
            method,
            deadline_micros,
            metadata: Metadata::from_pairs(metadata),
            phase: CallPhase::Active,
            cell: SharedCell::new(),
            outbox: Vec::new(),
            inbox: Vec::new(),
        };
        proof {
            assert(c@.outbox =~= Seq::<Seq<u8>>::empty());
            assert(c@.inbox =~= Seq::<Seq<u8>>::empty());
        }
        c
    }

    /// Describes the attach of this call to a connection: rejected once the
    /// call is done; otherwise a copy of the configuration for the task
    /// that performs the handshake and publishes the handle.
    pub fn start_call(&self) -> (r: Result<StartRequest, PreconditionError>)
        ensures
            r is Ok <==> !phase_done(self@.phase),
            r matches Ok(req) ==> {
                &&& req.method@ == self@.method
                &&& req.deadline_micros == self@.deadline_micros
                &&& req.metadata.deep_view() == self@.metadata
            },
            r matches Err(e) ==> e == PreconditionError::CallDone,
    {
        if self.is_done() {
            return Err(PreconditionError::CallDone);
        }
        Ok(StartRequest {
            method: self.method.clone(),
            deadline_micros: self.deadline_micros,
            metadata: self.metadata.items(),
        })
    }

    /// Publishes the transport-call handle the handshake produced.
    pub fn publish_handle(&mut self, h: H)
        ensures
            final(self)@ == (CallView { handle: Some(h), ..old(self)@ }),
    {
        self.cell.publish(h);
    }

    /// Queues `message` to be written asynchronously, preserving write
    /// order relative to other sends on this call.  Rejected once the call
    /// is done or cancelled.
    pub fn send_message(&mut self, message: Vec<u8>) -> (r: Result<(), PreconditionError>)
        ensures
            r == message_op_result(old(self)@),
            final(self)@ == after_send(old(self)@, message@),
    {
        if self.is_done() {
            return Err(PreconditionError::CallDone);
        }
        if self.is_cancelled() {
            return Err(PreconditionError::CallCancelled);
        }
        self.outbox.push(message);
        proof {
            assert forall|j: int|
                0 <= j < self.outbox@.len() implies self@.outbox[j] == old(self)@.outbox.push(
                message@,
            )[j] by {
                assert(self@.outbox[j] == self.outbox@[j]@);
                if j < old(self).outbox@.len() {
                    assert(old(self)@.outbox[j] == old(self).outbox@[j]@);
                }
            }
            assert(self@.outbox =~= old(self)@.outbox.push(message@));
        }
        Ok(())
    }

    /// Returns the next received message, or `None` if nothing has arrived
    /// yet (non-blocking poll).  Rejected once the call is done or
    /// cancelled.
    pub fn recv_message(&mut self) -> (r: Result<Option<Vec<u8>>, PreconditionError>)
        ensures
            final(self)@ == after_recv(old(self)@),
            message_op_result(old(self)@) matches Err(e) ==> r == Err::<
                Option<Vec<u8>>,
                PreconditionError,
            >(e),
            message_op_result(old(self)@) is Ok && old(self)@.inbox.len() == 0 ==> r == Ok::<
                Option<Vec<u8>>,
                PreconditionError,
            >(None),
            message_op_result(old(self)@) is Ok && old(self)@.inbox.len() > 0 ==> {
                &&& r matches Ok(m)
                &&& m matches Some(bytes) && bytes@ == old(self)@.inbox.first()
            },
    {
        if self.is_done() {
            return Err(PreconditionError::CallDone);
        }
        if self.is_cancelled() {
            return Err(PreconditionError::CallCancelled);
        }
        if self.inbox.len() == 0 {
            return Ok(None);
        }
        let bytes = self.inbox.remove(0);
        proof {
            assert(self@.inbox =~= old(self)@.inbox.drop_first());
        }
        Ok(Some(bytes))
    }

    /// Sets the cancelled flag, monotonically; the runtime then propagates
    /// cancellation to the transport, best-effort.  Rejected once the call
    /// is done; cancelling twice is accepted.
    pub fn cancel(&mut self) -> (r: Result<(), PreconditionError>)
        ensures
            r == cancel_result(old(self)@),
            final(self)@ == after_cancel(old(self)@),
    {
        if self.is_done() {
            return Err(PreconditionError::CallDone);
        }
        self.phase = CallPhase::Cancelled;
        Ok(())
    }

    /// Sets the done flag, monotonically, and returns the transport-call
    /// handle, if any, so the runtime can release it.  Safe to call after
    /// `cancel`; a second `finish` is rejected as already done.
    pub fn finish(&mut self) -> (r: Result<Option<H>, PreconditionError>)
        ensures
            final(self)@ == after_finish(old(self)@),
            r is Ok <==> finish_result(old(self)@) is Ok,
            r matches Err(e) ==> finish_result(old(self)@) == Err::<(), PreconditionError>(e),
            r matches Ok(h) ==> h == old(self)@.handle,
    {
        if self.is_done() {
            return Err(PreconditionError::CallDone);
        }
        if self.is_cancelled() {
            self.phase = CallPhase::CancelledDone;
        } else {
            self.phase = CallPhase::Done;
        }
        Ok(self.cell.take())
    }

    /// The deadline check the runtime's timer drives, with `now` in
    /// microseconds on the same clock as the deadline.  An elapsed deadline
    /// forces the call to cancelled-and-done and reports the
    /// deadline-exceeded status; firing is idempotent, and idempotent with
    /// an explicit `cancel` followed by `finish`.
    pub fn check_deadline(&mut self, now_micros: u64) -> (r: Option<Status>)
        ensures
            final(self)@ == after_deadline(old(self)@, now_micros),
            r is Some <==> deadline_fired(old(self)@, now_micros),
            r matches Some(s) ==> {
                &&& s.code == StatusCode::DeadlineExceeded
                &&& s.message@ == "Deadline exceeded"@
            },
    {
        let expired = match self.deadline_micros {
            Some(d) => now_micros >= d,
            None => false,
        };
        if !expired || self.is_done() {
            return None;
        }
        self.phase = CallPhase::CancelledDone;
        let _ = self.cell.take();
        Some(Status::deadline_exceeded())
    }

    /// Hands the queued outgoing messages, in write order, to the runtime's
    /// writer task and clears the queue.
    pub fn take_pending_sends(&mut self) -> (r: Vec<Vec<u8>>)
        ensures
            r.deep_view() == old(self)@.outbox,
            final(self)@ == (CallView { outbox: Seq::<Seq<u8>>::empty(), ..old(self)@ }),
    {
        let mut drained: Vec<Vec<u8>> = Vec::new();
        std::mem::swap(&mut drained, &mut self.outbox);
        proof {
            assert(self@.outbox =~= Seq::<Seq<u8>>::empty());
        }
        drained
    }

    /// Called by the runtime's reader task when a message arrives from the
    /// transport: appended in arrival order while the call is live,
    /// discarded once the call is done.
    pub fn deliver_message(&mut self, message: Vec<u8>)
        ensures
            phase_done(old(self)@.phase) ==> final(self)@ == old(self)@,
            !phase_done(old(self)@.phase) ==> final(self)@ == (CallView {
                inbox: old(self)@.inbox.push(message@),
                ..old(self)@
            }),
    {
        if self.is_done() {
            return ;
        }
        self.inbox.push(message);
        proof {
            assert forall|j: int|
                0 <= j < self.inbox@.len() implies self@.inbox[j] == old(self)@.inbox.push(
                message@,
            )[j] by {
                assert(self@.inbox[j] == self.inbox@[j]@);
                if j < old(self).inbox@.len() {
                    assert(old(self)@.inbox[j] == old(self).inbox@[j]@);
                }
            }
            assert(self@.inbox =~= old(self)@.inbox.push(message@));
        }
    }

    pub fn is_cancelled(&self) -> (r: bool)
        ensures
            r == phase_cancelled(self@.phase),
    {
        matches!(self.phase, CallPhase::Cancelled | CallPhase::CancelledDone)
    }

    pub fn is_done(&self) -> (r: bool)
        ensures
            r == phase_done(self@.phase),
    {
        matches!(self.phase, CallPhase::Done | CallPhase::CancelledDone)
    }

    pub fn get_method(&self) -> (r: String)
        ensures
            r@ == self@.method,
    {
        self.method.clone()
    }

    /// The deadline in microseconds on the runtime's clock, if one was set.
    pub fn get_deadline(&self) -> (r: Option<u64>)
        ensures
            r == self@.deadline_micros,
    {
        self.deadline_micros
    }

    /// The call's metadata, in insertion order.
    pub fn get_metadata(&self) -> (r: Vec<(String, String)>)
        ensures
            r.deep_view() == self@.metadata,
    {
        self.metadata.items()
    }
}

} // verus!
