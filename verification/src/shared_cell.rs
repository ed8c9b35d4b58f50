use vstd::prelude::*;

verus! {

/// A mutually exclusive container for one optional transport resource.
///
/// Each channel, server, call and credentials object owns exactly one of
/// these; the background task that establishes the resource publishes it
/// here, and teardown takes it back out.  Absence of a resource is a valid
/// state, not an error: none of these operations can fail.
///
/// Mutual exclusion itself (the lock the runtime wraps around the owning
/// entity) is the runtime's concern; this type is the serialized content
/// those critical sections operate on.
pub struct SharedCell<T> {
    contents: Option<T>,
}

impl<T> View for SharedCell<T> {
    type V = Option<T>;

    closed spec fn view(&self) -> Option<T> {
        self.contents
    }
}

impl<T> SharedCell<T> {
    /// An empty cell: no resource has been published yet.
    pub fn new() -> (c: Self)
        ensures
            c@ is None,
    {
        SharedCell { contents: None }
    }

    /// Replaces the contents unconditionally (last write wins).  Used by the
    /// task that completes a connection, bind, or call start.
    pub fn publish(&mut self, resource: T)
        ensures
            final(self)@ == Some(resource),
    {
        self.contents = Some(resource);
    }

    /// Atomically removes and returns the contents; ownership of the resource
    /// transfers to the caller.  Used by teardown.
    pub fn take(&mut self) -> (r: Option<T>)
        ensures
            r == old(self)@,
            final(self)@ is None,
    {
        self.contents.take()
    }

    /// A cheap duplicate of the presence/absence state, for lifecycle queries
    /// that must not block on the background task.
    pub fn snapshot(&self) -> (present: bool)
        ensures
            present == (self@ is Some),
    {
        self.contents.is_some()
    }
}

} // verus!
