use vstd::prelude::*;

verus! {

/// A synchronous precondition violation: an operation was invoked while its
/// owner sat in a lifecycle state that forbids it.  These are reported to the
/// immediate caller and are not retryable without a state change.
#[derive(Clone, Copy, Debug, PartialEq, Eq, Structural)]
pub enum PreconditionError {
    /// `start` was called on a server that is already started.
    AlreadyStarted,
    /// `stop` or `register_method` was called on a server that is not started.
    NotStarted,
    /// `start` was called on a server whose terminal shutdown flag is set.
    ServerShutdown,
    /// An operation was called on a completion queue after its shutdown.
    QueueShutdown,
    /// An operation was called on a call that already reached `done`.
    CallDone,
    /// A message operation was called on a cancelled call.
    CallCancelled,
}

/// The description `message` returns for each variant.
pub open spec fn message_of(e: PreconditionError) -> Seq<char> {
    match e {
        PreconditionError::AlreadyStarted => "Server already started"@,
        PreconditionError::NotStarted => "Server not started"@,
        PreconditionError::ServerShutdown => "Server is shutdown"@,
        PreconditionError::QueueShutdown => "CompletionQueue is shutdown"@,
        PreconditionError::CallDone => "Call already done"@,
        PreconditionError::CallCancelled => "Call is cancelled"@,
    }
}

impl PreconditionError {
    /// Human-readable description of the violated precondition.
    pub fn message(&self) -> (r: &'static str)
        ensures
            r@ == message_of(*self),
    {
        match self {
            PreconditionError::AlreadyStarted => "Server already started",
            PreconditionError::NotStarted => "Server not started",
            PreconditionError::ServerShutdown => "Server is shutdown",
            PreconditionError::QueueShutdown => "CompletionQueue is shutdown",
            PreconditionError::CallDone => "Call already done",
            PreconditionError::CallCancelled => "Call is cancelled",
        }
    }
}

} // verus!
