use vstd::prelude::*;
use crate::errors::PreconditionError;
use crate::metadata::{kv_insert_all, Metadata, MetadataView};
use crate::shared_cell::SharedCell;

verus! {

/// Where a server stands in its lifecycle.  `start` moves `Created` (or
/// `Stopped`, when not shut down) to `Started`; `stop` moves `Started` to
/// `Stopped`.
#[derive(Clone, Copy, Debug, PartialEq, Eq, Structural)]
pub enum ServerPhase {
    Created,
    Started,
    Stopped,
}

/// Abstract state of a server: the immutable address, port and options,
/// the lifecycle phase, the terminal shutdown flag, and the listener
/// handle, present only while a bind has been published.
pub struct ServerView<H> {
    pub address: Seq<char>,
    pub port: u16,
    pub options: MetadataView,
    pub phase: ServerPhase,
    pub shut_down: bool,
    pub listener: Option<H>,
}

/// Whether `start` succeeds from state `s`, and with which error it is
/// rejected.  The shutdown flag dominates: a shut-down server reports the
/// shutdown condition, never "already started".
pub open spec fn start_result<H>(s: ServerView<H>) -> Result<(), PreconditionError> {
    if s.shut_down {
        Err(PreconditionError::ServerShutdown)
    } else if s.phase is Started {
        Err(PreconditionError::AlreadyStarted)
    } else {
        Ok(())
    }
}

/// The server state after `start`: on success the phase is `Started`
/// (synchronously and authoritatively; the listener itself is published
/// later by the background bind task); a rejected `start` changes nothing.
pub open spec fn after_start<H>(s: ServerView<H>) -> ServerView<H> {
    if start_result(s) is Ok {
        ServerView { phase: ServerPhase::Started, ..s }
    } else {
        s
    }
}

/// Whether `stop` succeeds from state `s`.  Stopping is not idempotent: a
/// second `stop` is rejected, not silently accepted.
pub open spec fn stop_result<H>(s: ServerView<H>) -> Result<(), PreconditionError> {
    if s.phase is Started {
        Ok(())
    } else {
        Err(PreconditionError::NotStarted)
    }
}

/// The server state after `stop`: on success the phase is `Stopped` and the
/// listener is released; a rejected `stop` changes nothing.
pub open spec fn after_stop<H>(s: ServerView<H>) -> ServerView<H> {
    if stop_result(s) is Ok {
        ServerView { phase: ServerPhase::Stopped, listener: None, ..s }
    } else {
        s
    }
}

/// The server state after `shutdown`: the terminal flag is set first, then
/// `stop` runs (and may be rejected, leaving phase and listener alone).
pub open spec fn after_shutdown<H>(s: ServerView<H>) -> ServerView<H> {
    after_stop(ServerView { shut_down: true, ..s })
}

/// A second `start` in a row is rejected as already started.
pub proof fn lemma_start_twice_rejected<H>(s: ServerView<H>)
    requires
        start_result(s) is Ok,
    ensures
        start_result(after_start(s)) == Err::<(), PreconditionError>(
            PreconditionError::AlreadyStarted,
        ),
{
}

/// After a shutdown, `start` is always rejected with the shutdown
/// condition — never with "already started" — whatever state the server
/// was in.
pub proof fn lemma_start_after_shutdown_rejected<H>(s: ServerView<H>)
    ensures
        start_result(after_shutdown(s)) == Err::<(), PreconditionError>(
            PreconditionError::ServerShutdown,
        ),
{
}

/// The data a bind needs: a copy of the server's address, port and
/// options, handed to the task that binds the listener and publishes its
/// handle.
#[derive(Debug)]
pub struct BindRequest {
    pub address: String,
    pub port: u16,
    pub options: Vec<(String, String)>,
}

/// A method name registered with a running server, for later dispatch by
/// the method-invocation layer.
pub struct RegisteredMethod {
    method_name: String,
}

impl View for RegisteredMethod {
    type V = Seq<char>;

    closed spec fn view(&self) -> Seq<char> {
        self.method_name@
    }
}

impl RegisteredMethod {
    pub fn new(method_name: String) -> (m: Self)
        ensures
            m@ == method_name@,
    {
        RegisteredMethod { method_name }
    }

    pub fn get_method_name(&self) -> (r: String)
        ensures
            r@ == self@,
    {
        self.method_name.clone()
    }
}

/// Server-side listener lifecycle manager: binds an address and port to an
/// accepted-connection pool.
///
/// Construction stores configuration only.  `start` flips the phase
/// synchronously and describes the bind for the runtime to perform; the
/// listener handle arrives later through `publish_listener`.  `shutdown`
/// is terminal: once set, the server can never be started again.
pub struct Server<H> {
    address: String,
    port: u16,
    options: Metadata,
    phase: ServerPhase,
    shut_down: bool,
    cell: SharedCell<H>,
}

impl<H> View for Server<H> {
    type V = ServerView<H>;

    closed spec fn view(&self) -> ServerView<H> {
        ServerView {
            address: self.address@,
            port: self.port,
            options: self.options@,
            phase: self.phase,
            shut_down: self.shut_down,
            listener: self.cell@,
        }
    }
}

impl<H> Server<H> {
    /// Stores the address, port and options; never touches I/O.  Option
    /// pairs are inserted in order, a repeated key keeping its last value.
    pub fn new(address: String, port: u16, options: Vec<(String, String)>) -> (s: Self)
        ensures
            s@.address == address@,
            s@.port == port,
            s@.options == kv_insert_all(
                Seq::<(Seq<char>, Seq<char>)>::empty(),
                options.deep_view(),
            ),
            s@.phase == ServerPhase::Created,
            !s@.shut_down,
            s@.listener is None,
    {
        Server {
            address,
            port,
            options: Metadata::from_pairs(options),
            phase: ServerPhase::Created,
            shut_down: false,
            cell: SharedCell::new(),
        }
    }

    /// Starts the server: rejected if shut down or already started;
    /// otherwise the phase moves to `Started` and the returned request
    /// describes the bind for the background task to perform.
    pub fn start(&mut self) -> (r: Result<BindRequest, PreconditionError>)
        ensures
            final(self)@ == after_start(old(self)@),
            r is Ok <==> start_result(old(self)@) is Ok,
            r matches Err(e) ==> start_result(old(self)@) == Err::<(), PreconditionError>(e),
            r matches Ok(req) ==> {
                &&& req.address@ == old(self)@.address
                &&& req.port == old(self)@.port
                &&& req.options.deep_view() == old(self)@.options
            },
    {
        if self.shut_down {
            return Err(PreconditionError::ServerShutdown);
        }
        if matches!(self.phase, ServerPhase::Started) {
            return Err(PreconditionError::AlreadyStarted);
        }
        self.phase = ServerPhase::Started;
        Ok(BindRequest {
            address: self.address.clone(),
            port: self.port,
            options: self.options.items(),
        })
    }

    /// Publishes the listener handle the bind task produced.
    pub fn publish_listener(&mut self, h: H)
        ensures
            final(self)@ == (ServerView { listener: Some(h), ..old(self)@ }),
    {
        self.cell.publish(h);
    }

    /// Stops the server: rejected if not started; otherwise the phase moves
    /// to `Stopped` and the listener handle, if already published, is
    /// returned so the runtime can release the listening socket.
    pub fn stop(&mut self) -> (r: Result<Option<H>, PreconditionError>)
        ensures
            final(self)@ == after_stop(old(self)@),
            r is Ok <==> stop_result(old(self)@) is Ok,
            r matches Err(e) ==> stop_result(old(self)@) == Err::<(), PreconditionError>(e),
            r matches Ok(h) ==> h == old(self)@.listener,
    {
        if !matches!(self.phase, ServerPhase::Started) {
            return Err(PreconditionError::NotStarted);
        }
        self.phase = ServerPhase::Stopped;
        Ok(self.cell.take())
    }

    /// Sets the terminal shutdown flag, then delegates to `stop`.  The flag
    /// is set even when the delegated `stop` is rejected, so a later
    /// `start` always reports the shutdown condition.
    pub fn shutdown(&mut self) -> (r: Result<Option<H>, PreconditionError>)
        ensures
            final(self)@ == after_shutdown(old(self)@),
            r is Ok <==> stop_result(old(self)@) is Ok,
            r matches Err(e) ==> stop_result(old(self)@) == Err::<(), PreconditionError>(e),
            r matches Ok(h) ==> h == old(self)@.listener,
    {
        self.shut_down = true;
        self.stop()
    }

    /// Associates a method name with this running server; rejected if the
    /// server is not started.
    pub fn register_method(&self, method_name: String) -> (r: Result<
        RegisteredMethod,
        PreconditionError,
    >)
        ensures
            r is Ok <==> self@.phase is Started,
            r matches Ok(m) ==> m@ == method_name@,
            r matches Err(e) ==> e == PreconditionError::NotStarted,
    {
        if !matches!(self.phase, ServerPhase::Started) {
            return Err(PreconditionError::NotStarted);
        }
        Ok(RegisteredMethod::new(method_name))
    }

    pub fn is_started(&self) -> (r: bool)
        ensures
            r == (self@.phase is Started),
    {
        matches!(self.phase, ServerPhase::Started)
    }

    pub fn is_shutdown(&self) -> (r: bool)
        ensures
            r == self@.shut_down,
    {
        self.shut_down
    }

    pub fn get_address(&self) -> (r: String)
        ensures
            r@ == self@.address,
    {
        self.address.clone()
    }

    pub fn get_port(&self) -> (r: u16)
        ensures
            r == self@.port,
    {
        self.port
    }

    /// The configured options, in insertion order.
    pub fn get_options(&self) -> (r: Vec<(String, String)>)
        ensures
            r.deep_view() == self@.options,
    {
        self.options.items()
    }
}

} // verus!
