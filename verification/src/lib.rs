//! Lifecycle and completion-dispatch core for an RPC runtime.
//!
//! This crate holds the state machines that sit between a synchronous caller
//! and an asynchronous transport: client channels, server listeners, in-flight
//! calls, and the completion queue that multiplexes finished work back to the
//! caller.  The transport itself (connecting, binding, reading, writing) is a
//! lower-level collaborator; this crate decides *when* those operations are
//! allowed, owns the handles they produce, and guarantees that lifecycle flags
//! move only in their permitted directions.

pub mod errors;
pub mod shared_cell;
pub mod status;
pub mod metadata;
pub mod completion_queue;
pub mod channel;
pub mod server;
pub mod call;
pub mod credentials;
