use rpc_core::call::Call;
use rpc_core::channel::Channel;
use rpc_core::errors::PreconditionError;
use rpc_core::server::Server;
use rpc_core::shared_cell::SharedCell;

type Handle = u64;

fn s(text: &str) -> String {
    text.to_string()
}

#[test]
fn server_start_shutdown_scenario() {
    let mut srv: Server<Handle> = Server::new(s("127.0.0.1"), 50051, Vec::new());
    assert!(!srv.is_started());
    srv.start().unwrap();
    assert!(srv.is_started());
    let again = srv.start().unwrap_err();
    assert_eq!(again, PreconditionError::AlreadyStarted);
    assert_eq!(again.message(), "Server already started");
    srv.shutdown().unwrap();
    assert!(srv.is_shutdown());
    let after = srv.start().unwrap_err();
    assert_eq!(after, PreconditionError::ServerShutdown);
    assert_eq!(after.message(), "Server is shutdown");
}

#[test]
fn server_stop_requires_started() {
    let mut srv: Server<Handle> = Server::new(s("0.0.0.0"), 80, Vec::new());
    assert_eq!(srv.stop(), Err(PreconditionError::NotStarted));
    srv.start().unwrap();
    srv.stop().unwrap();
    assert!(!srv.is_started());
    assert_eq!(srv.stop(), Err(PreconditionError::NotStarted));
}

#[test]
fn server_stop_returns_published_listener() {
    let mut srv: Server<Handle> = Server::new(s("10.0.0.1"), 4242, Vec::new());
    let bind = srv.start().unwrap();
    assert_eq!(bind.address, "10.0.0.1");
    assert_eq!(bind.port, 4242);
    srv.publish_listener(77);
    let taken = srv.stop().unwrap();
    assert_eq!(taken, Some(77));
}

#[test]
fn server_shutdown_before_start_still_flags() {
    let mut srv: Server<Handle> = Server::new(s("h"), 1, Vec::new());
    assert_eq!(srv.shutdown(), Err(PreconditionError::NotStarted));
    assert!(srv.is_shutdown());
    assert_eq!(srv.start().unwrap_err(), PreconditionError::ServerShutdown);
}

#[test]
fn server_register_method_needs_running_server() {
    let mut srv: Server<Handle> = Server::new(s("h"), 1, Vec::new());
    assert!(srv.register_method(s("Echo")).is_err());
    srv.start().unwrap();
    let m = srv.register_method(s("Echo")).unwrap();
    assert_eq!(m.get_method_name(), "Echo");
}

#[test]
fn server_options_keep_order_and_last_value() {
    let srv: Server<Handle> = Server::new(
        s("h"),
        1,
        vec![(s("grpc.max_len"), s("1024")), (s("grpc.alpn"), s("h2")), (s("grpc.max_len"), s("2048"))],
    );
    assert_eq!(srv.get_options(), vec![(s("grpc.max_len"), s("2048")), (s("grpc.alpn"), s("h2"))]);
    assert_eq!(srv.get_address(), "h");
    assert_eq!(srv.get_port(), 1);
}

#[test]
fn channel_connect_then_disconnect_reports_not_connected() {
    let mut ch: Channel<Handle> = Channel::new(s("localhost:50051"), Vec::new());
    assert!(!ch.is_connected());
    let req = ch.connect();
    assert_eq!(req.target, "localhost:50051");
    ch.publish_handle(5);
    assert!(ch.is_connected());
    let taken = ch.disconnect();
    assert_eq!(taken, Some(5));
    assert!(!ch.is_connected());
}

#[test]
fn channel_last_published_handle_wins() {
    let mut ch: Channel<Handle> = Channel::new(s("t"), Vec::new());
    ch.publish_handle(1);
    ch.publish_handle(2);
    assert_eq!(ch.disconnect(), Some(2));
}

#[test]
fn channel_keeps_target_and_options() {
    let ch: Channel<Handle> = Channel::new(s("t"), vec![(s("k"), s("v"))]);
    assert_eq!(ch.get_target(), "t");
    assert_eq!(ch.get_options(), vec![(s("k"), s("v"))]);
    let req = ch.connect();
    assert_eq!(req.options, vec![(s("k"), s("v"))]);
}

#[test]
fn call_rejects_everything_once_done() {
    let mut c: Call<Handle> = Call::new(s("Echo"), None, Vec::new());
    c.finish().unwrap();
    assert!(c.is_done());
    assert_eq!(c.send_message(vec![1]), Err(PreconditionError::CallDone));
    assert_eq!(c.recv_message(), Err(PreconditionError::CallDone));
    assert_eq!(c.cancel(), Err(PreconditionError::CallDone));
    assert!(c.start_call().is_err());
    let e = c.finish().unwrap_err();
    assert_eq!(e, PreconditionError::CallDone);
    assert_eq!(e.message(), "Call already done");
}

#[test]
fn call_finish_twice_second_rejected() {
    let mut c: Call<Handle> = Call::new(s("Echo"), None, Vec::new());
    assert!(c.finish().is_ok());
    assert_eq!(c.finish(), Err(PreconditionError::CallDone));
    assert!(c.is_done());
}

#[test]
fn call_cancel_is_monotonic_and_finish_after_cancel_is_safe() {
    let mut c: Call<Handle> = Call::new(s("Echo"), None, Vec::new());
    c.cancel().unwrap();
    assert!(c.is_cancelled());
    assert!(!c.is_done());
    c.cancel().unwrap();
    assert!(c.is_cancelled());
    let e = c.send_message(vec![1]).unwrap_err();
    assert_eq!(e, PreconditionError::CallCancelled);
    assert_eq!(e.message(), "Call is cancelled");
    assert_eq!(c.recv_message(), Err(PreconditionError::CallCancelled));
    c.finish().unwrap();
    assert!(c.is_cancelled());
    assert!(c.is_done());
}

#[test]
fn call_messages_keep_write_and_arrival_order() {
    let mut c: Call<Handle> = Call::new(s("Echo"), None, Vec::new());
    c.send_message(vec![1]).unwrap();
    c.send_message(vec![2, 2]).unwrap();
    assert_eq!(c.take_pending_sends(), vec![vec![1], vec![2, 2]]);
    assert_eq!(c.take_pending_sends(), Vec::<Vec<u8>>::new());
    assert_eq!(c.recv_message().unwrap(), None);
    c.deliver_message(vec![7]);
    c.deliver_message(vec![8]);
    assert_eq!(c.recv_message().unwrap(), Some(vec![7]));
    assert_eq!(c.recv_message().unwrap(), Some(vec![8]));
    assert_eq!(c.recv_message().unwrap(), None);
}

#[test]
fn call_delivery_after_done_is_discarded() {
    let mut c: Call<Handle> = Call::new(s("Echo"), None, Vec::new());
    c.deliver_message(vec![1]);
    c.finish().unwrap();
    c.deliver_message(vec![2]);
    // The earlier message is still held, but reading is rejected: the call
    // is done.
    assert_eq!(c.recv_message(), Err(PreconditionError::CallDone));
}

#[test]
fn call_deadline_expiry_forces_cancelled_done() {
    // Deadline 10 000 microseconds (0.01 s) past "now" at 1 000 000.
    let mut c: Call<Handle> = Call::new(s("Echo"), Some(1_010_000), Vec::new());
    c.publish_handle(9);
    assert_eq!(c.check_deadline(1_000_000).map(|st| st.get_code()), None);
    assert!(!c.is_done());
    let fired = c.check_deadline(1_010_000).unwrap();
    assert!(fired.is_deadline_exceeded());
    assert_eq!(fired.get_code(), 4);
    assert!(c.is_done());
    assert!(c.is_cancelled());
    // The timer fires at most once.
    assert!(c.check_deadline(2_000_000).is_none());
}

#[test]
fn call_without_deadline_never_expires() {
    let mut c: Call<Handle> = Call::new(s("Echo"), None, Vec::new());
    assert!(c.check_deadline(u64::MAX).is_none());
    assert!(!c.is_done());
    assert_eq!(c.get_deadline(), None);
}

#[test]
fn call_start_request_copies_configuration() {
    let c: Call<Handle> = Call::new(s("pkg.Svc/Do"), Some(42), vec![(s("k"), s("v"))]);
    let req = c.start_call().unwrap();
    assert_eq!(req.method, "pkg.Svc/Do");
    assert_eq!(req.deadline_micros, Some(42));
    assert_eq!(req.metadata, vec![(s("k"), s("v"))]);
    assert_eq!(c.get_method(), "pkg.Svc/Do");
    assert_eq!(c.get_metadata(), vec![(s("k"), s("v"))]);
}

#[test]
fn call_finish_releases_handle() {
    let mut c: Call<Handle> = Call::new(s("Echo"), None, Vec::new());
    c.publish_handle(3);
    assert_eq!(c.finish().unwrap(), Some(3));
}

#[test]
fn shared_cell_publish_take_snapshot() {
    let mut cell: SharedCell<u64> = SharedCell::new();
    assert!(!cell.snapshot());
    cell.publish(1);
    assert!(cell.snapshot());
    cell.publish(2);
    assert_eq!(cell.take(), Some(2));
    assert!(!cell.snapshot());
    assert_eq!(cell.take(), None);
}
