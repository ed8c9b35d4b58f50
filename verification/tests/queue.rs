use rpc_core::completion_queue::CompletionQueue;
use rpc_core::errors::PreconditionError;

#[test]
fn events_come_out_in_arrival_order() {
    let mut q: CompletionQueue<&'static str> = CompletionQueue::new();
    q.start().unwrap();
    q.add_event("A").unwrap();
    q.add_event("B").unwrap();
    q.add_event("C").unwrap();
    assert_eq!(q.get_event_count(), 3);
    assert_eq!(q.next_event().unwrap(), Some("A"));
    assert_eq!(q.next_event().unwrap(), Some("B"));
    assert_eq!(q.next_event().unwrap(), Some("C"));
    assert_eq!(q.next_event().unwrap(), None);
}

#[test]
fn empty_queue_polls_none() {
    let mut q: CompletionQueue<u64> = CompletionQueue::new();
    assert_eq!(q.next_event().unwrap(), None);
    assert_eq!(q.get_event_count(), 0);
}

#[test]
fn interleaved_adds_keep_order() {
    let mut q: CompletionQueue<u64> = CompletionQueue::new();
    q.add_event(1).unwrap();
    q.add_event(2).unwrap();
    assert_eq!(q.next_event().unwrap(), Some(1));
    q.add_event(3).unwrap();
    assert_eq!(q.next_event().unwrap(), Some(2));
    assert_eq!(q.next_event().unwrap(), Some(3));
}

#[test]
fn shutdown_hands_back_pending_events() {
    let mut q: CompletionQueue<u64> = CompletionQueue::new();
    q.add_event(10).unwrap();
    q.add_event(20).unwrap();
    let drained = q.shutdown().unwrap();
    assert_eq!(drained, vec![10, 20]);
    assert!(q.is_shutdown());
    assert_eq!(q.get_event_count(), 0);
}

#[test]
fn operations_fail_after_shutdown() {
    let mut q: CompletionQueue<u64> = CompletionQueue::new();
    q.shutdown().unwrap();
    assert_eq!(q.start(), Err(PreconditionError::QueueShutdown));
    assert_eq!(q.add_event(1), Err(PreconditionError::QueueShutdown));
    assert_eq!(q.next_event(), Err(PreconditionError::QueueShutdown));
    assert_eq!(q.shutdown(), Err(PreconditionError::QueueShutdown));
}

#[test]
fn queue_shutdown_error_message() {
    let mut q: CompletionQueue<u64> = CompletionQueue::new();
    q.shutdown().unwrap();
    let e = q.add_event(1).unwrap_err();
    assert_eq!(e.message(), "CompletionQueue is shutdown");
}
