use pedidos_rust::tcp_sender::TCPSender;

#[test]
fn first_message_starts_processing() {
    let mut s: TCPSender<&str> = TCPSender::new();
    assert!(s.push("a"));
    assert!(!s.push("b"));
    assert_eq!(s.queue.len(), 2);
}

#[test]
fn messages_leave_in_order_one_at_a_time() {
    let mut s: TCPSender<u32> = TCPSender::new();
    s.push(1);
    s.push(2);
    assert_eq!(s.start_write().copied(), Some(1));
    assert_eq!(s.start_write().copied(), None);
    assert!(s.write_finished(true));
    assert_eq!(s.start_write().copied(), Some(2));
    assert!(!s.write_finished(true));
    assert!(s.queue.is_empty());
    assert_eq!(s.start_write().copied(), None);
}

#[test]
fn failed_write_closes_and_drops_queue() {
    let mut s: TCPSender<u32> = TCPSender::new();
    s.push(1);
    s.push(2);
    s.start_write();
    assert!(!s.write_finished(false));
    assert!(s.closed);
    assert!(!s.writer_idle);
    assert!(s.queue.is_empty());
    s.push(3);
    assert_eq!(s.start_write().copied(), None);
}

#[test]
fn shutdown_drops_everything() {
    let mut s: TCPSender<u32> = TCPSender::new();
    s.push(1);
    s.shutdown();
    assert!(s.queue.is_empty());
    assert!(s.closed);
    assert_eq!(s.start_write().copied(), None);
}
