use relm::EventStream;

#[test]
fn new_stream_is_empty() {
    let s: EventStream<u32> = EventStream::new();
    assert!(s.is_empty());
    assert_eq!(s.len(), 0);
}

#[test]
fn emit_then_pop_is_fifo() {
    let mut s: EventStream<u32> = EventStream::new();
    s.emit(1);
    s.emit(2);
    s.emit(3);
    assert_eq!(s.len(), 3);
    assert_eq!(s.pop(), Some(1));
    assert_eq!(s.pop(), Some(2));
    assert_eq!(s.pop(), Some(3));
    assert_eq!(s.pop(), None);
}

#[test]
fn pop_on_empty_returns_none() {
    let mut s: EventStream<u32> = EventStream::new();
    assert_eq!(s.pop(), None);
    s.emit(7);
    assert_eq!(s.pop(), Some(7));
    assert_eq!(s.pop(), None);
}

#[test]
fn emit_all_keeps_order_behind_pending() {
    let mut s: EventStream<u32> = EventStream::new();
    s.emit(1);
    s.emit_all(vec![2, 3, 4]);
    assert_eq!(s.len(), 4);
    assert_eq!(s.pop(), Some(1));
    assert_eq!(s.pop(), Some(2));
    assert_eq!(s.pop(), Some(3));
    assert_eq!(s.pop(), Some(4));
}
