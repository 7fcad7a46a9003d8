use pgmon::{decode_key, Delivery, Event, EventQueue, Key, RawKey};

#[test]
fn events_leave_in_production_order() {
    // the clock ticks at t=1 and t=3, the keyboard sends a key at t=2
    let mut q = EventQueue::new();
    q.push(Event::Tick);
    q.push(Event::Input(decode_key(RawKey::Down)));
    q.push(Event::Tick);
    assert_eq!(q.len(), 3);
    assert_eq!(q.take(), Delivery::Ready(Event::Tick));
    assert_eq!(q.take(), Delivery::Ready(Event::Input(Key::Down)));
    assert_eq!(q.take(), Delivery::Ready(Event::Tick));
    assert_eq!(q.take(), Delivery::Wait);
}

#[test]
fn closed_queue_delivers_pending_then_reports_closed() {
    let mut q = EventQueue::new();
    q.push(Event::Input(Key::Up));
    q.close();
    assert_eq!(q.take(), Delivery::Ready(Event::Input(Key::Up)));
    assert_eq!(q.take(), Delivery::Closed);
    assert_eq!(q.take(), Delivery::Closed);
}

#[test]
fn keys_decode_to_closed_set() {
    assert_eq!(decode_key(RawKey::Char('q')), Key::Quit);
    assert_eq!(decode_key(RawKey::Ctrl('c')), Key::Quit);
    assert_eq!(decode_key(RawKey::Ctrl('r')), Key::Refresh);
    assert_eq!(decode_key(RawKey::Up), Key::Up);
    assert_eq!(decode_key(RawKey::Down), Key::Down);
    assert_eq!(decode_key(RawKey::Char('r')), Key::Other);
    assert_eq!(decode_key(RawKey::Ctrl('q')), Key::Other);
    assert_eq!(decode_key(RawKey::Other), Key::Other);
}
