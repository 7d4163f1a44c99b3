use crossterm::event::ctrl_c::PendingEvents;

#[test]
fn pending_events_are_counted_individually() {
    let mut pending = PendingEvents::new();

    pending.add();
    pending.add();
    pending.add();

    assert!(pending.take());
    assert!(pending.take());
    assert!(pending.take());
    assert!(!pending.take());
}

#[test]
fn taking_from_nothing_pending_changes_nothing() {
    let mut pending = PendingEvents::new();
    assert!(!pending.take());
    assert_eq!(pending.count(), 0);
    pending.add();
    assert_eq!(pending.count(), 1);
    assert!(pending.take());
    assert_eq!(pending.count(), 0);
}
