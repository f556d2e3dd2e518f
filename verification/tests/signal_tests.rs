use hokay::signal::Broadcaster;

#[test]
fn broadcaster_starts_unfired() {
    let b = Broadcaster::new();
    assert!(!b.observe());
}

#[test]
fn fire_reports_first_only() {
    let mut b = Broadcaster::new();
    assert!(b.fire());
    assert!(b.observe());
    assert!(!b.fire());
    assert!(b.observe());
}

#[test]
fn fire_idempotent_state() {
    let mut once = Broadcaster::new();
    once.fire();
    let mut twice = Broadcaster::new();
    twice.fire();
    twice.fire();
    assert_eq!(once, twice);
}
