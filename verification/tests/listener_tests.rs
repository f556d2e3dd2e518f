use hokay::listener::{Listener, ListenerState};

#[test]
fn listener_lifecycle_drains() {
    let mut l = Listener::new();
    assert_eq!(l.state, ListenerState::Accepting);
    l.on_accept();
    l.on_accept();
    assert_eq!(l.accepted, 2);
    l.on_shutdown();
    assert_eq!(l.state, ListenerState::Draining);
    l.on_handler_done();
    l.on_handler_done();
    assert_eq!(l.completed, 2);
    l.finish_drain();
    assert_eq!(l.state, ListenerState::Stopped);
    assert_eq!(l.accepted, l.completed);
}

#[test]
fn listener_drain_with_nothing_outstanding() {
    let mut l = Listener::new();
    l.on_shutdown();
    l.finish_drain();
    assert_eq!(l.state, ListenerState::Stopped);
    assert_eq!(l.accepted, 0);
    assert_eq!(l.completed, 0);
}

#[test]
fn handler_can_finish_before_shutdown() {
    let mut l = Listener::new();
    l.on_accept();
    l.on_handler_done();
    assert_eq!(l.state, ListenerState::Accepting);
    assert_eq!(l.accepted, 1);
    assert_eq!(l.completed, 1);
}
