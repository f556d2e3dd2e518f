use hokay::coordinator::{default_address, effective_addresses, ListenAddress, Phase, Service};
use hokay::outcome::{Outcome, ServiceError};
use hokay::response::{handle_request, RequestSummary};

#[test]
fn default_address_value() {
    let a = default_address();
    assert_eq!(a.host, b"0.0.0.0".to_vec());
    assert_eq!(a.port, 8080);
}

#[test]
fn effective_addresses_default_when_empty() {
    let r = effective_addresses(Vec::new());
    assert_eq!(r.len(), 1);
    assert_eq!(r[0].host, b"0.0.0.0".to_vec());
    assert_eq!(r[0].port, 8080);
}

#[test]
fn effective_addresses_keeps_given() {
    let given = vec![
        ListenAddress { host: b"127.0.0.1".to_vec(), port: 9000 },
        ListenAddress { host: b"::1".to_vec(), port: 9001 },
    ];
    let r = effective_addresses(given.clone());
    assert_eq!(r, given);
}

#[test]
fn service_starts_only_when_all_bound() {
    let s = Service::start(&vec![Outcome::Done, Outcome::Done]).unwrap();
    assert_eq!(s.phase, Phase::Running);
    assert!(!s.shutdown.observe());
    assert_eq!(s.listeners.len(), 2);
    for l in &s.listeners {
        assert_eq!(l.accepted, 0);
    }
}

#[test]
fn bind_failure_blocks_service() {
    // Second listener's address occupied: no service, no listener starts.
    let r = Service::start(&vec![Outcome::Done, Outcome::Failed { code: 98 }]);
    assert_eq!(r.unwrap_err(), ServiceError::Bind { index: 1, code: 98 });
}

#[test]
fn second_signal_no_effect() {
    let mut s = Service::start(&vec![Outcome::Done]).unwrap();
    s.on_signal();
    let phase = s.phase;
    let shutdown = s.shutdown;
    let listeners = s.listeners.clone();
    s.on_signal();
    assert_eq!(s.phase, phase);
    assert_eq!(s.shutdown, shutdown);
    assert_eq!(s.listeners, listeners);
}

#[test]
fn two_listener_graceful_scenario() {
    // Two bound listeners A (0) and B (1). A serves a request to completion
    // before any signal; B has a connection in flight when the terminate
    // signal arrives; that connection still completes during drain; the run
    // ends cleanly and no further accept is permitted on either listener.
    let version = b"0.1.0".to_vec();
    let mut s = Service::start(&vec![Outcome::Done, Outcome::Done]).unwrap();

    assert!(s.accept_allowed(0));
    s.on_accept(0);
    let r = handle_request(
        &RequestSummary { method: b"GET".to_vec(), target: b"/".to_vec(), body_len: 0 },
        &version,
    );
    assert_eq!(r.status, 204);
    s.on_handler_done(0);

    // A connection on B arrives just before the signal.
    assert!(s.accept_allowed(1));
    s.on_accept(1);

    // Terminate arrives: shutdown fires once; no accept is permitted after.
    s.on_signal();
    assert_eq!(s.phase, Phase::Draining);
    assert!(s.shutdown.observe());
    assert!(!s.accept_allowed(0));
    assert!(!s.accept_allowed(1));

    // Both listeners observe the broadcast and stop accepting.
    s.on_observe(0);
    s.on_observe(1);

    // The in-flight connection on B completes and is answered.
    let rb = handle_request(
        &RequestSummary { method: b"GET".to_vec(), target: b"/late".to_vec(), body_len: 0 },
        &version,
    );
    assert_eq!(rb.status, 204);
    s.on_handler_done(1);

    // Both listeners drain to Stopped; the run reports a clean outcome.
    s.on_drained(0);
    s.on_drained(1);
    let out = s.finish_drained(&vec![Outcome::Done, Outcome::Done]);
    assert_eq!(out, Ok(()));
    assert_eq!(s.phase, Phase::Finished);
    for l in &s.listeners {
        assert_eq!(l.accepted, l.completed);
    }
}

#[test]
fn unexpected_exit_finishes_with_error() {
    let mut s = Service::start(&vec![Outcome::Done]).unwrap();
    let e = s.finish_unexpected(&vec![Outcome::Failed { code: 32 }]);
    assert_eq!(e, ServiceError::UnexpectedExitAfterFailure { index: 0, code: 32 });
    assert_eq!(s.phase, Phase::Finished);
}
