use hokay::outcome::{
    drain_outcome, find_first_failure, startup_outcome, unexpected_exit_outcome, Outcome,
    ServiceError,
};

#[test]
fn startup_all_bound_ok() {
    let binds = vec![Outcome::Done, Outcome::Done, Outcome::Done];
    assert_eq!(startup_outcome(&binds), Ok(()));
}

#[test]
fn startup_second_bind_occupied() {
    // The second address is already in use (EADDRINUSE = 98): immediate
    // failure naming that address, all-or-nothing.
    let binds = vec![Outcome::Done, Outcome::Failed { code: 98 }];
    assert_eq!(startup_outcome(&binds), Err(ServiceError::Bind { index: 1, code: 98 }));
}

#[test]
fn startup_empty_is_ok() {
    let binds: Vec<Outcome> = Vec::new();
    assert_eq!(startup_outcome(&binds), Ok(()));
}

#[test]
fn drain_all_clean() {
    let results = vec![Outcome::Done, Outcome::Done];
    assert_eq!(drain_outcome(&results), Ok(()));
}

#[test]
fn drain_first_failure_wins() {
    let results = vec![Outcome::Done, Outcome::Failed { code: 10 }, Outcome::Failed { code: 20 }];
    assert_eq!(drain_outcome(&results), Err(ServiceError::DrainFailure { index: 1, code: 10 }));
}

#[test]
fn unexpected_exit_clean_is_error() {
    let results = vec![Outcome::Done, Outcome::Done];
    assert_eq!(unexpected_exit_outcome(&results), ServiceError::UnexpectedExit);
}

#[test]
fn unexpected_exit_carries_first_failure() {
    let results = vec![Outcome::Failed { code: 7 }, Outcome::Done];
    assert_eq!(
        unexpected_exit_outcome(&results),
        ServiceError::UnexpectedExitAfterFailure { index: 0, code: 7 }
    );
}

#[test]
fn first_failure_scan() {
    assert_eq!(find_first_failure(&vec![Outcome::Done, Outcome::Done]), None);
    assert_eq!(
        find_first_failure(&vec![Outcome::Failed { code: 13 }, Outcome::Failed { code: 9 }]),
        Some((0, 13))
    );
}

#[test]
fn describe_messages() {
    assert_eq!(
        ServiceError::Bind { index: 0, code: 98 }.describe(),
        "failed to bind listen address"
    );
    assert_eq!(
        ServiceError::SignalSubscription { code: 1 }.describe(),
        "failed to subscribe to shutdown signals"
    );
    assert_eq!(ServiceError::UnexpectedExit.describe(), "server exited unexpectedly");
    assert_eq!(
        ServiceError::UnexpectedExitAfterFailure { index: 2, code: 5 }.describe(),
        "server exited unexpectedly with a listener error"
    );
    assert_eq!(
        ServiceError::DrainFailure { index: 1, code: 4 }.describe(),
        "listener failed while draining"
    );
}
