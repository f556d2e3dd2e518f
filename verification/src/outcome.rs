//! Aggregating many concurrent outcomes into one service outcome: the bind
//! phase is all-or-nothing, and among loop failures the first in listener
//! order wins.

use vstd::prelude::*;

verus! {

/// Success or an OS error code: what one bind attempt returned, or what one
/// listener loop returned when it finished.
#[derive(Clone, Copy, PartialEq, Eq, Structural, Debug)]
pub enum Outcome {
    /// The attempt succeeded.
    Done,
    /// The attempt failed with this OS error code.
    Failed { code: i32 },
}

/// Why a run of the service failed. Exactly one such value — or a clean
/// shutdown — is produced per run.
#[derive(Clone, Copy, PartialEq, Eq, Structural, Debug)]
pub enum ServiceError {
    /// Binding the address at this position failed; no listener started.
    Bind { index: usize, code: i32 },
    /// Subscribing to an OS signal source failed at startup.
    SignalSubscription { code: i32 },
    /// Every listener loop returned, all cleanly, although shutdown was
    /// never fired.
    UnexpectedExit,
    /// Every listener loop returned although shutdown was never fired, and
    /// at least one failed: the first failure in listener order.
    UnexpectedExitAfterFailure { index: usize, code: i32 },
    /// A listener loop failed while draining after shutdown: the first
    /// failure in listener order.
    DrainFailure { index: usize, code: i32 },
}

impl ServiceError {
    /// The message a failed run leaves on the error stream.
    pub fn describe(&self) -> (m: &'static str)
        ensures
            m@ == match *self {
                ServiceError::Bind { .. } => "failed to bind listen address"@,
                ServiceError::SignalSubscription { .. } => "failed to subscribe to shutdown signals"@,
                ServiceError::UnexpectedExit => "server exited unexpectedly"@,
                ServiceError::UnexpectedExitAfterFailure { .. } => "server exited unexpectedly with a listener error"@,
                ServiceError::DrainFailure { .. } => "listener failed while draining"@,
            },
    {
        match *self {
            ServiceError::Bind { .. } => "failed to bind listen address",
            ServiceError::SignalSubscription { .. } => "failed to subscribe to shutdown signals",
            ServiceError::UnexpectedExit => "server exited unexpectedly",
            ServiceError::UnexpectedExitAfterFailure { .. } => "server exited unexpectedly with a listener error",
            ServiceError::DrainFailure { .. } => "listener failed while draining",
        }
    }
}

/// The error code a failed outcome carries; zero for success.
pub open spec fn failure_code(o: Outcome) -> i32 {
    match o {
        Outcome::Done => 0,
        Outcome::Failed { code } => code,
    }
}

/// The position of the first failure in a sequence of outcomes, if any.
pub open spec fn first_failure(rs: Seq<Outcome>) -> Option<int>
    decreases rs.len(),
{
    if rs.len() == 0 {
        None
    } else if rs[0] is Failed {
        Some(0int)
    } else {
        match first_failure(rs.drop_first()) {
            None => None,
            Some(i) => Some(i + 1),
        }
    }
}

/// Law: `first_failure` finds a failure exactly when one exists, and then
/// the earliest one.
pub proof fn lemma_first_failure_spec(rs: Seq<Outcome>)
    ensures
        match first_failure(rs) {
            None => forall|i: int| 0 <= i < rs.len() ==> rs[i] is Done,
            Some(i) => 0 <= i < rs.len() && rs[i] is Failed && (forall|j: int|
                0 <= j < i ==> rs[j] is Done),
        },
    decreases rs.len(),
{
    if rs.len() > 0 && !(rs[0] is Failed) {
        lemma_first_failure_spec(rs.drop_first());
        match first_failure(rs.drop_first()) {
            None => {
                assert forall|i: int| 0 <= i < rs.len() implies rs[i] is Done by {
                    if i > 0 {
                        assert(rs[i] == rs.drop_first()[i - 1]);
                    }
                }
            },
            Some(k) => {
                assert(rs[k + 1] == rs.drop_first()[k]);
                assert forall|j: int| 0 <= j < k + 1 implies rs[j] is Done by {
                    if j > 0 {
                        assert(rs[j] == rs.drop_first()[j - 1]);
                    }
                }
            },
        }
    }
}

/// Law: when an outcome at `i` fails and everything before it succeeded,
/// `i` is the first failure.
pub proof fn lemma_first_failure_at(rs: Seq<Outcome>, i: int)
    requires
        0 <= i < rs.len(),
        rs[i] is Failed,
        forall|j: int| 0 <= j < i ==> rs[j] is Done,
    ensures
        first_failure(rs) == Some(i),
    decreases i,
{
    if i > 0 {
        assert(rs[0] is Done);
        assert forall|j: int| 0 <= j < i - 1 implies rs.drop_first()[j] is Done by {
            assert(rs.drop_first()[j] == rs[j + 1]);
        }
        assert(rs.drop_first()[i - 1] == rs[i]);
        lemma_first_failure_at(rs.drop_first(), i - 1);
    }
}

/// Law: when every outcome succeeded there is no first failure.
pub proof fn lemma_first_failure_none(rs: Seq<Outcome>)
    requires
        forall|i: int| 0 <= i < rs.len() ==> rs[i] is Done,
    ensures
        first_failure(rs) is None,
    decreases rs.len(),
{
    if rs.len() > 0 {
        assert forall|i: int| 0 <= i < rs.len() - 1 implies rs.drop_first()[i] is Done by {
            assert(rs.drop_first()[i] == rs[i + 1]);
        }
        lemma_first_failure_none(rs.drop_first());
    }
}

/// Scan outcomes in order for the first failure: its position and its code.
pub fn find_first_failure(rs: &Vec<Outcome>) -> (r: Option<(usize, i32)>)
    ensures
        match r {
            None => first_failure(rs@) is None,
            Some(p) => {
                &&& first_failure(rs@) == Some(p.0 as int)
                &&& rs@[p.0 as int] == (Outcome::Failed { code: p.1 })
            },
        },
{
    let mut i: usize = 0;
    while i < rs.len()
        invariant
            i <= rs@.len(),
            forall|j: int| 0 <= j < i ==> rs@[j] is Done,
        decreases rs@.len() - i,
    {
        match rs[i] {
            Outcome::Failed { code } => {
                proof {
                    lemma_first_failure_at(rs@, i as int);
                }
                return Some((i, code));
            },
            Outcome::Done => {},
        }
        i = i + 1;
    }
    proof {
        lemma_first_failure_none(rs@);
    }
    None
}

/// The service-level outcome of the bind phase: success exactly when every
/// address bound; otherwise the first bind failure in address order.
pub open spec fn startup_model(binds: Seq<Outcome>) -> Result<(), ServiceError> {
    match first_failure(binds) {
        None => Ok(()),
        Some(i) => Err(ServiceError::Bind { index: i as usize, code: failure_code(binds[i]) }),
    }
}

/// Decide the bind phase: all-or-nothing. Any failure aborts startup with
/// the first failing address, before any listener starts.
pub fn startup_outcome(binds: &Vec<Outcome>) -> (out: Result<(), ServiceError>)
    ensures
        out == startup_model(binds@),
        out is Ok <==> first_failure(binds@) is None,
{
    match find_first_failure(binds) {
        None => Ok(()),
        Some((index, code)) => Err(ServiceError::Bind { index, code }),
    }
}

/// The outcome once every loop has drained after shutdown: clean when every
/// loop succeeded, else the first failure in listener order.
pub open spec fn drain_model(results: Seq<Outcome>) -> Result<(), ServiceError> {
    match first_failure(results) {
        None => Ok(()),
        Some(i) => Err(
            ServiceError::DrainFailure { index: i as usize, code: failure_code(results[i]) },
        ),
    }
}

/// Decide the end of a drain: every loop has returned after shutdown fired.
pub fn drain_outcome(results: &Vec<Outcome>) -> (out: Result<(), ServiceError>)
    ensures
        out == drain_model(results@),
        out is Ok <==> first_failure(results@) is None,
{
    match find_first_failure(results) {
        None => Ok(()),
        Some((index, code)) => Err(ServiceError::DrainFailure { index, code }),
    }
}

/// The outcome when every loop returned although shutdown was never fired:
/// always a failure, carrying the first loop failure if one exists.
pub open spec fn unexpected_exit_model(results: Seq<Outcome>) -> ServiceError {
    match first_failure(results) {
        None => ServiceError::UnexpectedExit,
        Some(i) => ServiceError::UnexpectedExitAfterFailure {
            index: i as usize,
            code: failure_code(results[i]),
        },
    }
}

/// Decide an unexpected exit: the loops all returned with no shutdown fired.
/// This service has no self-terminating condition, so this is an error even
/// when every loop returned cleanly.
pub fn unexpected_exit_outcome(results: &Vec<Outcome>) -> (e: ServiceError)
    ensures
        e == unexpected_exit_model(results@),
{
    match find_first_failure(results) {
        None => ServiceError::UnexpectedExit,
        Some((index, code)) => ServiceError::UnexpectedExitAfterFailure { index, code },
    }
}

/// Law: startup is all-or-nothing — it succeeds exactly when every bind did.
pub proof fn lemma_startup_all_or_nothing(binds: Seq<Outcome>)
    ensures
        startup_model(binds) is Ok <==> (forall|i: int| 0 <= i < binds.len() ==> binds[i] is Done),
{
    lemma_first_failure_spec(binds);
    if forall|i: int| 0 <= i < binds.len() ==> binds[i] is Done {
        lemma_first_failure_none(binds);
    }
}

/// Law: one failed bind anywhere blocks startup entirely.
pub proof fn lemma_failed_bind_blocks_startup(binds: Seq<Outcome>, i: int)
    requires
        0 <= i < binds.len(),
        binds[i] is Failed,
    ensures
        startup_model(binds) is Err,
{
    lemma_first_failure_spec(binds);
}

} // verus!
