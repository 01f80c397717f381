use p2p_fetch::backoff::RETRY_DELAY_NANOS;
use p2p_fetch::retry::{RetryPolicy, RetrySession, Verdict};

/// Runs an operation whose executions end as `outcomes` says, in order, and
/// reports the final result, the executions made and the retries announced.
fn run(retries: usize, outcomes: &[Result<u32, &'static str>]) -> (Result<u32, &'static str>, usize, usize) {
    let mut session = RetrySession::start(RetryPolicy::new(retries));
    let mut executions = 0;
    let mut notifications = 0;
    loop {
        let outcome = outcomes[executions];
        executions += 1;
        match session.settle(outcome) {
            Verdict::Done(value) => return (Ok(value), executions, notifications),
            Verdict::Exhausted(error) => return (Err(error), executions, notifications),
            Verdict::Retry { error, delay_nanos, session: next } => {
                assert_eq!(Err(error), outcome);
                assert_eq!(delay_nanos, 1_000_000_000);
                notifications += 1;
                session = next;
            }
        }
    }
}

#[test]
fn policy_allows_at_least_one_attempt() {
    assert_eq!(RetryPolicy::new(0).max_attempts(), 1);
    assert_eq!(RetryPolicy::new(1).max_attempts(), 1);
    assert_eq!(RetryPolicy::new(2).max_attempts(), 2);
    assert_eq!(RetryPolicy::new(5).max_attempts(), 5);
    assert_eq!(RetryPolicy::new(usize::MAX).max_attempts(), usize::MAX);
}

#[test]
fn pause_is_one_second() {
    assert_eq!(RETRY_DELAY_NANOS, 1_000_000_000);
}

#[test]
fn fifth_attempt_succeeds_after_four_retries() {
    let outcomes = [Err("a"), Err("b"), Err("c"), Err("d"), Ok(42), Ok(7)];
    assert_eq!(run(5, &outcomes), (Ok(42), 5, 4));
}

#[test]
fn zero_retries_mean_one_attempt() {
    let outcomes = [Err("down"), Ok(1)];
    assert_eq!(run(0, &outcomes), (Err("down"), 1, 0));
}

#[test]
fn one_retry_means_one_attempt() {
    let outcomes = [Err("down"), Ok(1)];
    assert_eq!(run(1, &outcomes), (Err("down"), 1, 0));
}

#[test]
fn persistent_failure_uses_every_attempt() {
    for retries in 0..12usize {
        let outcomes = vec![Err("down"); 20];
        let expected = if retries >= 1 { retries } else { 1 };
        assert_eq!(run(retries, &outcomes), (Err("down"), expected, expected - 1));
    }
}

#[test]
fn last_error_is_the_final_one() {
    let outcomes = [Err("first"), Err("second"), Err("third"), Err("fourth")];
    assert_eq!(run(3, &outcomes), (Err("third"), 3, 2));
}

#[test]
fn success_ends_the_session_at_once() {
    let outcomes = [Ok(9), Err("never")];
    assert_eq!(run(5, &outcomes), (Ok(9), 1, 0));
    assert_eq!(run(0, &outcomes), (Ok(9), 1, 0));
}

#[test]
fn session_counts_its_attempts() {
    let session = RetrySession::start(RetryPolicy::new(3));
    assert_eq!(session.attempt(), 1);
    assert_eq!(session.max_attempts(), 3);
    let (delay, session) = session.after_failure().expect("a second attempt is allowed");
    assert_eq!(delay, 1_000_000_000);
    assert_eq!(session.attempt(), 2);
    let (delay, session) = session.after_failure().expect("a third attempt is allowed");
    assert_eq!(delay, 1_000_000_000);
    assert_eq!(session.attempt(), 3);
    assert_eq!(session.max_attempts(), 3);
    assert!(session.after_failure().is_none());
}

#[test]
fn single_attempt_session_has_no_pause_left() {
    let session = RetrySession::start(RetryPolicy::new(0));
    assert_eq!(session.attempt(), 1);
    assert_eq!(session.max_attempts(), 1);
    assert!(session.after_failure().is_none());
}
