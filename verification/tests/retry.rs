use keymint_bringup::errors::ConnectionError;
use keymint_bringup::retry::{
    run_retry, AttemptOutcome, ConnectionBroker, RetryAction, RetryRun, MAX_ATTEMPTS,
    RETRY_DELAY_SECONDS,
};

fn all_failed(codes: [i32; 5]) -> Vec<AttemptOutcome> {
    codes.iter().map(|c| AttemptOutcome::Failed(*c)).collect()
}

#[test]
fn success_on_first_attempt_has_no_delay() {
    let outcomes = vec![
        AttemptOutcome::Connected,
        AttemptOutcome::Failed(1),
        AttemptOutcome::Failed(1),
        AttemptOutcome::Failed(1),
        AttemptOutcome::Failed(1),
    ];
    let r = run_retry(&outcomes, MAX_ATTEMPTS);
    assert_eq!(r, RetryRun::Success { attempt: 1, delays_elapsed: 0 });
}

#[test]
fn success_on_attempt_k_has_k_minus_one_delays() {
    for k in 1..=5usize {
        let mut outcomes = vec![AttemptOutcome::Failed(9); 5];
        outcomes[k - 1] = AttemptOutcome::Connected;
        let r = run_retry(&outcomes, MAX_ATTEMPTS);
        assert_eq!(
            r,
            RetryRun::Success { attempt: k as u32, delays_elapsed: (k - 1) as u32 }
        );
    }
}

#[test]
fn all_attempts_fail_reports_fifth_cause() {
    let outcomes = all_failed([101, 102, 103, 104, 105]);
    let r = run_retry(&outcomes, MAX_ATTEMPTS);
    assert_eq!(r, RetryRun::Failure { final_cause: 105, delays_elapsed: 4 });
}

#[test]
fn outcomes_after_first_success_are_never_consulted() {
    let outcomes = vec![
        AttemptOutcome::Failed(1),
        AttemptOutcome::Connected,
        AttemptOutcome::Connected,
        AttemptOutcome::Failed(2),
        AttemptOutcome::Connected,
    ];
    let r = run_retry(&outcomes, MAX_ATTEMPTS);
    assert_eq!(r, RetryRun::Success { attempt: 2, delays_elapsed: 1 });
}

#[test]
fn broker_steps_match_whole_run() {
    let mut broker = ConnectionBroker::new(MAX_ATTEMPTS);
    for attempt in 1..=4u32 {
        let action = broker.on_failure(attempt as i32);
        assert_eq!(action, RetryAction::RetryAfterDelay);
        assert_eq!(broker.failed_attempts, attempt);
    }
    let action = broker.on_failure(55);
    assert_eq!(action, RetryAction::GiveUp(ConnectionError { final_cause: 55 }));
}

#[test]
fn retry_constants_are_fixed() {
    assert_eq!(MAX_ATTEMPTS, 5);
    assert_eq!(RETRY_DELAY_SECONDS, 1);
}
