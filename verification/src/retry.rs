//! Bounded connection retry with a constant delay between attempts.
//!
//! The connection primitive itself is an external collaborator; the broker
//! decides, attempt by attempt, whether to retry after a delay or to give up,
//! and `run_retry` states what a whole run of the policy produces for any
//! sequence of attempt outcomes.

use vstd::prelude::*;
use crate::errors::ConnectionError;

verus! {

/// Number of connection attempts made before giving up.
pub const MAX_ATTEMPTS: u32 = 5;

/// Constant delay, in seconds, between failed connection attempts. There is
/// no backoff growth.
pub const RETRY_DELAY_SECONDS: u64 = 1;

/// What one attempt of the underlying connect primitive produced.
#[derive(Clone, Copy, PartialEq, Eq, Structural, Debug)]
pub enum AttemptOutcome {
    /// The connection was established.
    Connected,
    /// The attempt failed with this status code.
    Failed(i32),
}

/// Result of running the whole retry policy.
#[derive(Clone, Copy, PartialEq, Eq, Structural, Debug)]
pub enum RetryRun {
    /// The connection was established on this attempt (1-based), after this
    /// many constant delays.
    Success { attempt: u32, delays_elapsed: u32 },
    /// Every attempt failed; the reported cause is the final attempt's, and
    /// no delay follows the final attempt.
    Failure { final_cause: i32, delays_elapsed: u32 },
}

/// Everything `run_retry` promises: a success is the first successful
/// attempt, preceded by one delay per failed attempt before it; a failure
/// means every attempt failed and reports the final attempt's cause.
pub open spec fn retry_post(outcomes: Seq<AttemptOutcome>, max_attempts: int, r: RetryRun) -> bool {
    match r {
        RetryRun::Success { attempt, delays_elapsed } => {
            &&& 1 <= attempt <= max_attempts
            &&& outcomes[attempt - 1] is Connected
            &&& forall|j: int| 0 <= j < attempt - 1 ==> outcomes[j] is Failed
            &&& delays_elapsed == attempt - 1
        },
        RetryRun::Failure { final_cause, delays_elapsed } => {
            &&& forall|j: int| 0 <= j < max_attempts ==> outcomes[j] is Failed
            &&& final_cause == outcomes[max_attempts - 1]->Failed_0
            &&& delays_elapsed == max_attempts - 1
        },
    }
}

/// Decision core of `connect_with_retry`: given the outcome each attempt of
/// the connect primitive would produce, determines on which attempt the run
/// succeeds, how many constant delays elapse before that, and, when every
/// attempt fails, which cause is reported.
pub fn run_retry(outcomes: &Vec<AttemptOutcome>, max_attempts: u32) -> (r: RetryRun)
    requires
        1 <= max_attempts,
        outcomes@.len() >= max_attempts,
    ensures
        retry_post(outcomes@, max_attempts as int, r),
{
    let n: usize = max_attempts as usize;
    let mut i: usize = 0;
    while i + 1 < n
        invariant
            n == max_attempts,
            1 <= n,
            outcomes@.len() >= n,
            i < n,
            forall|j: int| 0 <= j < i ==> outcomes@[j] is Failed,
        decreases n - i,
    {
        match outcomes[i] {
            AttemptOutcome::Connected => {
                return RetryRun::Success { attempt: (i + 1) as u32, delays_elapsed: i as u32 };
            },
            AttemptOutcome::Failed(_) => {
                // one constant delay elapses here before the next attempt
            },
        }
        i = i + 1;
    }
    // final attempt: no delay follows it, whatever its outcome
    match outcomes[n - 1] {
        AttemptOutcome::Connected => RetryRun::Success {
            attempt: n as u32,
            delays_elapsed: (n - 1) as u32,
        },
        AttemptOutcome::Failed(cause) => RetryRun::Failure {
            final_cause: cause,
            delays_elapsed: (n - 1) as u32,
        },
    }
}

/// Law: if the connect primitive first succeeds on attempt `k` (1-based),
/// the retry run succeeds on exactly attempt `k` after exactly `k - 1`
/// delays, never more.
pub proof fn lemma_retry_success_exact_delays(
    outcomes: Seq<AttemptOutcome>,
    max_attempts: int,
    k: int,
    r: RetryRun,
)
    requires
        1 <= max_attempts,
        outcomes.len() >= max_attempts,
        1 <= k <= max_attempts,
        outcomes[k - 1] is Connected,
        forall|j: int| 0 <= j < k - 1 ==> outcomes[j] is Failed,
        retry_post(outcomes, max_attempts, r),
    ensures
        r matches RetryRun::Success { attempt, delays_elapsed } && attempt == k
            && delays_elapsed == k - 1,
{
}

/// Law: if every attempt fails, the run fails, reports the final attempt's
/// cause (not an earlier one), and exactly one delay elapsed after each
/// attempt but the last.
pub proof fn lemma_retry_all_fail_final_cause(
    outcomes: Seq<AttemptOutcome>,
    max_attempts: int,
    r: RetryRun,
)
    requires
        1 <= max_attempts,
        outcomes.len() >= max_attempts,
        forall|j: int| 0 <= j < max_attempts ==> outcomes[j] is Failed,
        retry_post(outcomes, max_attempts, r),
    ensures
        r matches RetryRun::Failure { final_cause, delays_elapsed }
            && final_cause == outcomes[max_attempts - 1]->Failed_0
            && delays_elapsed == max_attempts - 1,
{
}

/// Step-by-step form of the retry policy, for a caller that performs the
/// attempts itself: after each failed attempt it says whether to wait for the
/// constant delay and retry, or to give up with the final cause.
pub struct ConnectionBroker {
    /// Attempts made so far, all failed.
    pub failed_attempts: u32,
    /// Attempt ceiling this broker was created with.
    pub max_attempts: u32,
}

/// What the broker tells the caller to do after a failed attempt.
#[derive(Clone, Copy, PartialEq, Eq, Structural, Debug)]
pub enum RetryAction {
    /// Block for the constant delay, then attempt again.
    RetryAfterDelay,
    /// All attempts are used up: report this error and abort startup.
    GiveUp(ConnectionError),
}

impl ConnectionBroker {
    /// The broker never counts more failures than it has attempts.
    pub open spec fn wf(self) -> bool {
        1 <= self.max_attempts && self.failed_attempts <= self.max_attempts
    }

    /// A fresh broker that will allow `max_attempts` attempts.
    pub fn new(max_attempts: u32) -> (b: Self)
        requires
            1 <= max_attempts,
        ensures
            b.wf(),
            b.failed_attempts == 0,
            b.max_attempts == max_attempts,
    {
        ConnectionBroker { failed_attempts: 0, max_attempts }
    }

    /// Records one failed attempt with its cause. While attempts remain the
    /// caller is told to delay and retry; on the final failure it is told to
    /// give up with exactly this final cause.
    pub fn on_failure(&mut self, cause: i32) -> (a: RetryAction)
        requires
            old(self).wf(),
            old(self).failed_attempts < old(self).max_attempts,
        ensures
            final(self).wf(),
            final(self).max_attempts == old(self).max_attempts,
            final(self).failed_attempts == old(self).failed_attempts + 1,
            a is RetryAfterDelay <==> final(self).failed_attempts < final(self).max_attempts,
            a matches RetryAction::GiveUp(e) ==> e == (ConnectionError { final_cause: cause }),
    {
        self.failed_attempts = self.failed_attempts + 1;
        if self.failed_attempts < self.max_attempts {
            RetryAction::RetryAfterDelay
        } else {
            RetryAction::GiveUp(ConnectionError { final_cause: cause })
        }
    }
}

} // verus!
