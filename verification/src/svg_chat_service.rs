//! Bounded retry of one batch task.
//!
//! A task is attempted at most [`MAX_ATTEMPTS`] times. A failed attempt
//! that is not the last is followed by one fixed backoff delay; the
//! first success terminates the run. The attempts themselves happen
//! outside the library; here each attempt's outcome is a boolean, so
//! the whole retry run is a pure function of the outcome sequence.

use vstd::prelude::*;

verus! {

/// How many times one task is attempted before giving up.
pub const MAX_ATTEMPTS: usize = 3;

/// The fixed delay between a failed attempt and the next one, in
/// milliseconds.
pub const RETRY_DELAY_MS: u64 = 100;

/// What to do after one attempt: terminate with the given success flag,
/// or wait `delay_ms` and run attempt `next_attempt`.
#[derive(Clone, Copy, Debug, PartialEq, Eq, Structural)]
pub enum RetryDecision {
    Done(bool),
    Backoff { delay_ms: u64, next_attempt: usize },
}

/// How a whole retry run ended: whether it succeeded, how many attempts
/// ran, and how many backoff delays were taken.
#[derive(Clone, Copy, Debug, PartialEq, Eq, Structural)]
pub struct RetryReport {
    pub success: bool,
    pub attempts: usize,
    pub backoffs: usize,
}

/// The outcome of a retry run whose attempts would yield `outcomes`:
/// the run stops at the first success, or fails after the last attempt.
pub open spec fn spec_retry_report(outcomes: Seq<bool>) -> RetryReport
    recommends
        outcomes.len() == MAX_ATTEMPTS,
{
    if outcomes[0] {
        RetryReport { success: true, attempts: 1, backoffs: 0 }
    } else if outcomes[1] {
        RetryReport { success: true, attempts: 2, backoffs: 1 }
    } else if outcomes[2] {
        RetryReport { success: true, attempts: 3, backoffs: 2 }
    } else {
        RetryReport { success: false, attempts: 3, backoffs: 2 }
    }
}

/// The decision after attempt number `attempt` (counted from zero)
/// ended with outcome `ok`: success terminates the run; a failure
/// before the last attempt waits [`RETRY_DELAY_MS`] and moves on; a
/// failure on the last attempt terminates the run as failed.
pub fn retry_step(attempt: usize, ok: bool) -> (d: RetryDecision)
    requires
        attempt < MAX_ATTEMPTS,
    ensures
        ok ==> d == RetryDecision::Done(true),
        !ok && attempt + 1 < MAX_ATTEMPTS ==> d == (RetryDecision::Backoff {
            delay_ms: RETRY_DELAY_MS,
            next_attempt: (attempt + 1) as usize,
        }),
        !ok && attempt + 1 == MAX_ATTEMPTS ==> d == RetryDecision::Done(false),
{
    if ok {
        RetryDecision::Done(true)
    } else if attempt + 1 < MAX_ATTEMPTS {
        RetryDecision::Backoff { delay_ms: RETRY_DELAY_MS, next_attempt: attempt + 1 }
    } else {
        RetryDecision::Done(false)
    }
}

/// Drives one batch task to completion under bounded retry.
pub struct SVGChatService {}

impl SVGChatService {
    /// Runs the retry state machine over the attempt outcomes: attempt
    /// `i` of the task would end as `outcomes[i]`. The run stops at the
    /// first success; each failure before the last attempt costs one
    /// backoff delay.
    pub fn process_task_with_retry(outcomes: &Vec<bool>) -> (r: RetryReport)
        requires
            outcomes@.len() == MAX_ATTEMPTS,
        ensures
            r == spec_retry_report(outcomes@),
    {
        let mut attempt: usize = 0;
        loop
            invariant
                outcomes@.len() == MAX_ATTEMPTS,
                attempt < MAX_ATTEMPTS,
                forall|j: int| 0 <= j < attempt ==> !outcomes@[j],
            decreases MAX_ATTEMPTS - attempt,
        {
            let ok = outcomes[attempt];
            match retry_step(attempt, ok) {
                RetryDecision::Done(success) => {
                    return RetryReport { success, attempts: attempt + 1, backoffs: attempt };
                },
                RetryDecision::Backoff { next_attempt, .. } => {
                    attempt = next_attempt;
                },
            }
        }
    }
}

/// Law: the run succeeds exactly when some attempt would succeed.
pub proof fn lemma_retry_success_iff(outcomes: Seq<bool>)
    requires
        outcomes.len() == MAX_ATTEMPTS,
    ensures
        spec_retry_report(outcomes).success <==> (outcomes[0] || outcomes[1] || outcomes[2]),
{
}

/// Law: a task that fails on its first two attempts and succeeds on the
/// third terminates as a success, after exactly two backoff delays.
pub proof fn lemma_third_attempt_succeeds(outcomes: Seq<bool>)
    requires
        outcomes.len() == MAX_ATTEMPTS,
        !outcomes[0],
        !outcomes[1],
        outcomes[2],
    ensures
        spec_retry_report(outcomes).success,
        spec_retry_report(outcomes).attempts == 3,
        spec_retry_report(outcomes).backoffs == 2,
{
}

/// Law: a task that fails on every attempt terminates as a failure with
/// all attempts used and no further retries: the backoff count stays at
/// the two delays between the three attempts.
pub proof fn lemma_all_attempts_fail(outcomes: Seq<bool>)
    requires
        outcomes.len() == MAX_ATTEMPTS,
        !outcomes[0],
        !outcomes[1],
        !outcomes[2],
    ensures
        !spec_retry_report(outcomes).success,
        spec_retry_report(outcomes).attempts == 3,
        spec_retry_report(outcomes).backoffs == 2,
{
}

} // verus!
