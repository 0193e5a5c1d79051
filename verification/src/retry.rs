//! Retry executor: drives repeated attempts of a caller-supplied
//! operation under a retry policy, short-circuiting through the
//! circuit breaker, classifying each failure and waiting the computed
//! backoff delay between attempts.

use vstd::prelude::*;

use crate::backoff::{calculate_backoff_delay, delay_value};
use crate::circuit::{allowed_check_step, request_allowed, CircuitBreaker};
use crate::errors::{classification, classify_error, ErrorClass, RecoveryError};
use crate::policy::RetryConfig;

verus! {

/// The terminal outcome of one retry sequence.
#[derive(Clone, Copy, Debug, PartialEq, Eq)]
pub enum RetryResult<T> {
    /// An attempt succeeded.
    Success(T),
    /// The sequence ended in failure: a permanent error, a batch
    /// summary, or `MaxRetriesExceeded` after the allowed attempts.
    Failed(RecoveryError),
    /// The circuit breaker blocked the request; the operation was not
    /// invoked.
    CircuitBreakerOpen,
}

/// What the executor does after one failed attempt.
#[derive(Clone, Copy, Debug, PartialEq, Eq, Structural)]
pub enum RetryDecision {
    /// Record the failure, wait `delay_ms`, and try again.
    Retry { delay_ms: u64 },
    /// Record the failure and surface it: retrying cannot help.
    Fail { error: RecoveryError },
    /// A transient failure used up the last allowed attempt.
    Exhausted,
}

/// Decide how to continue after attempt `attempt` (counted from 0)
/// failed with `error` at time `now`: transient failures are retried
/// after the backoff delay while attempts remain, everything else
/// gives up at once.
pub fn retry_decision(config: &RetryConfig, attempt: u32, error: RecoveryError, now: u64) -> (
    decision: RetryDecision)
    requires
        config.wf(),
        attempt < config.max_attempts,
    ensures
        classification(error) != ErrorClass::Transient ==> decision == (RetryDecision::Fail {
            error,
        }),
        classification(error) == ErrorClass::Transient && attempt + 1 < config.max_attempts
            ==> decision == (RetryDecision::Retry {
            delay_ms: delay_value(*config, attempt as nat, now) as u64,
        }),
        classification(error) == ErrorClass::Transient && attempt + 1 == config.max_attempts
            ==> decision == RetryDecision::Exhausted,
{
    if matches!(classify_error(error), ErrorClass::Transient) {
        if attempt + 1 < config.max_attempts {
            let delay_ms = calculate_backoff_delay(config, attempt, now);
            RetryDecision::Retry { delay_ms }
        } else {
            RetryDecision::Exhausted
        }
    } else {
        RetryDecision::Fail { error }
    }
}

/// A fallible operation handed to the retry executor.  The host
/// implements it: `attempt` performs one invocation, `wait` honours a
/// backoff delay (in milliseconds) before the next one.
pub trait RetryOperation<T> {
    /// Perform invocation number `attempt` (counted from 0).
    fn attempt(&mut self, attempt: u32) -> Result<T, RecoveryError>;

    /// Honour the backoff delay before the next invocation.
    fn wait(&mut self, delay_ms: u64);
}

/// Run attempts `attempt..max_attempts`, classifying failures and
/// waiting the backoff delay between transient ones.
fn run_attempts<T, Op: RetryOperation<T>>(
    operation: &mut Op,
    config: &RetryConfig,
    breaker: &mut CircuitBreaker,
    attempt: u32,
    now: u64,
) -> (result: RetryResult<T>)
    requires
        config.wf(),
        attempt < config.max_attempts,
    ensures
        !(result is CircuitBreakerOpen),
        forall|e: RecoveryError|
            result == RetryResult::<T>::Failed(e) ==> classification(e) != ErrorClass::Transient,
    decreases config.max_attempts - attempt,
{
    match operation.attempt(attempt) {
        Ok(value) => {
            breaker.record_success();
            RetryResult::Success(value)
        },
        Err(error) => {
            match retry_decision(config, attempt, error, now) {
                RetryDecision::Fail { error } => {
                    breaker.record_failure(now);
                    RetryResult::Failed(error)
                },
                RetryDecision::Exhausted => RetryResult::Failed(RecoveryError::MaxRetriesExceeded),
                RetryDecision::Retry { delay_ms } => {
                    breaker.record_failure(now);
                    operation.wait(delay_ms);
                    run_attempts(operation, config, breaker, attempt + 1, now)
                },
            }
        },
    }
}

/// Execute `operation` with retries under `config` at time `now`,
/// consulting `breaker` first.
///
/// If the breaker blocks the request, the operation is never invoked
/// and the result is `CircuitBreakerOpen`.  Otherwise the operation is
/// invoked at most `max_attempts` times: a success is recorded on the
/// breaker and returned; a permanent (or batch-summary) failure is
/// recorded and surfaced immediately; a transient failure is recorded
/// and retried after the backoff delay while attempts remain, and
/// surfaces as `MaxRetriesExceeded` once they run out — a transient
/// error itself is never surfaced.
pub fn execute_with_retry<T, Op: RetryOperation<T>>(
    operation: &mut Op,
    config: &RetryConfig,
    breaker: &mut CircuitBreaker,
    now: u64,
) -> (result: RetryResult<T>)
    requires
        config.wf(),
    ensures
        (result is CircuitBreakerOpen) == !request_allowed(*old(breaker), now),
        !request_allowed(*old(breaker), now) ==> *final(breaker) == allowed_check_step(
            *old(breaker),
            now,
        ),
        forall|e: RecoveryError|
            result == RetryResult::<T>::Failed(e) ==> classification(e) != ErrorClass::Transient,
{
    if !breaker.is_request_allowed(now) {
        return RetryResult::CircuitBreakerOpen;
    }
    run_attempts(operation, config, breaker, 0, now)
}

} // verus!
