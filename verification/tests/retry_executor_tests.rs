use resilience_core::circuit::{CircuitBreaker, CircuitState};
use resilience_core::errors::RecoveryError;
use resilience_core::policy::RetryConfig;
use resilience_core::retry::{execute_with_retry, RetryOperation, RetryResult};

/// An operation that fails with a fixed error until a given number of
/// calls, then succeeds, recording every call and every waited delay.
struct ScriptedOperation {
    calls: u32,
    succeed_on_call: u32,
    error: RecoveryError,
    value: i128,
    waited: Vec<u64>,
}

impl ScriptedOperation {
    fn new(succeed_on_call: u32, error: RecoveryError, value: i128) -> ScriptedOperation {
        ScriptedOperation {
            calls: 0,
            succeed_on_call,
            error,
            value,
            waited: Vec::new(),
        }
    }
}

impl RetryOperation<i128> for ScriptedOperation {
    fn attempt(&mut self, _attempt: u32) -> Result<i128, RecoveryError> {
        self.calls += 1;
        if self.calls >= self.succeed_on_call {
            Ok(self.value)
        } else {
            Err(self.error)
        }
    }

    fn wait(&mut self, delay_ms: u64) {
        self.waited.push(delay_ms);
    }
}

fn no_jitter_config(max_attempts: u32) -> RetryConfig {
    RetryConfig {
        max_attempts,
        initial_delay_ms: 100,
        max_delay_ms: 5000,
        backoff_multiplier: 2,
        jitter_percent: 0,
    }
}

#[test]
fn test_retry_success_on_first_attempt() {
    let mut operation = ScriptedOperation::new(1, RecoveryError::NetworkTimeout, 42);
    let config = RetryConfig::default();
    let mut breaker = CircuitBreaker::new();

    let result = execute_with_retry(&mut operation, &config, &mut breaker, 1000);

    match result {
        RetryResult::Success(value) => {
            assert_eq!(value, 42);
            assert_eq!(operation.calls, 1);
        }
        _ => panic!("Expected success"),
    }
}

#[test]
fn test_retry_success_after_transient_failures() {
    let mut operation = ScriptedOperation::new(3, RecoveryError::NetworkTimeout, 100);
    let config = RetryConfig::default();
    let mut breaker = CircuitBreaker::new();

    let result = execute_with_retry(&mut operation, &config, &mut breaker, 1000);

    match result {
        RetryResult::Success(value) => {
            assert_eq!(value, 100);
            assert_eq!(operation.calls, 3);
        }
        _ => panic!("Expected success after retries"),
    }
}

#[test]
fn test_retry_permanent_error_no_retry() {
    let mut operation = ScriptedOperation::new(u32::MAX, RecoveryError::InsufficientFunds, 0);
    let config = RetryConfig::default();
    let mut breaker = CircuitBreaker::new();

    let result = execute_with_retry(&mut operation, &config, &mut breaker, 1000);

    match result {
        RetryResult::Failed(error) => {
            assert_eq!(error, RecoveryError::InsufficientFunds);
            assert_eq!(operation.calls, 1); // Should not retry permanent errors
        }
        _ => panic!("Expected failure"),
    }
}

#[test]
fn test_retry_max_attempts_exceeded() {
    let mut operation = ScriptedOperation::new(u32::MAX, RecoveryError::NetworkTimeout, 0);
    let config = no_jitter_config(3);
    let mut breaker = CircuitBreaker::new();

    let result = execute_with_retry(&mut operation, &config, &mut breaker, 1000);

    match result {
        RetryResult::Failed(error) => {
            assert_eq!(error, RecoveryError::MaxRetriesExceeded);
            assert_eq!(operation.calls, 3);
        }
        _ => panic!("Expected max retries exceeded"),
    }
}

#[test]
fn test_retry_waits_exponential_backoff() {
    let mut operation = ScriptedOperation::new(u32::MAX, RecoveryError::NetworkTimeout, 0);
    let config = no_jitter_config(4);
    let mut breaker = CircuitBreaker::new();

    let result = execute_with_retry(&mut operation, &config, &mut breaker, 1000);

    assert!(matches!(result, RetryResult::Failed(_)));
    // A wait separates consecutive attempts: 100ms, then 200ms, then
    // 400ms; no wait follows the last attempt.
    assert_eq!(operation.waited, vec![100, 200, 400]);
}

#[test]
fn test_retry_circuit_breaker_blocks() {
    // Open the circuit breaker
    let mut breaker = CircuitBreaker::new();
    for _ in 0..5 {
        breaker.record_failure(1000);
    }
    assert_eq!(breaker.state, CircuitState::Open);

    // Try to execute - should be blocked
    let mut operation = ScriptedOperation::new(1, RecoveryError::NetworkTimeout, 42);
    let config = RetryConfig::default();

    let result = execute_with_retry(&mut operation, &config, &mut breaker, 1000);

    match result {
        RetryResult::CircuitBreakerOpen => {
            assert_eq!(operation.calls, 0);
        }
        _ => panic!("Expected circuit breaker to block request"),
    }
}

#[test]
fn test_full_retry_flow_with_recovery() {
    let mut operation = ScriptedOperation::new(3, RecoveryError::TemporaryUnavailable, 1000);
    let config = RetryConfig::default();
    let mut breaker = CircuitBreaker::new();

    // Simulate operation that fails twice then succeeds
    let result = execute_with_retry(&mut operation, &config, &mut breaker, 1000);

    // Verify success
    match result {
        RetryResult::Success(amount) => {
            assert_eq!(amount, 1000);
            assert_eq!(operation.calls, 3);
        }
        _ => panic!("Expected successful recovery"),
    }

    // Verify circuit breaker is healthy
    assert_eq!(breaker.state, CircuitState::Closed);
    assert_eq!(breaker.failure_count, 0);
}
