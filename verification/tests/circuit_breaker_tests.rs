use resilience_core::circuit::{CircuitBreaker, CircuitState};

#[test]
fn test_circuit_breaker_initial_state() {
    let breaker = CircuitBreaker::new();

    assert_eq!(breaker.state, CircuitState::Closed);
    assert_eq!(breaker.failure_count, 0);
    assert_eq!(breaker.failure_threshold, 5);
}

#[test]
fn test_circuit_breaker_opens_after_threshold() {
    let now: u64 = 1000;

    let mut breaker = CircuitBreaker::new();

    // Record failures up to threshold
    for i in 0..5 {
        breaker.record_failure(now);
        if i < 4 {
            assert_eq!(breaker.state, CircuitState::Closed);
        }
    }

    // Should be open after 5 failures
    assert_eq!(breaker.state, CircuitState::Open);
}

#[test]
fn test_circuit_breaker_success_resets_count() {
    let mut breaker = CircuitBreaker::new();

    // Record some failures
    breaker.record_failure(0);
    breaker.record_failure(0);
    assert_eq!(breaker.failure_count, 2);

    // Success should reset
    breaker.record_success();
    assert_eq!(breaker.failure_count, 0);
    assert_eq!(breaker.state, CircuitState::Closed);
}

#[test]
fn test_circuit_breaker_half_open_transition() {
    let mut breaker = CircuitBreaker::new();
    breaker.timeout_duration = 60; // 60 seconds

    // Open the circuit
    for _ in 0..5 {
        breaker.record_failure(1000);
    }
    assert_eq!(breaker.state, CircuitState::Open);

    // Before timeout, should still be open
    assert!(!breaker.is_request_allowed(1030));
    assert_eq!(breaker.state, CircuitState::Open);

    // After timeout, should transition to half-open
    assert!(breaker.is_request_allowed(1061));
    assert_eq!(breaker.state, CircuitState::HalfOpen);
}

#[test]
fn test_circuit_breaker_half_open_to_closed() {
    let mut breaker = CircuitBreaker::new();
    breaker.state = CircuitState::HalfOpen;
    breaker.failure_count = 2; // Need 2 successes to close
    breaker.success_threshold = 2;

    // First success
    breaker.record_success();
    assert_eq!(breaker.state, CircuitState::HalfOpen);
    assert_eq!(breaker.failure_count, 1);

    // Second success should close circuit
    breaker.record_success();
    assert_eq!(breaker.state, CircuitState::Closed);
    assert_eq!(breaker.failure_count, 0);
}

#[test]
fn test_circuit_breaker_half_open_to_open() {
    let mut breaker = CircuitBreaker::new();
    breaker.state = CircuitState::HalfOpen;

    // Any failure in half-open should reopen circuit
    breaker.record_failure(1000);
    assert_eq!(breaker.state, CircuitState::Open);
}

#[test]
fn test_circuit_breaker_reopened_circuit_rearms_timeout() {
    let mut breaker = CircuitBreaker::new();

    // Open at 1000, half-open at 1060, fail the probe at 1070.
    for _ in 0..5 {
        breaker.record_failure(1000);
    }
    assert!(breaker.is_request_allowed(1060));
    assert_eq!(breaker.state, CircuitState::HalfOpen);
    breaker.record_failure(1070);
    assert_eq!(breaker.state, CircuitState::Open);
    assert_eq!(breaker.opened_at, 1070);

    // The timeout now counts from the re-opening.
    assert!(!breaker.is_request_allowed(1120));
    assert!(breaker.is_request_allowed(1130));
    assert_eq!(breaker.state, CircuitState::HalfOpen);
}
