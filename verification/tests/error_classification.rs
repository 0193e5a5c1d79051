use resilience_core::errors::{
    classify_error, create_error_state, determine_recovery_strategy, ErrorClass, RecoveryError,
    RecoveryStrategy,
};

#[test]
fn test_transient_error_classification() {
    assert_eq!(
        classify_error(RecoveryError::NetworkTimeout),
        ErrorClass::Transient
    );
    assert_eq!(
        classify_error(RecoveryError::TemporaryUnavailable),
        ErrorClass::Transient
    );
    assert_eq!(
        classify_error(RecoveryError::RateLimitExceeded),
        ErrorClass::Transient
    );
    assert_eq!(
        classify_error(RecoveryError::ResourceExhausted),
        ErrorClass::Transient
    );
}

#[test]
fn test_permanent_error_classification() {
    assert_eq!(
        classify_error(RecoveryError::InsufficientFunds),
        ErrorClass::Permanent
    );
    assert_eq!(
        classify_error(RecoveryError::InvalidRecipient),
        ErrorClass::Permanent
    );
    assert_eq!(
        classify_error(RecoveryError::Unauthorized),
        ErrorClass::Permanent
    );
    assert_eq!(
        classify_error(RecoveryError::InvalidAmount),
        ErrorClass::Permanent
    );
}

#[test]
fn test_partial_error_classification() {
    assert_eq!(
        classify_error(RecoveryError::PartialBatchFailure),
        ErrorClass::Partial
    );
    assert_eq!(
        classify_error(RecoveryError::AllBatchItemsFailed),
        ErrorClass::Partial
    );
}

#[test]
fn test_recovery_strategy_determination() {
    assert_eq!(
        determine_recovery_strategy(RecoveryError::NetworkTimeout),
        RecoveryStrategy::AutoRetry
    );

    assert_eq!(
        determine_recovery_strategy(RecoveryError::InsufficientFunds),
        RecoveryStrategy::ManualRetry
    );

    assert_eq!(
        determine_recovery_strategy(RecoveryError::PartialBatchFailure),
        RecoveryStrategy::ManualRetry
    );
}

#[test]
fn test_create_error_state() {
    let caller: u64 = 17;
    let operation_id: u64 = 42;

    let state = create_error_state(operation_id, RecoveryError::NetworkTimeout, caller, 1000);

    assert_eq!(state.operation_id, operation_id);
    assert_eq!(state.error_type, RecoveryError::NetworkTimeout);
    assert_eq!(state.retry_count, 0);
    assert_eq!(state.first_error_timestamp, 1000);
    assert_eq!(state.can_recover, true); // Transient error
    assert_eq!(state.caller, caller);
}

#[test]
fn test_error_state_retry_count_advances() {
    let mut state = create_error_state(7, RecoveryError::RateLimitExceeded, 3, 500);
    state.increment_retry_count();
    state.increment_retry_count();
    assert_eq!(state.retry_count, 2);
    assert_eq!(state.first_error_timestamp, 500);
}

#[test]
fn test_permanent_error_state_cannot_recover() {
    let state = create_error_state(8, RecoveryError::Unauthorized, 4, 600);
    assert_eq!(state.can_recover, false);

    let partial = create_error_state(9, RecoveryError::PartialBatchFailure, 4, 600);
    assert_eq!(partial.can_recover, false);
}

#[test]
fn test_max_retries_exceeded_is_not_retryable() {
    assert_eq!(
        classify_error(RecoveryError::MaxRetriesExceeded),
        ErrorClass::Permanent
    );
    assert_eq!(
        determine_recovery_strategy(RecoveryError::MaxRetriesExceeded),
        RecoveryStrategy::ManualRetry
    );
}
