//! Error taxonomy: the failure reasons an operation can report, their
//! classification (transient / permanent / partial) and the recovery
//! strategy each class calls for.

use vstd::prelude::*;

verus! {

/// A failure reason reported by an attempted operation.
#[derive(Clone, Copy, Debug, PartialEq, Eq, Structural)]
pub enum RecoveryError {
    /// The network did not answer in time.
    NetworkTimeout,
    /// A collaborator was briefly unavailable.
    TemporaryUnavailable,
    /// A rate limit refused the request.
    RateLimitExceeded,
    /// A bounded resource was exhausted.
    ResourceExhausted,
    /// The paying account cannot cover the amount.
    InsufficientFunds,
    /// The recipient does not exist or cannot receive funds.
    InvalidRecipient,
    /// The caller is not allowed to perform the operation.
    Unauthorized,
    /// The amount is zero, negative, or otherwise malformed.
    InvalidAmount,
    /// Some items of a batch failed while others succeeded.
    PartialBatchFailure,
    /// Every item of a batch failed.
    AllBatchItemsFailed,
    /// A retry sequence used up all allowed attempts.
    MaxRetriesExceeded,
}

/// The class a failure reason falls in, deciding how it is handled.
#[derive(Clone, Copy, Debug, PartialEq, Eq, Structural)]
pub enum ErrorClass {
    /// Expected to clear without caller intervention; retrying helps.
    Transient,
    /// Retrying cannot change the outcome.
    Permanent,
    /// Batch-only: the result is already the terminal answer.
    Partial,
}

/// How a failed operation should be retried, if at all.
#[derive(Clone, Copy, Debug, PartialEq, Eq, Structural)]
pub enum RecoveryStrategy {
    /// The retry executor may retry on its own.
    AutoRetry,
    /// Only a deliberate caller decision may retry.
    ManualRetry,
}

/// The class of each failure reason, as a total deterministic mapping.
pub open spec fn classification(error: RecoveryError) -> ErrorClass {
    match error {
        RecoveryError::NetworkTimeout => ErrorClass::Transient,
        RecoveryError::TemporaryUnavailable => ErrorClass::Transient,
        RecoveryError::RateLimitExceeded => ErrorClass::Transient,
        RecoveryError::ResourceExhausted => ErrorClass::Transient,
        RecoveryError::InsufficientFunds => ErrorClass::Permanent,
        RecoveryError::InvalidRecipient => ErrorClass::Permanent,
        RecoveryError::Unauthorized => ErrorClass::Permanent,
        RecoveryError::InvalidAmount => ErrorClass::Permanent,
        RecoveryError::PartialBatchFailure => ErrorClass::Partial,
        RecoveryError::AllBatchItemsFailed => ErrorClass::Partial,
        RecoveryError::MaxRetriesExceeded => ErrorClass::Permanent,
    }
}

/// Classify a failure reason.  Deterministic, total, no side effects.
pub fn classify_error(error: RecoveryError) -> (class: ErrorClass)
    ensures
        class == classification(error),
{
    match error {
        RecoveryError::NetworkTimeout => ErrorClass::Transient,
        RecoveryError::TemporaryUnavailable => ErrorClass::Transient,
        RecoveryError::RateLimitExceeded => ErrorClass::Transient,
        RecoveryError::ResourceExhausted => ErrorClass::Transient,
        RecoveryError::InsufficientFunds => ErrorClass::Permanent,
        RecoveryError::InvalidRecipient => ErrorClass::Permanent,
        RecoveryError::Unauthorized => ErrorClass::Permanent,
        RecoveryError::InvalidAmount => ErrorClass::Permanent,
        RecoveryError::PartialBatchFailure => ErrorClass::Partial,
        RecoveryError::AllBatchItemsFailed => ErrorClass::Partial,
        RecoveryError::MaxRetriesExceeded => ErrorClass::Permanent,
    }
}

/// Recommend a recovery strategy: automatic retry exactly for the
/// transient class, a manual decision for everything else.
pub fn determine_recovery_strategy(error: RecoveryError) -> (strategy: RecoveryStrategy)
    ensures
        strategy == RecoveryStrategy::AutoRetry <==> classification(error) == ErrorClass::Transient,
{
    if matches!(classify_error(error), ErrorClass::Transient) {
        RecoveryStrategy::AutoRetry
    } else {
        RecoveryStrategy::ManualRetry
    }
}

/// Tracking record for an operation that has failed at least once.
/// Created on the first failure, its retry count advanced on each
/// subsequent failure, and discarded on success or permanent failure.
#[derive(Clone, Copy, Debug, PartialEq, Eq, Structural)]
pub struct ErrorState {
    /// The failed operation.
    pub operation_id: u64,
    /// The reason of the first failure.
    pub error_type: RecoveryError,
    /// Retries attempted since the first failure.
    pub retry_count: u32,
    /// When the first failure happened (seconds).
    pub first_error_timestamp: u64,
    /// Whether retrying can help, per the classification.
    pub can_recover: bool,
    /// The account that requested the operation.
    pub caller: u64,
}

/// Create the tracking record for an operation's first failure.
pub fn create_error_state(operation_id: u64, error: RecoveryError, caller: u64, now: u64) -> (state:
    ErrorState)
    ensures
        state.operation_id == operation_id,
        state.error_type == error,
        state.retry_count == 0,
        state.first_error_timestamp == now,
        state.can_recover == (classification(error) == ErrorClass::Transient),
        state.caller == caller,
{
    let can_recover = matches!(classify_error(error), ErrorClass::Transient);
    ErrorState {
        operation_id,
        error_type: error,
        retry_count: 0,
        first_error_timestamp: now,
        can_recover,
        caller,
    }
}

impl ErrorState {
    /// Note one more failed retry of the same operation.  The count
    /// saturates rather than wrap.
    pub fn increment_retry_count(&mut self)
        ensures
            final(self).retry_count == if old(self).retry_count < u32::MAX {
                old(self).retry_count + 1
            } else {
                u32::MAX as int
            },
            final(self).operation_id == old(self).operation_id,
            final(self).error_type == old(self).error_type,
            final(self).first_error_timestamp == old(self).first_error_timestamp,
            final(self).can_recover == old(self).can_recover,
            final(self).caller == old(self).caller,
    {
        self.retry_count = self.retry_count.saturating_add(1);
    }
}

} // verus!
