//! Batch result aggregator: records per-item outcomes of a multi-item
//! operation, keeps the failures in recording order, and classifies
//! the overall outcome as full success, partial success, or complete
//! failure.

use vstd::prelude::*;

use crate::errors::{classification, classify_error, ErrorClass, RecoveryError};

verus! {

/// What is remembered about one failed batch item.
#[derive(Clone, Copy, Debug, PartialEq, Eq, Structural)]
pub struct BatchErrorDetail {
    /// Position of the item in the batch.
    pub index: u32,
    /// The account the item would have paid.
    pub recipient: u64,
    /// The amount the item would have moved.
    pub amount: i128,
    /// Why the item failed.
    pub error: RecoveryError,
    /// Whether retrying the item can help: exactly the transient class.
    pub can_retry: bool,
}

/// Outcome bookkeeping of one batch operation.  Created with a fixed
/// `total_items`; the caller records each item index exactly once.
#[derive(Clone, Debug, PartialEq, Eq)]
pub struct BatchResult {
    /// Number of items the batch was created with.
    pub total_items: u32,
    /// Items recorded as succeeded.
    pub successful: u32,
    /// Items recorded as failed.
    pub failed: u32,
    /// Indices of the failures, in recording order.
    pub failed_indices: Vec<u32>,
    /// Details of the failures, in the same order.
    pub error_details: Vec<BatchErrorDetail>,
}

impl BatchResult {
    /// The bookkeeping invariant: counts and detail lists agree, no
    /// more outcomes than items, and every detail row matches its
    /// index row with the retry flag derived from the classification.
    pub open spec fn wf(self) -> bool {
        &&& self.failed == self.failed_indices@.len()
        &&& self.failed == self.error_details@.len()
        &&& self.successful + self.failed <= self.total_items
        &&& forall|i: int|
            0 <= i < self.error_details@.len() ==> (#[trigger] self.error_details@[i]).index
                == self.failed_indices@[i] && self.error_details@[i].can_retry == (classification(
                self.error_details@[i].error,
            ) == ErrorClass::Transient)
    }

    /// Start bookkeeping for a batch of `total_items` items.
    pub fn new(total_items: u32) -> (result: BatchResult)
        ensures
            result.total_items == total_items,
            result.successful == 0,
            result.failed == 0,
            result.failed_indices@ == Seq::<u32>::empty(),
            result.error_details@ == Seq::<BatchErrorDetail>::empty(),
            result.wf(),
    {
        BatchResult {
            total_items,
            successful: 0,
            failed: 0,
            failed_indices: Vec::new(),
            error_details: Vec::new(),
        }
    }

    /// Record one item as succeeded.
    pub fn record_success(&mut self)
        requires
            old(self).successful + old(self).failed < old(self).total_items,
        ensures
            *final(self) == (BatchResult {
                successful: (old(self).successful + 1) as u32,
                ..*old(self)
            }),
            old(self).wf() ==> final(self).wf(),
    {
        self.successful = self.successful + 1;
    }

    /// Record one item as failed, appending its index and detail in
    /// recording order; `can_retry` is derived from the error's
    /// classification.
    pub fn record_failure(&mut self, index: u32, recipient: u64, amount: i128, error: RecoveryError)
        requires
            old(self).successful + old(self).failed < old(self).total_items,
        ensures
            final(self).total_items == old(self).total_items,
            final(self).successful == old(self).successful,
            final(self).failed == old(self).failed + 1,
            final(self).failed_indices@ == old(self).failed_indices@.push(index),
            final(self).error_details@ == old(self).error_details@.push(
                BatchErrorDetail {
                    index,
                    recipient,
                    amount,
                    error,
                    can_retry: classification(error) == ErrorClass::Transient,
                },
            ),
            old(self).wf() ==> final(self).wf(),
    {
        let can_retry = matches!(classify_error(error), ErrorClass::Transient);
        self.failed = self.failed + 1;
        self.failed_indices.push(index);
        self.error_details.push(
            BatchErrorDetail { index, recipient, amount, error, can_retry },
        );
    }

    /// Whether every recorded outcome succeeded.
    pub fn is_full_success(&self) -> (full: bool)
        ensures
            full == (self.failed == 0),
    {
        self.failed == 0
    }

    /// Whether the batch had both successes and failures.
    pub fn is_partial_success(&self) -> (partial: bool)
        ensures
            partial == (self.successful > 0 && self.failed > 0),
    {
        self.successful > 0 && self.failed > 0
    }

    /// Whether every item of the batch failed.
    pub fn is_complete_failure(&self) -> (complete: bool)
        ensures
            complete == (self.successful == 0 && self.failed == self.total_items),
    {
        self.successful == 0 && self.failed == self.total_items
    }
}

/// The outcome the host reports for one batch item.
#[derive(Clone, Copy, Debug, PartialEq, Eq, Structural)]
pub enum BatchItemOutcome {
    /// The item's transfer went through.
    Succeeded,
    /// The item failed; the recipient and amount are recorded with the
    /// reason.
    Failed { recipient: u64, amount: i128, error: RecoveryError },
}

/// A multi-item operation handed to the batch executor; the host
/// implements one attempt per item index.
pub trait BatchOperation {
    /// Attempt item number `index` (counted from 0).
    fn attempt_item(&mut self, index: u32) -> BatchItemOutcome;
}

/// Attempt every item of a batch of `total_items` items and record
/// each outcome: a partial failure never aborts the batch.  The result
/// accounts for every item, and its failed indices are exactly the
/// failing ones, strictly increasing and within the batch.
pub fn execute_batch_with_partial_success<Op: BatchOperation>(
    operation: &mut Op,
    total_items: u32,
) -> (result: BatchResult)
    ensures
        result.total_items == total_items,
        result.wf(),
        result.successful + result.failed == total_items,
        forall|k: int|
            0 <= k < result.failed_indices@.len() ==> #[trigger] result.failed_indices@[k]
                < total_items,
        forall|j: int, k: int|
            0 <= j < k < result.failed_indices@.len() ==> result.failed_indices@[j]
                < result.failed_indices@[k],
{
    let mut result = BatchResult::new(total_items);
    let mut index: u32 = 0;
    while index < total_items
        invariant
            result.total_items == total_items,
            result.wf(),
            index <= total_items,
            result.successful + result.failed == index,
            forall|k: int|
                0 <= k < result.failed_indices@.len() ==> #[trigger] result.failed_indices@[k]
                    < index,
            forall|j: int, k: int|
                0 <= j < k < result.failed_indices@.len() ==> result.failed_indices@[j]
                    < result.failed_indices@[k],
        decreases total_items - index,
    {
        match operation.attempt_item(index) {
            BatchItemOutcome::Succeeded => {
                result.record_success();
            },
            BatchItemOutcome::Failed { recipient, amount, error } => {
                result.record_failure(index, recipient, amount, error);
            },
        }
        index = index + 1;
    }
    result
}

} // verus!
