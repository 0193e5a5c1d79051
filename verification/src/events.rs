//! Event tagging data: the logging level every published event
//! carries as its first topic, and the fee operation tag.  The host
//! publishes the events; these types fix the encoding indexers filter
//! on.

use vstd::prelude::*;

verus! {

/// Logging level attached as the first topic to every published
/// event, so that observability pipelines can filter on a single
/// topic comparison without deserialising the payload.
#[derive(Clone, Copy, Debug, PartialEq, Eq, PartialOrd, Ord, Structural)]
pub enum LogLevel {
    /// High-frequency detail useful during development or deep
    /// debugging.
    Debug,
    /// Normal operational events — the default for state transitions.
    Info,
    /// Something noteworthy that did not block execution.
    Warn,
    /// Severe condition, reserved.
    Error,
}

/// The stable numeric encoding of each logging level.
pub open spec fn log_level_code(level: LogLevel) -> u32 {
    match level {
        LogLevel::Debug => 0,
        LogLevel::Info => 1,
        LogLevel::Warn => 2,
        LogLevel::Error => 3,
    }
}

impl LogLevel {
    /// The level's stable numeric encoding, compact and unchanged
    /// across upgrades.
    pub fn code(&self) -> (code: u32)
        ensures
            code == log_level_code(*self),
    {
        match self {
            LogLevel::Debug => 0,
            LogLevel::Info => 1,
            LogLevel::Warn => 2,
            LogLevel::Error => 3,
        }
    }

    /// Whether this level passes a severity filter at `min`: a filter
    /// of "warnings and above" is one numeric comparison.
    pub fn at_least(&self, min: LogLevel) -> (passes: bool)
        ensures
            passes == (log_level_code(*self) >= log_level_code(min)),
    {
        self.code() >= min.code()
    }
}

/// Which operation a collected fee belongs to.
#[derive(Clone, Copy, Debug, PartialEq, Eq, Structural)]
pub enum FeeOperationType {
    /// Fee taken while locking funds.
    Lock,
    /// Fee taken while releasing funds.
    Release,
}

} // verus!
