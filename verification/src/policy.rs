//! Retry policies: how many attempts an operation gets and how the
//! delays between them grow.  Three canonical presets are provided;
//! the aggressive one retries more often with shorter delays, the
//! conservative one gives up sooner but waits longer.

use vstd::prelude::*;

verus! {

/// Parameters of one retry sequence.  Immutable once read for the
/// sequence.
#[derive(Clone, Copy, Debug, PartialEq, Eq, Structural)]
pub struct RetryConfig {
    /// Most invocations the operation gets, at least 1.
    pub max_attempts: u32,
    /// Delay after the first failed attempt, in milliseconds, positive.
    pub initial_delay_ms: u64,
    /// Upper bound every computed delay is clamped to, at least the
    /// initial delay.
    pub max_delay_ms: u64,
    /// Factor the base delay grows by per attempt, at least 1.
    pub backoff_multiplier: u32,
    /// Symmetric jitter around the base delay, in percent, at most 100.
    pub jitter_percent: u32,
}

impl RetryConfig {
    /// The constraints a policy must satisfy before it may drive a
    /// retry sequence.
    pub open spec fn wf(self) -> bool {
        &&& self.max_attempts >= 1
        &&& self.initial_delay_ms >= 1
        &&& self.max_delay_ms >= self.initial_delay_ms
        &&& self.backoff_multiplier >= 1
        &&& self.jitter_percent <= 100
    }

    /// Check a policy against the constraints of [`RetryConfig::wf`].
    pub fn is_valid(&self) -> (valid: bool)
        ensures
            valid == self.wf(),
    {
        self.max_attempts >= 1 && self.initial_delay_ms >= 1
            && self.max_delay_ms >= self.initial_delay_ms && self.backoff_multiplier >= 1
            && self.jitter_percent <= 100
    }

    /// The balanced preset.
    pub open spec fn default_spec() -> RetryConfig {
        RetryConfig {
            max_attempts: 3,
            initial_delay_ms: 100,
            max_delay_ms: 5000,
            backoff_multiplier: 2,
            jitter_percent: 20,
        }
    }

    /// The preset for quick recovery: more attempts, shorter delays,
    /// a lower delay cap.
    pub open spec fn aggressive_spec() -> RetryConfig {
        RetryConfig {
            max_attempts: 5,
            initial_delay_ms: 50,
            max_delay_ms: 3000,
            backoff_multiplier: 2,
            jitter_percent: 15,
        }
    }

    /// The preset for rate-limit-aware callers: few attempts, longer
    /// and faster-growing delays.
    pub open spec fn conservative_spec() -> RetryConfig {
        RetryConfig {
            max_attempts: 2,
            initial_delay_ms: 200,
            max_delay_ms: 10000,
            backoff_multiplier: 3,
            jitter_percent: 25,
        }
    }

    /// The balanced preset.
    pub fn default() -> (config: RetryConfig)
        ensures
            config == Self::default_spec(),
            config.wf(),
    {
        RetryConfig {
            max_attempts: 3,
            initial_delay_ms: 100,
            max_delay_ms: 5000,
            backoff_multiplier: 2,
            jitter_percent: 20,
        }
    }

    /// The quick-recovery preset.
    pub fn aggressive() -> (config: RetryConfig)
        ensures
            config == Self::aggressive_spec(),
            config.wf(),
    {
        RetryConfig {
            max_attempts: 5,
            initial_delay_ms: 50,
            max_delay_ms: 3000,
            backoff_multiplier: 2,
            jitter_percent: 15,
        }
    }

    /// The rate-limit-aware preset.
    pub fn conservative() -> (config: RetryConfig)
        ensures
            config == Self::conservative_spec(),
            config.wf(),
    {
        RetryConfig {
            max_attempts: 2,
            initial_delay_ms: 200,
            max_delay_ms: 10000,
            backoff_multiplier: 3,
            jitter_percent: 25,
        }
    }
}

/// The presets are ordered: the aggressive policy tries more often
/// than the default one, which tries more often than the conservative
/// one, while its delays start lower and are capped lower; the
/// conservative policy backs off faster and jitters more.
pub proof fn lemma_policy_ordering()
    ensures
        RetryConfig::aggressive_spec().max_attempts > RetryConfig::default_spec().max_attempts,
        RetryConfig::default_spec().max_attempts > RetryConfig::conservative_spec().max_attempts,
        RetryConfig::aggressive_spec().initial_delay_ms < RetryConfig::default_spec().initial_delay_ms,
        RetryConfig::default_spec().initial_delay_ms < RetryConfig::conservative_spec().initial_delay_ms,
        RetryConfig::aggressive_spec().max_delay_ms < RetryConfig::default_spec().max_delay_ms,
        RetryConfig::default_spec().max_delay_ms < RetryConfig::conservative_spec().max_delay_ms,
        RetryConfig::aggressive_spec().backoff_multiplier == RetryConfig::default_spec().backoff_multiplier,
        RetryConfig::default_spec().backoff_multiplier < RetryConfig::conservative_spec().backoff_multiplier,
        RetryConfig::aggressive_spec().jitter_percent < RetryConfig::default_spec().jitter_percent,
        RetryConfig::default_spec().jitter_percent < RetryConfig::conservative_spec().jitter_percent,
        RetryConfig::default_spec().wf(),
        RetryConfig::aggressive_spec().wf(),
        RetryConfig::conservative_spec().wf(),
{
}

} // verus!
