//! Threshold monitor: sliding-window metrics (failures, successes,
//! outflow volume) checked against configurable thresholds, with an
//! escalating cooldown after repeated breaches.  Time is supplied by
//! the host as seconds; the window resets wholesale when it expires.

use vstd::prelude::*;

verus! {

/// Configuration for threshold-based circuit breaking.
#[derive(Clone, Copy, Debug, PartialEq, Eq, Structural)]
pub struct ThresholdConfig {
    /// Maximum failures allowed per time window, 1 to 1000.
    pub failure_rate_threshold: u32,
    /// Maximum outflow amount per time window, positive.
    pub outflow_volume_threshold: i128,
    /// Maximum amount for a single payout transaction, positive.
    pub max_single_payout: i128,
    /// Time window duration in seconds, 10 to 86400.
    pub time_window_secs: u64,
    /// Minimum cooldown period before reopening, 60 to 3600 seconds.
    pub cooldown_period_secs: u64,
    /// Backoff multiplier for repeated breaches, at least 1.
    pub cooldown_multiplier: u32,
}

/// Why a threshold configuration was rejected.
#[derive(Clone, Copy, Debug, PartialEq, Eq, Structural)]
pub enum ThresholdConfigError {
    /// The failure threshold is zero or above 1000.
    FailureRateOutOfRange,
    /// The outflow volume threshold is not positive.
    OutflowThresholdNotPositive,
    /// The single payout limit is not positive.
    MaxSinglePayoutNotPositive,
    /// The time window is shorter than 10 or longer than 86400 seconds.
    TimeWindowOutOfRange,
    /// The cooldown period is shorter than 60 or longer than 3600 seconds.
    CooldownPeriodOutOfRange,
    /// The cooldown multiplier is zero.
    CooldownMultiplierZero,
}

impl ThresholdConfig {
    /// The ranges a configuration must satisfy before it may be
    /// stored.
    pub open spec fn wf(self) -> bool {
        &&& 1 <= self.failure_rate_threshold <= 1000
        &&& self.outflow_volume_threshold > 0
        &&& self.max_single_payout > 0
        &&& 10 <= self.time_window_secs <= 86400
        &&& 60 <= self.cooldown_period_secs <= 3600
        &&& self.cooldown_multiplier >= 1
    }

    /// The outcome of validating a configuration: the first range
    /// violation found, in the fixed checking order.
    pub open spec fn validation(self) -> Result<(), ThresholdConfigError> {
        if self.failure_rate_threshold == 0 || self.failure_rate_threshold > 1000 {
            Err(ThresholdConfigError::FailureRateOutOfRange)
        } else if self.outflow_volume_threshold <= 0 {
            Err(ThresholdConfigError::OutflowThresholdNotPositive)
        } else if self.max_single_payout <= 0 {
            Err(ThresholdConfigError::MaxSinglePayoutNotPositive)
        } else if self.time_window_secs < 10 || self.time_window_secs > 86400 {
            Err(ThresholdConfigError::TimeWindowOutOfRange)
        } else if self.cooldown_period_secs < 60 || self.cooldown_period_secs > 3600 {
            Err(ThresholdConfigError::CooldownPeriodOutOfRange)
        } else if self.cooldown_multiplier == 0 {
            Err(ThresholdConfigError::CooldownMultiplierZero)
        } else {
            Ok(())
        }
    }

    /// The default configuration, with conservative thresholds.
    pub open spec fn default_spec() -> ThresholdConfig {
        ThresholdConfig {
            failure_rate_threshold: 10,
            outflow_volume_threshold: 5_000_000_0000000,
            max_single_payout: 500_000_0000000,
            time_window_secs: 600,
            cooldown_period_secs: 300,
            cooldown_multiplier: 2,
        }
    }

    /// The default configuration, with conservative thresholds: a
    /// 10-minute window, 10 failures, 5 million tokens of outflow,
    /// 500 thousand per payout (7-decimal amounts), a 5-minute
    /// doubling cooldown.
    pub fn default() -> (config: ThresholdConfig)
        ensures
            config == Self::default_spec(),
            config.wf(),
            config.validation() is Ok,
    {
        ThresholdConfig {
            failure_rate_threshold: 10,
            outflow_volume_threshold: 5_000_000_0000000,
            max_single_payout: 500_000_0000000,
            time_window_secs: 600,
            cooldown_period_secs: 300,
            cooldown_multiplier: 2,
        }
    }

    /// Validate the configuration, reporting the first range violation
    /// in the fixed checking order.  Succeeds exactly on the
    /// well-formed configurations.
    pub fn validate(&self) -> (result: Result<(), ThresholdConfigError>)
        ensures
            result == self.validation(),
            result is Ok <==> self.wf(),
    {
        if self.failure_rate_threshold == 0 || self.failure_rate_threshold > 1000 {
            Err(ThresholdConfigError::FailureRateOutOfRange)
        } else if self.outflow_volume_threshold <= 0 {
            Err(ThresholdConfigError::OutflowThresholdNotPositive)
        } else if self.max_single_payout <= 0 {
            Err(ThresholdConfigError::MaxSinglePayoutNotPositive)
        } else if self.time_window_secs < 10 || self.time_window_secs > 86400 {
            Err(ThresholdConfigError::TimeWindowOutOfRange)
        } else if self.cooldown_period_secs < 60 || self.cooldown_period_secs > 3600 {
            Err(ThresholdConfigError::CooldownPeriodOutOfRange)
        } else if self.cooldown_multiplier == 0 {
            Err(ThresholdConfigError::CooldownMultiplierZero)
        } else {
            Ok(())
        }
    }
}

/// Metrics of one time window.
#[derive(Clone, Copy, Debug, PartialEq, Eq, Structural)]
pub struct WindowMetrics {
    /// When the window started (seconds).
    pub window_start: u64,
    /// Failures recorded in the window.
    pub failure_count: u32,
    /// Successes recorded in the window.
    pub success_count: u32,
    /// Total outflow recorded in the window.
    pub total_outflow: i128,
    /// Largest single outflow recorded in the window.
    pub max_single_outflow: i128,
    /// Threshold breaches counted in the window.
    pub breach_count: u32,
}

/// A zeroed window starting at `window_start`.
pub open spec fn zeroed_window(window_start: u64) -> WindowMetrics {
    WindowMetrics {
        window_start,
        failure_count: 0,
        success_count: 0,
        total_outflow: 0,
        max_single_outflow: 0,
        breach_count: 0,
    }
}

impl WindowMetrics {
    /// A fresh window with all counters zeroed.
    pub fn new(window_start: u64) -> (metrics: WindowMetrics)
        ensures
            metrics == zeroed_window(window_start),
    {
        WindowMetrics {
            window_start,
            failure_count: 0,
            success_count: 0,
            total_outflow: 0,
            max_single_outflow: 0,
            breach_count: 0,
        }
    }
}

/// The metric a threshold breach is about.
#[derive(Clone, Copy, Debug, PartialEq, Eq, Structural)]
pub enum BreachMetric {
    /// Too many failures in the window.
    FailureRate,
    /// Too much total outflow in the window.
    OutflowVolume,
    /// A single payout at or above the per-transaction limit.
    SinglePayout,
}

/// A threshold comparison that evaluated true.
#[derive(Clone, Copy, Debug, PartialEq, Eq, Structural)]
pub struct ThresholdBreach {
    /// The metric that breached.
    pub metric_type: BreachMetric,
    /// The configured threshold.
    pub threshold_value: i128,
    /// The value that breached it.
    pub actual_value: i128,
    /// When the breach was observed (seconds).
    pub timestamp: u64,
    /// Breaches counted in this window, this one included.
    pub breach_count: u32,
}

/// Storage keys under which the host persists the monitor's records.
#[derive(Clone, Copy, Debug, PartialEq, Eq, Structural)]
pub enum ThresholdKey {
    /// The stored [`ThresholdConfig`].
    Config,
    /// The live [`WindowMetrics`].
    CurrentMetrics,
    /// The archived previous [`WindowMetrics`].
    PreviousMetrics,
    /// When the current cooldown lockout ends (seconds).
    LastCooldownEnd,
    /// The current cooldown multiplier.
    CooldownMultiplier,
}

/// `x + 1` saturating at the type's maximum.
pub open spec fn sat_inc(x: u32) -> u32 {
    if x < u32::MAX {
        (x + 1) as u32
    } else {
        u32::MAX
    }
}

/// `x + y` saturating at the type's bounds.
pub open spec fn sat_add_i128(x: i128, y: i128) -> i128 {
    if x + y > i128::MAX {
        i128::MAX
    } else if x + y < i128::MIN {
        i128::MIN
    } else {
        (x + y) as i128
    }
}

/// The whole state of the threshold monitor: one live window, the
/// archived previous window, and the cooldown escalation state, all
/// persisted by the host between calls.
#[derive(Clone, Copy, Debug, PartialEq, Eq, Structural)]
pub struct ThresholdMonitor {
    /// The active configuration.
    pub config: ThresholdConfig,
    /// The live window.
    pub current: WindowMetrics,
    /// The most recently archived window, if any.
    pub previous: Option<WindowMetrics>,
    /// When the current cooldown lockout ends (seconds), 0 if none was
    /// ever applied.
    pub last_cooldown_end: u64,
    /// The current cooldown multiplier.
    pub cooldown_multiplier: u32,
}

/// Whether the live window has expired at time `now`.
pub open spec fn window_expired(m: ThresholdMonitor, now: u64) -> bool {
    m.current.window_start + m.config.time_window_secs <= now
}

/// The monitor after the rotation check every mutating or checking
/// call performs first: once the window expires, the live window is
/// archived as previous and a fresh zeroed window starts at `now`.
/// This is the only way counters reset implicitly.
pub open spec fn rotated(m: ThresholdMonitor, now: u64) -> ThresholdMonitor {
    if window_expired(m, now) {
        ThresholdMonitor { current: zeroed_window(now), previous: Some(m.current), ..m }
    } else {
        m
    }
}

/// The monitor after recording a success at time `now`.
pub open spec fn after_success(m: ThresholdMonitor, now: u64) -> ThresholdMonitor {
    let r = rotated(m, now);
    ThresholdMonitor {
        current: WindowMetrics { success_count: sat_inc(r.current.success_count), ..r.current },
        ..r
    }
}

/// The monitor after recording a failure at time `now`.
pub open spec fn after_failure(m: ThresholdMonitor, now: u64) -> ThresholdMonitor {
    let r = rotated(m, now);
    ThresholdMonitor {
        current: WindowMetrics { failure_count: sat_inc(r.current.failure_count), ..r.current },
        ..r
    }
}

/// The monitor after recording an outflow of `amount` at time `now`:
/// the total accumulates saturating, the largest single outflow is
/// kept up to date.
pub open spec fn after_outflow(m: ThresholdMonitor, amount: i128, now: u64) -> ThresholdMonitor {
    let r = rotated(m, now);
    ThresholdMonitor {
        current: WindowMetrics {
            total_outflow: sat_add_i128(r.current.total_outflow, amount),
            max_single_outflow: if amount > r.current.max_single_outflow {
                amount
            } else {
                r.current.max_single_outflow
            },
            ..r.current
        },
        ..r
    }
}

/// The outcome of the threshold check on a (rotated) monitor state at
/// time `now`: the first breach found, in the fixed priority order
/// failure rate, then outflow volume, then largest single outflow.
/// Every comparison breaches inclusively (actual at or above the
/// threshold).
pub open spec fn threshold_check(m: ThresholdMonitor, now: u64) -> Result<(), ThresholdBreach> {
    let c = m.config;
    let w = m.current;
    if w.failure_count >= c.failure_rate_threshold {
        Err(
            ThresholdBreach {
                metric_type: BreachMetric::FailureRate,
                threshold_value: c.failure_rate_threshold as i128,
                actual_value: w.failure_count as i128,
                timestamp: now,
                breach_count: sat_inc(w.breach_count),
            },
        )
    } else if w.total_outflow >= c.outflow_volume_threshold {
        Err(
            ThresholdBreach {
                metric_type: BreachMetric::OutflowVolume,
                threshold_value: c.outflow_volume_threshold,
                actual_value: w.total_outflow,
                timestamp: now,
                breach_count: sat_inc(w.breach_count),
            },
        )
    } else if w.max_single_outflow >= c.max_single_payout {
        Err(
            ThresholdBreach {
                metric_type: BreachMetric::SinglePayout,
                threshold_value: c.max_single_payout,
                actual_value: w.max_single_outflow,
                timestamp: now,
                breach_count: sat_inc(w.breach_count),
            },
        )
    } else {
        Ok(())
    }
}

/// The monitor after a threshold check at time `now`: the rotation
/// check runs first, and a found breach is counted in the window, so
/// that successive breach reports carry a monotonically incrementing
/// counter.
pub open spec fn after_check(m: ThresholdMonitor, now: u64) -> ThresholdMonitor {
    let r = rotated(m, now);
    if threshold_check(r, now) is Err {
        ThresholdMonitor {
            current: WindowMetrics { breach_count: sat_inc(r.current.breach_count), ..r.current },
            ..r
        }
    } else {
        r
    }
}

/// When a cooldown applied at time `now` would end: `now +
/// cooldown_period * multiplier`, saturating.
pub open spec fn cooldown_end(m: ThresholdMonitor, now: u64) -> u64 {
    let end = now + m.config.cooldown_period_secs * m.cooldown_multiplier;
    if end > u64::MAX {
        u64::MAX
    } else {
        end as u64
    }
}

/// The monitor after a manual metrics reset at time `now`: a fresh
/// zeroed window starts; the archived window, the configuration and
/// the cooldown state are untouched.
pub open spec fn after_reset(m: ThresholdMonitor, now: u64) -> ThresholdMonitor {
    ThresholdMonitor { current: zeroed_window(now), ..m }
}

impl ThresholdMonitor {
    /// Start threshold monitoring at time `now` with the default
    /// configuration, a fresh window, and no cooldown.
    pub fn init_threshold_monitor(now: u64) -> (monitor: ThresholdMonitor)
        ensures
            monitor.config == ThresholdConfig::default_spec(),
            monitor.current == zeroed_window(now),
            monitor.previous is None,
            monitor.last_cooldown_end == 0,
            monitor.cooldown_multiplier == 1,
    {
        ThresholdMonitor {
            config: ThresholdConfig::default(),
            current: WindowMetrics::new(now),
            previous: None,
            last_cooldown_end: 0,
            cooldown_multiplier: 1,
        }
    }

    /// Replace the configuration; a configuration out of range is
    /// rejected with the first violation found and nothing changes.
    /// (The caller must have verified admin authority.)
    pub fn set_threshold_config(&mut self, config: ThresholdConfig) -> (result: Result<
        (),
        ThresholdConfigError,
    >)
        ensures
            result == config.validation(),
            result is Ok <==> config.wf(),
            result is Ok ==> *final(self) == (ThresholdMonitor { config, ..*old(self) }),
            result is Err ==> *final(self) == *old(self),
    {
        match config.validate() {
            Ok(()) => {
                self.config = config;
                Ok(())
            },
            Err(e) => Err(e),
        }
    }

    /// The active configuration.
    pub fn get_threshold_config(&self) -> (config: ThresholdConfig)
        ensures
            config == self.config,
    {
        self.config
    }

    /// The live window's metrics.
    pub fn get_current_metrics(&self) -> (metrics: WindowMetrics)
        ensures
            metrics == self.current,
    {
        self.current
    }

    /// Rotate the window if it has expired at time `now`.
    fn rotate_window_if_needed(&mut self, now: u64)
        ensures
            *final(self) == rotated(*old(self), now),
    {
        if now >= self.current.window_start && now - self.current.window_start
            >= self.config.time_window_secs {
            self.previous = Some(self.current);
            self.current = WindowMetrics::new(now);
        }
    }

    /// Record a successful operation at time `now`.
    pub fn record_operation_success(&mut self, now: u64)
        ensures
            *final(self) == after_success(*old(self), now),
    {
        self.rotate_window_if_needed(now);
        self.current.success_count = self.current.success_count.saturating_add(1);
    }

    /// Record a failed operation at time `now`.
    pub fn record_operation_failure(&mut self, now: u64)
        ensures
            *final(self) == after_failure(*old(self), now),
    {
        self.rotate_window_if_needed(now);
        self.current.failure_count = self.current.failure_count.saturating_add(1);
    }

    /// Record an outflow of `amount` at time `now`.
    pub fn record_outflow(&mut self, amount: i128, now: u64)
        ensures
            *final(self) == after_outflow(*old(self), amount, now),
    {
        self.rotate_window_if_needed(now);
        self.current.total_outflow = match self.current.total_outflow.checked_add(amount) {
            Some(total) => total,
            None => if amount > 0 {
                i128::MAX
            } else {
                i128::MIN
            },
        };
        if amount > self.current.max_single_outflow {
            self.current.max_single_outflow = amount;
        }
    }

    /// Check the window against the thresholds at time `now`, rotating
    /// first: the first breach found is returned, in the priority
    /// order failure rate, outflow volume, largest single outflow,
    /// each comparison inclusive.  A found breach is counted in the
    /// window, so successive breach reports carry a monotonically
    /// incrementing counter.
    pub fn check_thresholds(&mut self, now: u64) -> (result: Result<(), ThresholdBreach>)
        ensures
            *final(self) == after_check(*old(self), now),
            result == threshold_check(rotated(*old(self), now), now),
    {
        self.rotate_window_if_needed(now);
        let result = if self.current.failure_count >= self.config.failure_rate_threshold {
            Err(
                ThresholdBreach {
                    metric_type: BreachMetric::FailureRate,
                    threshold_value: self.config.failure_rate_threshold as i128,
                    actual_value: self.current.failure_count as i128,
                    timestamp: now,
                    breach_count: self.current.breach_count.saturating_add(1),
                },
            )
        } else if self.current.total_outflow >= self.config.outflow_volume_threshold {
            Err(
                ThresholdBreach {
                    metric_type: BreachMetric::OutflowVolume,
                    threshold_value: self.config.outflow_volume_threshold,
                    actual_value: self.current.total_outflow,
                    timestamp: now,
                    breach_count: self.current.breach_count.saturating_add(1),
                },
            )
        } else if self.current.max_single_outflow >= self.config.max_single_payout {
            Err(
                ThresholdBreach {
                    metric_type: BreachMetric::SinglePayout,
                    threshold_value: self.config.max_single_payout,
                    actual_value: self.current.max_single_outflow,
                    timestamp: now,
                    breach_count: self.current.breach_count.saturating_add(1),
                },
            )
        } else {
            Ok(())
        };
        if result.is_err() {
            self.current.breach_count = self.current.breach_count.saturating_add(1);
        }
        result
    }

    /// Pre-flight check of one prospective payout amount against the
    /// per-transaction limit, independent of the rolling window: the
    /// amount breaches at or above the limit.
    pub fn check_single_payout_threshold(&self, amount: i128, now: u64) -> (result: Result<
        (),
        ThresholdBreach,
    >)
        ensures
            result is Ok <==> amount < self.config.max_single_payout,
            result matches Err(breach) ==> breach == (ThresholdBreach {
                metric_type: BreachMetric::SinglePayout,
                threshold_value: self.config.max_single_payout,
                actual_value: amount,
                timestamp: now,
                breach_count: sat_inc(self.current.breach_count),
            }),
    {
        if amount >= self.config.max_single_payout {
            Err(
                ThresholdBreach {
                    metric_type: BreachMetric::SinglePayout,
                    threshold_value: self.config.max_single_payout,
                    actual_value: amount,
                    timestamp: now,
                    breach_count: self.current.breach_count.saturating_add(1),
                },
            )
        } else {
            Ok(())
        }
    }

    /// Whether the cooldown lockout is still running at time `now`: a
    /// pure time comparison against the stored lockout end.
    pub fn is_cooldown_active(&self, now: u64) -> (active: bool)
        ensures
            active == (now < self.last_cooldown_end),
    {
        now < self.last_cooldown_end
    }

    /// The current cooldown multiplier.
    pub fn get_cooldown_multiplier(&self) -> (multiplier: u32)
        ensures
            multiplier == self.cooldown_multiplier,
    {
        self.cooldown_multiplier
    }

    /// Start a cooldown lockout at time `now`, ending after the
    /// configured period scaled by the current multiplier.
    pub fn apply_cooldown(&mut self, now: u64)
        ensures
            *final(self) == (ThresholdMonitor {
                last_cooldown_end: cooldown_end(*old(self), now),
                ..*old(self)
            }),
    {
        proof {
            assert((self.config.cooldown_period_secs as u128) * (self.cooldown_multiplier as u128)
                <= (u64::MAX as u128) * (u32::MAX as u128)) by (nonlinear_arith)
                requires
                    self.config.cooldown_period_secs <= u64::MAX,
                    self.cooldown_multiplier <= u32::MAX,
            ;
        }
        let duration: u128 = (self.config.cooldown_period_secs as u128) * (self.cooldown_multiplier
            as u128);
        let end: u128 = (now as u128) + duration;
        self.last_cooldown_end = if end > u64::MAX as u128 {
            u64::MAX
        } else {
            end as u64
        };
    }

    /// Escalate the cooldown multiplier after a repeated breach,
    /// multiplying it by the configured factor, saturating.
    pub fn increase_cooldown_multiplier(&mut self)
        ensures
            *final(self) == (ThresholdMonitor {
                cooldown_multiplier: if old(self).cooldown_multiplier
                    * old(self).config.cooldown_multiplier > u32::MAX {
                    u32::MAX
                } else {
                    (old(self).cooldown_multiplier * old(self).config.cooldown_multiplier) as u32
                },
                ..*old(self)
            }),
    {
        self.cooldown_multiplier = match self.cooldown_multiplier.checked_mul(
            self.config.cooldown_multiplier,
        ) {
            Some(multiplier) => multiplier,
            None => u32::MAX,
        };
    }

    /// Reset the cooldown multiplier to 1 after a stability period
    /// (an explicit caller decision).
    pub fn reset_cooldown_multiplier(&mut self)
        ensures
            *final(self) == (ThresholdMonitor { cooldown_multiplier: 1, ..*old(self) }),
    {
        self.cooldown_multiplier = 1;
    }

    /// Manually reset the metrics: a fresh zeroed window starts at
    /// time `now`; nothing else changes.  (The caller must have
    /// verified admin authority.)
    pub fn reset_metrics(&mut self, now: u64)
        ensures
            *final(self) == after_reset(*old(self), now),
    {
        self.current = WindowMetrics::new(now);
    }
}

/// Window rotation: any recording or checking call at or after
/// `window_start + time_window` starts a fresh zeroed window at `now`
/// and archives the prior one; before that moment nothing rotates.
pub proof fn lemma_window_rotation(m: ThresholdMonitor, now: u64)
    ensures
        window_expired(m, now) ==> rotated(m, now) == (ThresholdMonitor {
            current: zeroed_window(now),
            previous: Some(m.current),
            ..m
        }),
        !window_expired(m, now) ==> rotated(m, now) == m,
{
}

/// Resetting the metrics is idempotent: a second reset at the same
/// time yields the same zeroed state, and both resets leave every
/// other part of the monitor untouched.
pub proof fn lemma_reset_metrics_idempotent(m: ThresholdMonitor, now: u64)
    ensures
        after_reset(after_reset(m, now), now) == after_reset(m, now),
        after_reset(m, now).current == zeroed_window(now),
        after_reset(m, now).previous == m.previous,
        after_reset(m, now).config == m.config,
        after_reset(m, now).last_cooldown_end == m.last_cooldown_end,
        after_reset(m, now).cooldown_multiplier == m.cooldown_multiplier,
{
}

} // verus!
