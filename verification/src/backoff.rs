//! Backoff calculator: the delay before the next retry attempt, an
//! exponentially growing base clamped to the policy's cap, with
//! optional symmetric jitter derived deterministically from the
//! current time and the attempt index.

use vstd::arithmetic::div_mod::{
    lemma_div_is_ordered,
    lemma_fundamental_div_mod_converse,
    lemma_mod_bound,
};
use vstd::arithmetic::mul::lemma_mul_left_inequality;
use vstd::arithmetic::power::{lemma_pow_increases, pow};
use vstd::prelude::*;

use crate::policy::RetryConfig;

verus! {

/// The delay before retry attempt `attempt`, without jitter:
/// `initial_delay * backoff_multiplier ^ attempt`, clamped to
/// `max_delay`.
pub open spec fn base_delay(config: RetryConfig, attempt: nat) -> int {
    let unbounded = config.initial_delay_ms * pow(config.backoff_multiplier as int, attempt);
    if unbounded > config.max_delay_ms {
        config.max_delay_ms as int
    } else {
        unbounded
    }
}

/// The pseudo-random jitter seed for one attempt: a fixed bit mix of
/// the current time and the attempt index, so that the same inputs at
/// the same instant reproduce the same delay.
pub open spec fn jitter_seed(now: u64, attempt: u32) -> u64 {
    let s0 = now ^ ((attempt as u64) << 1) ^ 0x9E3779B97F4A7C15;
    let s1 = s0 ^ (s0 << 13);
    let s2 = s1 ^ (s1 >> 7);
    s2 ^ (s2 << 17)
}

/// Half the width of the jitter interval around the base delay.
pub open spec fn jitter_span(config: RetryConfig, attempt: nat) -> int {
    base_delay(config, attempt) * config.jitter_percent / 100
}

/// The delay before retry attempt `attempt`: the base delay offset by
/// a seed-chosen amount within `[base - span, base + span]`, clamped
/// to `max_delay`.  With `jitter_percent == 0` the span is zero and
/// the delay is exactly the base delay.
pub open spec fn delay_value(config: RetryConfig, attempt: nat, now: u64) -> int {
    let base = base_delay(config, attempt);
    let span = jitter_span(config, attempt);
    let d = base - span + jitter_seed(now, attempt as u32) as int % (2 * span + 1);
    if d > config.max_delay_ms {
        config.max_delay_ms as int
    } else {
        d
    }
}

/// The jitter span is at most the base (at most one below it while
/// the jitter percentage is below 100), so the lower jitter edge never
/// goes negative.
proof fn lemma_span_bounds(base: int, jp: int)
    requires
        base >= 1,
        0 <= jp <= 100,
    ensures
        0 <= base * jp / 100 <= base,
        jp < 100 ==> base * jp / 100 <= base - 1,
{
    assert(base * jp >= 0) by (nonlinear_arith)
        requires
            base >= 0,
            jp >= 0,
    ;
    assert(base * jp <= base * 100) by (nonlinear_arith)
        requires
            base >= 0,
            jp <= 100,
    ;
    lemma_fundamental_div_mod_converse(base * 100, 100, base, 0);
    lemma_div_is_ordered(0, base * jp, 100);
    lemma_div_is_ordered(base * jp, base * 100, 100);
    if jp < 100 {
        assert(base * jp <= base * 99) by (nonlinear_arith)
            requires
                base >= 0,
                jp <= 99,
        ;
        assert(base * 99 == base * 100 - base) by (nonlinear_arith);
        lemma_fundamental_div_mod_converse(base * 100 - 1, 100, base - 1, 99);
        lemma_div_is_ordered(base * jp, base * 100 - 1, 100);
    }
}

/// The base delay is at least the initial delay and at most the cap.
proof fn lemma_base_delay_range(config: RetryConfig, attempt: nat)
    requires
        config.wf(),
    ensures
        config.initial_delay_ms <= base_delay(config, attempt) <= config.max_delay_ms,
{
    assert(pow(config.backoff_multiplier as int, 0) == 1) by {
        reveal(pow);
    }
    lemma_pow_increases(config.backoff_multiplier as nat, 0, attempt);
    assert(config.initial_delay_ms * pow(config.backoff_multiplier as int, attempt)
        >= config.initial_delay_ms * 1) by {
        lemma_mul_left_inequality(
            config.initial_delay_ms as int,
            1,
            pow(config.backoff_multiplier as int, attempt),
        );
    }
}

/// Mix the current time and the attempt index into a jitter seed.
fn mix_seed(now: u64, attempt: u32) -> (seed: u64)
    ensures
        seed == jitter_seed(now, attempt),
{
    let s0: u64 = now ^ ((attempt as u64) << 1) ^ 0x9E3779B97F4A7C15;
    let s1: u64 = s0 ^ (s0 << 13);
    let s2: u64 = s1 ^ (s1 >> 7);
    s2 ^ (s2 << 17)
}

/// Compute the clamped exponential base delay for one attempt.
fn compute_base_delay(config: &RetryConfig, attempt: u32) -> (base: u64)
    requires
        config.wf(),
    ensures
        base == base_delay(*config, attempt as nat),
        config.initial_delay_ms <= base <= config.max_delay_ms,
{
    let mult: u64 = config.backoff_multiplier as u64;
    let max: u64 = config.max_delay_ms;
    let mut d: u64 = config.initial_delay_ms;
    let mut i: u32 = 0;
    proof {
        assert(pow(mult as int, 0) == 1) by {
            reveal(pow);
        }
    }
    while i < attempt && d < max
        invariant
            config.wf(),
            mult == config.backoff_multiplier,
            max == config.max_delay_ms,
            i <= attempt,
            config.initial_delay_ms <= d <= max,
            d == base_delay(*config, i as nat),
        decreases attempt - i,
    {
        proof {
            // Below the cap, the clamped value is the raw product.
            assert(d == config.initial_delay_ms * pow(mult as int, i as nat));
            assert(pow(mult as int, (i + 1) as nat) == mult * pow(mult as int, i as nat)) by {
                reveal(pow);
            }
            assert(config.initial_delay_ms * pow(mult as int, (i + 1) as nat) == d * mult)
                by (nonlinear_arith)
                requires
                    d == config.initial_delay_ms * pow(mult as int, i as nat),
                    pow(mult as int, (i + 1) as nat) == mult * pow(mult as int, i as nat),
            ;
            // The base delay never shrinks: the multiplier is at least 1.
            assert(d * mult >= d) by (nonlinear_arith)
                requires
                    mult >= 1,
                    d >= 0,
            ;
        }
        match d.checked_mul(mult) {
            Some(product) => {
                d = if product > max {
                    max
                } else {
                    product
                };
            },
            None => {
                d = max;
            },
        }
        i = i + 1;
    }
    proof {
        if i < attempt {
            // Stopped early at the cap: the raw product only grows from
            // here, so the clamped value stays at the cap.
            lemma_pow_increases(mult as nat, i as nat, attempt as nat);
            lemma_mul_left_inequality(
                config.initial_delay_ms as int,
                pow(mult as int, i as nat),
                pow(mult as int, attempt as nat),
            );
        }
    }
    d
}

/// Compute the delay, in milliseconds, before retry attempt `attempt`
/// (counted from 0), under `config`, at time `now` (seconds).
///
/// The base delay is `initial_delay * backoff_multiplier ^ attempt`,
/// saturating at and clamped to `max_delay`.  With a positive
/// `jitter_percent` the result moves within the symmetric jitter
/// interval around the base, chosen by a seed derived from `now` and
/// `attempt` alone, so identical inputs give identical delays.  The
/// result never exceeds `max_delay`, and with `jitter_percent < 100`
/// it is always positive.
pub fn calculate_backoff_delay(config: &RetryConfig, attempt: u32, now: u64) -> (delay: u64)
    requires
        config.wf(),
    ensures
        delay == delay_value(*config, attempt as nat, now),
        delay <= config.max_delay_ms,
        config.jitter_percent == 0 ==> delay == base_delay(*config, attempt as nat),
        config.jitter_percent < 100 ==> delay >= 1,
{
    let base = compute_base_delay(config, attempt);
    let seed = mix_seed(now, attempt);
    let base_wide: u128 = base as u128;
    proof {
        assert(base_wide * (config.jitter_percent as u128) <= base_wide * 100) by (nonlinear_arith)
            requires
                config.jitter_percent <= 100,
                base_wide >= 0,
        ;
        lemma_span_bounds(base_wide as int, config.jitter_percent as int);
    }
    let span: u128 = base_wide * (config.jitter_percent as u128) / 100;
    proof {
        if config.jitter_percent == 0 {
            assert(base_wide * 0 == 0) by (nonlinear_arith);
            lemma_mod_bound(seed as int, 1);
        }
    }
    let offset: u128 = (seed as u128) % (2 * span + 1);
    let jittered: u128 = base_wide - span + offset;
    let delay: u64 = if jittered > config.max_delay_ms as u128 {
        config.max_delay_ms
    } else {
        jittered as u64
    };
    delay
}

/// Without jitter the delay sequence is monotonically non-decreasing
/// in the attempt index: a later attempt never waits less than an
/// earlier one, and no attempt ever waits longer than the cap.
pub proof fn lemma_base_delay_monotonic(config: RetryConfig, k1: nat, k2: nat)
    requires
        config.wf(),
        k1 <= k2,
    ensures
        base_delay(config, k1) <= base_delay(config, k2),
        base_delay(config, k2) <= config.max_delay_ms,
{
    lemma_pow_increases(config.backoff_multiplier as nat, k1, k2);
    lemma_mul_left_inequality(
        config.initial_delay_ms as int,
        pow(config.backoff_multiplier as int, k1),
        pow(config.backoff_multiplier as int, k2),
    );
}

/// Without jitter, a later attempt never waits less than an earlier
/// one: the delay sequence is monotonically non-decreasing in the
/// attempt index.
pub proof fn lemma_delay_monotonic_without_jitter(config: RetryConfig, k1: nat, k2: nat, now: u64)
    requires
        config.wf(),
        config.jitter_percent == 0,
        k1 <= k2,
    ensures
        delay_value(config, k1, now) <= delay_value(config, k2, now),
{
    lemma_delay_bounded(config, k1, now);
    lemma_delay_bounded(config, k2, now);
    lemma_base_delay_monotonic(config, k1, k2);
}

/// Every delay, jittered or not, stays within `[0, max_delay]`, and
/// with zero jitter it is exactly the clamped exponential base.
pub proof fn lemma_delay_bounded(config: RetryConfig, attempt: nat, now: u64)
    requires
        config.wf(),
    ensures
        0 <= delay_value(config, attempt, now) <= config.max_delay_ms,
        config.jitter_percent == 0 ==> delay_value(config, attempt, now) == base_delay(
            config,
            attempt,
        ),
{
    lemma_base_delay_range(config, attempt);
    let base = base_delay(config, attempt);
    lemma_span_bounds(base, config.jitter_percent as int);
    let span = jitter_span(config, attempt);
    lemma_mod_bound(jitter_seed(now, attempt as u32) as int, 2 * span + 1);
    if config.jitter_percent == 0 {
        assert(base * 0 == 0) by (nonlinear_arith);
        lemma_mod_bound(jitter_seed(now, attempt as u32) as int, 1);
    }
}

} // verus!
