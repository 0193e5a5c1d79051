//! Circuit breaker: a per-operation-category state machine that
//! blocks attempts when failures cluster, lets a probe through after a
//! timeout, and closes again after enough probe successes.

use vstd::prelude::*;

verus! {

/// The three states of a circuit breaker.
#[derive(Clone, Copy, Debug, PartialEq, Eq, Structural)]
pub enum CircuitState {
    /// Requests flow; failures are counted.
    Closed,
    /// Requests are blocked until the timeout elapses.
    Open,
    /// Probe requests are let through to test recovery.
    HalfOpen,
}

/// Per-category circuit breaker record.
///
/// While the circuit is half-open, `failure_count` holds the countdown
/// of probe successes still needed to close it: entering half-open
/// arms it with `success_threshold`, every probe success decrements
/// it, and at zero the circuit closes.
#[derive(Clone, Copy, Debug, PartialEq, Eq, Structural)]
pub struct CircuitBreaker {
    /// Current state of the state machine.
    pub state: CircuitState,
    /// Closed: consecutive failures seen.  Half-open: successes still
    /// needed to close.
    pub failure_count: u32,
    /// Consecutive failures that trip the circuit.
    pub failure_threshold: u32,
    /// Probe successes needed to close a half-open circuit.
    pub success_threshold: u32,
    /// Seconds the circuit stays open before probing is allowed.
    pub timeout_duration: u64,
    /// When the circuit last opened (seconds).
    pub opened_at: u64,
}

/// The breaker after one recorded failure at time `now`: a closed
/// circuit counts it and trips at the threshold; an open circuit
/// ignores it; a half-open circuit re-opens immediately and re-arms
/// its timeout.
pub open spec fn failure_step(b: CircuitBreaker, now: u64) -> CircuitBreaker {
    match b.state {
        CircuitState::Closed => {
            let count: u32 = if b.failure_count < u32::MAX {
                (b.failure_count + 1) as u32
            } else {
                u32::MAX
            };
            if count >= b.failure_threshold {
                CircuitBreaker {
                    state: CircuitState::Open,
                    failure_count: count,
                    opened_at: now,
                    ..b
                }
            } else {
                CircuitBreaker { failure_count: count, ..b }
            }
        },
        CircuitState::Open => b,
        CircuitState::HalfOpen => CircuitBreaker {
            state: CircuitState::Open,
            opened_at: now,
            ..b
        },
    }
}

/// The breaker after one recorded success: a closed circuit resets
/// its failure count; an open circuit is unchanged; a half-open
/// circuit advances its probe countdown and closes when it reaches
/// zero.
pub open spec fn success_step(b: CircuitBreaker) -> CircuitBreaker {
    match b.state {
        CircuitState::Closed => CircuitBreaker { failure_count: 0, ..b },
        CircuitState::Open => b,
        CircuitState::HalfOpen => {
            let count: u32 = if b.failure_count > 0 {
                (b.failure_count - 1) as u32
            } else {
                0
            };
            if count == 0 {
                CircuitBreaker { state: CircuitState::Closed, failure_count: 0, ..b }
            } else {
                CircuitBreaker { failure_count: count, ..b }
            }
        },
    }
}

/// Whether the open circuit's timeout has elapsed at time `now`.
pub open spec fn timeout_elapsed(b: CircuitBreaker, now: u64) -> bool {
    b.opened_at + b.timeout_duration <= now
}

/// Whether a request is allowed at time `now`: always while closed or
/// half-open, and while open exactly when the timeout has elapsed
/// (which lets the probing request through).
pub open spec fn request_allowed(b: CircuitBreaker, now: u64) -> bool {
    match b.state {
        CircuitState::Closed => true,
        CircuitState::Open => timeout_elapsed(b, now),
        CircuitState::HalfOpen => true,
    }
}

/// The breaker after an allowed-check at time `now`: an open circuit
/// whose timeout has elapsed turns half-open and arms the probe
/// countdown with `success_threshold`; everything else is unchanged.
pub open spec fn allowed_check_step(b: CircuitBreaker, now: u64) -> CircuitBreaker {
    if b.state is Open && timeout_elapsed(b, now) {
        CircuitBreaker {
            state: CircuitState::HalfOpen,
            failure_count: b.success_threshold,
            ..b
        }
    } else {
        b
    }
}

impl CircuitBreaker {
    /// A fresh closed breaker: five consecutive failures trip it, two
    /// probe successes close it again, probing starts a minute after
    /// it opens.
    pub fn new() -> (breaker: CircuitBreaker)
        ensures
            breaker.state is Closed,
            breaker.failure_count == 0,
            breaker.failure_threshold == 5,
            breaker.success_threshold == 2,
            breaker.timeout_duration == 60,
            breaker.opened_at == 0,
    {
        CircuitBreaker {
            state: CircuitState::Closed,
            failure_count: 0,
            failure_threshold: 5,
            success_threshold: 2,
            timeout_duration: 60,
            opened_at: 0,
        }
    }

    /// Record one failed operation at time `now`.
    pub fn record_failure(&mut self, now: u64)
        ensures
            *final(self) == failure_step(*old(self), now),
    {
        match self.state {
            CircuitState::Closed => {
                self.failure_count = self.failure_count.saturating_add(1);
                if self.failure_count >= self.failure_threshold {
                    self.state = CircuitState::Open;
                    self.opened_at = now;
                }
            },
            CircuitState::Open => {},
            CircuitState::HalfOpen => {
                self.state = CircuitState::Open;
                self.opened_at = now;
            },
        }
    }

    /// Record one successful operation.
    pub fn record_success(&mut self)
        ensures
            *final(self) == success_step(*old(self)),
    {
        match self.state {
            CircuitState::Closed => {
                self.failure_count = 0;
            },
            CircuitState::Open => {},
            CircuitState::HalfOpen => {
                if self.failure_count > 0 {
                    self.failure_count = self.failure_count - 1;
                }
                if self.failure_count == 0 {
                    self.state = CircuitState::Closed;
                }
            },
        }
    }

    /// Ask whether a request may proceed at time `now`.  On an open
    /// circuit whose timeout has elapsed this transitions to half-open
    /// and allows exactly the probing request through.
    pub fn is_request_allowed(&mut self, now: u64) -> (allowed: bool)
        ensures
            allowed == request_allowed(*old(self), now),
            *final(self) == allowed_check_step(*old(self), now),
    {
        match self.state {
            CircuitState::Closed => true,
            CircuitState::Open => {
                if now >= self.opened_at && now - self.opened_at >= self.timeout_duration {
                    self.state = CircuitState::HalfOpen;
                    self.failure_count = self.success_threshold;
                    true
                } else {
                    false
                }
            },
            CircuitState::HalfOpen => true,
        }
    }
}

/// The breaker after `n` consecutive failures recorded at time `now`.
pub open spec fn failures_from(b: CircuitBreaker, now: u64, n: nat) -> CircuitBreaker
    decreases n,
{
    if n == 0 {
        b
    } else {
        failure_step(failures_from(b, now, (n - 1) as nat), now)
    }
}

/// A fresh breaker stays closed through its first four recorded
/// failures and opens on the fifth, consecutive one.
pub proof fn lemma_five_consecutive_failures_open(b: CircuitBreaker, now: u64)
    requires
        b.state is Closed,
        b.failure_count == 0,
        b.failure_threshold == 5,
    ensures
        forall|k: nat| k < 5 ==> #[trigger] failures_from(b, now, k).state is Closed,
        failures_from(b, now, 5).state is Open,
        failures_from(b, now, 5).opened_at == now,
{
    let b1 = failures_from(b, now, 1);
    let b2 = failures_from(b, now, 2);
    let b3 = failures_from(b, now, 3);
    let b4 = failures_from(b, now, 4);
    assert(failures_from(b, now, 0) == b);
    assert(b1 == failure_step(b, now));
    assert(b2 == failure_step(b1, now));
    assert(b3 == failure_step(b2, now));
    assert(b4 == failure_step(b3, now));
    assert(failures_from(b, now, 5) == failure_step(b4, now));
    assert(forall|k: nat| k < 5 ==> #[trigger] failures_from(b, now, k).state is Closed) by {
        assert(failures_from(b, now, 0).state is Closed);
        assert(failures_from(b, now, 1).state is Closed);
        assert(failures_from(b, now, 2).state is Closed);
        assert(failures_from(b, now, 3).state is Closed);
        assert(failures_from(b, now, 4).state is Closed);
    }
}

/// Any success while the circuit is closed resets the failure count
/// to zero and keeps the circuit closed.
pub proof fn lemma_closed_success_resets(b: CircuitBreaker)
    requires
        b.state is Closed,
    ensures
        success_step(b).state is Closed,
        success_step(b).failure_count == 0,
{
}

/// While the circuit is open, requests are blocked until the timeout
/// elapses; the first allowed-check at or after `opened_at +
/// timeout_duration` lets the probe through and turns the circuit
/// half-open.
pub proof fn lemma_open_timeout_half_opens(b: CircuitBreaker, now: u64)
    requires
        b.state is Open,
    ensures
        !timeout_elapsed(b, now) ==> !request_allowed(b, now) && allowed_check_step(b, now) == b,
        timeout_elapsed(b, now) ==> request_allowed(b, now) && allowed_check_step(b, now).state
            is HalfOpen,
{
}

/// A single failure while half-open re-opens the circuit immediately
/// and re-arms its timeout from `now`.
pub proof fn lemma_half_open_failure_reopens(b: CircuitBreaker, now: u64)
    requires
        b.state is HalfOpen,
    ensures
        failure_step(b, now).state is Open,
        failure_step(b, now).opened_at == now,
{
}

} // verus!
