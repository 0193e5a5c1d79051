//! Resilience engine for a payments/escrow platform.
//!
//! The library decides *whether and when* a fallible value-transfer
//! operation may be attempted and *how its outcome is recorded*.  It
//! combines an error taxonomy with a backoff-based retry executor, a
//! per-category circuit breaker that trips on sustained failure, and a
//! sliding-window threshold monitor that watches failure rate and
//! outflow volume and imposes escalating cooldowns.
//!
//! The library itself performs no I/O and never blocks: the host
//! supplies the current time (seconds) to every time-dependent call,
//! persists the state records between calls, and honours the delays
//! that the backoff calculator returns.

pub mod backoff;
pub mod batch;
pub mod circuit;
pub mod errors;
pub mod events;
pub mod monitor;
pub mod policy;
pub mod registration;
pub mod retry;
