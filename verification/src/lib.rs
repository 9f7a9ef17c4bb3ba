//! A time-gated jackpot lottery, modeled as a functional core: every public
//! operation takes the state by exclusive reference together with the
//! caller-supplied inputs (identity, timestamp, slot counter) and either
//! applies one atomic transition or fails with a typed error and no mutation.
//!
//! The host environment is expected to persist the state between calls,
//! serialize calls against the same instance, and supply the clock and the
//! slot counter; none of that is part of the core.

pub mod lottery;
pub mod selector;
pub mod lp_manager;
pub mod token;
