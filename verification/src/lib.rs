//! Deterministic pseudo-random numbers for replay-sensitive contract code.
//!
//! A generator is seeded from the execution context of a contract call: the
//! contract's identity, the ledger clock and sequence number, a persisted call
//! nonce and an optional caller-supplied salt. Every initialization consumes
//! one nonce, so two initializations never see the same context twice.

pub mod context;
pub mod dice;
pub mod error;
pub mod generator;
pub mod seed;
