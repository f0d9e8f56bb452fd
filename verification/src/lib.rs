//! A custodial pooled-fund ledger: one shared vault that depositors pay
//! into and later withdraw from, with a per-depositor sub-ledger.
//!
//! The crate is organised as the pipeline that turns an opaque request
//! into a change of the durable records:
//! - [`instruction`] parses the raw instruction bytes,
//! - [`state`] holds the two record kinds and their fixed-width codec,
//! - [`derivation`] computes the deterministic record addresses and the
//!   vault's signing authority,
//! - [`processor`] validates a request against the supplied records and
//!   produces the updated records plus the transfer to perform.

pub mod derivation;
pub mod error;
pub mod instruction;
pub mod processor;
pub mod state;
