//! Pooled-custody vault accounting: claim-token minting, sale fees and
//! pro-rata yield distribution, with every amount proved free of overflow.
//!
//! The engine assumes a single writer per vault: the host runtime serialises
//! operations on one vault, and each operation is applied as one indivisible
//! unit. Every operation either fails and leaves the vault record as it was,
//! or succeeds and returns the value movements that the ledger must carry out.
use vstd::prelude::*;

pub mod entropy;
pub mod distribution;
pub mod error;
pub mod fees;
pub mod shares;
pub mod vault;
