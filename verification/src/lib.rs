//! The accounting core of a custodial bank: a pooled supply account backing
//! all user balances, per-user ledgers with a capped append-only transaction
//! history, and one reusable interest-bearing loan slot per identity.
//!
//! The operation handlers in [`handlers`] are the only way money moves.
//! Each one validates its guards against the records it is given and either
//! commits every mutation it promises or fails, changing nothing.

pub mod errors;
pub mod handlers;
pub mod laws;
pub mod loan;
pub mod supply;
pub mod user;
