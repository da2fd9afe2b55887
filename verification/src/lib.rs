//! A per-client payments ledger.
//!
//! Events (deposits, withdrawals and the dispute lifecycle) are applied one at
//! a time to per-client accounts.  Each account keeps its balances split into
//! an `available` and a `held` pool, a history of every transaction it has
//! seen, and a permanent lock that a chargeback sets.  All monetary arithmetic
//! is exact fixed-point arithmetic on [`money::Money`].

pub mod account;
pub mod engine;
pub mod events;
pub mod laws;
pub mod money;
