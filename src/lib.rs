//! A ledger that replays deposits, withdrawals, disputes, resolutions and
//! chargebacks against per-client accounts held in fixed-point money.

pub mod error;
pub mod money;
pub mod account;
pub mod tx;
pub mod bank;
pub mod laws;
