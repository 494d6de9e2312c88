//! A single-pass ledger that replays deposits, withdrawals, disputes,
//! resolutions and chargebacks against per-client accounts.
//!
//! Amounts are fixed-point integers counted in ten-thousandths of a unit.

pub mod account;
pub mod ledger;
pub mod lemmas;
