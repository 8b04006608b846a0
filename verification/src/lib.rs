//! A verified coin-day proportional reward accrual engine.
//!
//! The library models an on-chain token economy's reward machinery: a
//! risk-reserve token (`relp::RELP`) whose holders accrue two independent
//! reward streams in proportion to how much, and for how long, they held
//! tokens.  Coin-days (token amount multiplied by holding time) are tracked
//! per account and in aggregate; reward emissions are sealed into an
//! append-only award ledger and folded into each account's claimable reward
//! lazily, with a hard bound on the work any single call may perform.

pub mod errors;
pub mod records;
pub mod accrual;
pub mod ledger;
pub mod elc;
pub mod engine;
pub mod relp;
pub mod laws;
pub mod govern;
