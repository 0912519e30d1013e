//! A points-accrual and redemption ledger.
//!
//! Participants earn points for activities attributed to them by an
//! administrator, and may redeem an accumulated balance for a payout from a
//! custodial vault at an admin-configured conversion rate. The crate holds
//! the data model (global configuration, per-user ledgers, the vault), the
//! guarded state transitions over it, and the overflow-checked fixed-point
//! arithmetic that turns a points balance into a payout amount. Every
//! transition is atomic: on any error the state is left exactly as it was.

pub mod accounts;
pub mod convert;
pub mod errors;
pub mod ledger;
pub mod vault;
