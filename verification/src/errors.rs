//! The error taxonomy shared by every state transition.

use vstd::prelude::*;

verus! {

/// Why a transition was refused. Every failure is reported synchronously
/// through one of these variants, and a failed transition leaves all state
/// unchanged.
#[derive(Clone, Copy, Debug, PartialEq, Eq, Structural)]
pub enum ErrorCode {
    /// The caller lacks the privilege the transition demands.
    Unauthorized,
    /// The user's points balance is below the redemption threshold.
    InsufficientPoints,
    /// A points amount of zero (or otherwise out of range) was supplied.
    InvalidPoints,
    /// The vault holds less than the payout the redemption requires.
    InsufficientVaultBalance,
    /// A conversion rate of zero was supplied.
    InvalidConversionRate,
    /// A funding amount of zero was supplied.
    InvalidAmount,
    /// A checked addition or multiplication would exceed the representable range.
    Overflow,
    /// A referenced global configuration or user ledger does not exist.
    NotFound,
    /// The global configuration or a user ledger was created once already.
    AlreadyExists,
}

} // verus!
