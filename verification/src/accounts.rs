//! The persisted record shapes: the global configuration singleton and the
//! per-participant ledger record.
//!
//! A principal identity is an opaque, already-authenticated caller reference;
//! the core trusts it completely and represents it as a plain integer key.

use vstd::prelude::*;

verus! {

/// An authenticated principal reference, opaque to the core.
pub type Identity = u64;

/// The class a participant registered as. Informational: no transition
/// branches on it.
#[derive(Clone, Copy, Debug, PartialEq, Eq, Structural)]
pub enum UserType {
    Fan,
    Artist,
}

/// The kind of activity a points award is attributed to. Informational
/// metadata carried for observability: the point value of an activity is
/// decided by the caller before invocation (in whole points; any fractional
/// weighting is the caller's concern), and no transition branches on it.
#[derive(Clone, Copy, Debug, PartialEq, Eq, Structural)]
pub enum ActivityType {
    Stream,
    Upload,
    Milestone100,
    Like,
    Share,
}

/// The global configuration singleton, created exactly once.
#[derive(Clone, Copy, Debug, PartialEq, Eq, Structural)]
pub struct GlobalState {
    /// The principal authorized to award points and change the rate;
    /// immutable after creation.
    pub admin: Identity,
    /// Points per whole unit of payout currency; always positive.
    pub conversion_rate: u64,
    /// All points ever accrued system-wide; never decreases.
    pub total_points_distributed: u64,
}

/// One participant's ledger record, created on first registration.
#[derive(Clone, Copy, Debug, PartialEq, Eq, Structural)]
pub struct UserAccount {
    /// The participant this record belongs to; immutable.
    pub owner: Identity,
    /// The class registered at creation; immutable.
    pub user_type: UserType,
    /// The current redeemable balance.
    pub points: u64,
    /// Lifetime points earned; never decreases.
    pub total_earned: u64,
    /// Lifetime points redeemed; never decreases.
    pub total_redeemed: u64,
}

/// A user record is well formed when its redeemable balance is exactly its
/// lifetime earnings minus its lifetime redemptions. Accrual raises `points`
/// and `total_earned` together, and a redemption drains `points` to zero
/// while raising `total_redeemed` by the same amount, so every transition
/// preserves this equation.
pub open spec fn user_wf(u: UserAccount) -> bool {
    u.points + u.total_redeemed == u.total_earned
}

/// The configuration as first created: the caller becomes admin and no
/// points have been distributed yet.
pub open spec fn new_global(admin: Identity, conversion_rate: u64) -> GlobalState {
    GlobalState { admin, conversion_rate, total_points_distributed: 0 }
}

/// A fresh user record: all counters start at zero.
pub open spec fn new_user(owner: Identity, user_type: UserType) -> UserAccount {
    UserAccount { owner, user_type, points: 0, total_earned: 0, total_redeemed: 0 }
}

/// The user record after an accrual of `points`.
pub open spec fn user_after_accrual(u: UserAccount, points: u64) -> UserAccount {
    UserAccount {
        points: (u.points + points) as u64,
        total_earned: (u.total_earned + points) as u64,
        ..u
    }
}

/// The global record after an accrual of `points`.
pub open spec fn global_after_accrual(g: GlobalState, points: u64) -> GlobalState {
    GlobalState { total_points_distributed: (g.total_points_distributed + points) as u64, ..g }
}

/// The user record after a full redemption: the balance drains to zero and
/// the lifetime redemption counter absorbs it.
pub open spec fn user_after_redeem(u: UserAccount) -> UserAccount {
    UserAccount { points: 0, total_redeemed: (u.total_redeemed + u.points) as u64, ..u }
}

/// The global record after the admin replaces the conversion rate.
pub open spec fn global_with_rate(g: GlobalState, new_rate: u64) -> GlobalState {
    GlobalState { conversion_rate: new_rate, ..g }
}

} // verus!
