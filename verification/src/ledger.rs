//! The transition engine: the six guarded, atomic state transitions over the
//! account store and the vault.
//!
//! Each transition evaluates its checks in a fixed order; the first failing
//! check aborts the transition with a typed error and no observable side
//! effect. The expected outcome of each transition is a spec function of the
//! pre-state and the arguments, so the contracts pin down both the result and
//! the exact successor state.

use std::collections::HashMap;
use vstd::prelude::*;

use crate::accounts::{
    global_after_accrual, global_with_rate, new_global, new_user, user_after_accrual,
    user_after_redeem, user_wf, ActivityType, GlobalState, Identity, UserAccount, UserType,
};
use crate::convert::{convert, convert_spec};
use crate::errors::ErrorCode;
use crate::vault::Vault;

verus! {

broadcast use vstd::std_specs::hash::group_hash_axioms;

/// The minimum points balance a redemption requires; a fixed policy constant.
pub const REDEMPTION_THRESHOLD: u64 = 1000;

/// The whole ledger system: the global configuration singleton, one ledger
/// record per registered participant, and the custodial vault. All fields are
/// private: the six transition methods are the only mutators, so every
/// reachable state is well formed.
pub struct RewardsLedger {
    global: Option<GlobalState>,
    users: HashMap<Identity, UserAccount>,
    vault: Vault,
}

impl RewardsLedger {
    /// The global configuration, if initialized.
    pub closed spec fn global_view(self) -> Option<GlobalState> {
        self.global
    }

    /// The account store as a map from owner identity to ledger record.
    pub closed spec fn users_view(self) -> Map<Identity, UserAccount> {
        self.users@
    }

    /// The vault balance, in smallest-denomination units.
    pub closed spec fn vault_balance_view(self) -> u64 {
        self.vault.spec_balance()
    }

    /// Every reachable state satisfies this: the conversion rate is positive
    /// once initialized, every stored record is keyed by its owner, and every
    /// record's balance equals its lifetime earnings minus its lifetime
    /// redemptions. The vault balance and all counters are unsigned, so none
    /// can ever be negative.
    pub open spec fn wf(self) -> bool {
        &&& (self.global_view() is Some ==> self.global_view().unwrap().conversion_rate > 0)
        &&& forall|id: Identity| #[trigger]
            self.users_view().contains_key(id) ==> self.users_view()[id].owner == id && user_wf(
                self.users_view()[id],
            )
    }

    /// Creates an empty system: no configuration, no users, an empty vault.
    pub fn new() -> (s: RewardsLedger)
        ensures
            s.wf(),
            s.global_view() is None,
            s.users_view() == Map::<Identity, UserAccount>::empty(),
            s.vault_balance_view() == 0,
    {
        RewardsLedger { global: None, users: HashMap::new(), vault: Vault::new() }
    }

    /// The outcome `initialize_global_state` owes for given arguments in a
    /// given pre-state: refused when the configuration exists already or the
    /// rate is zero, owed success otherwise.
    pub open spec fn initialize_outcome(self, conversion_rate: u64) -> Result<(), ErrorCode> {
        if self.global_view() is Some {
            Err(ErrorCode::AlreadyExists)
        } else if conversion_rate == 0 {
            Err(ErrorCode::InvalidConversionRate)
        } else {
            Ok(())
        }
    }

    /// One-time system bootstrap: the caller becomes the admin and the
    /// conversion rate is set. Fails with `AlreadyExists` on a second call
    /// and with `InvalidConversionRate` on a zero rate.
    pub fn initialize_global_state(&mut self, caller: Identity, conversion_rate: u64) -> (res:
        Result<(), ErrorCode>)
        requires
            old(self).wf(),
        ensures
            final(self).wf(),
            res == old(self).initialize_outcome(conversion_rate),
            res is Err ==> *final(self) == *old(self),
            res is Ok ==> final(self).global_view() == Some(new_global(caller, conversion_rate))
                && final(self).users_view() == old(self).users_view()
                && final(self).vault_balance_view() == old(self).vault_balance_view(),
    {
        if self.global.is_some() {
            return Err(ErrorCode::AlreadyExists);
        }
        if conversion_rate == 0 {
            return Err(ErrorCode::InvalidConversionRate);
        }
        self.global = Some(
            GlobalState { admin: caller, conversion_rate, total_points_distributed: 0 },
        );
        Ok(())
    }

    /// The outcome `create_user` owes: refused only when a record for the
    /// caller exists already.
    pub open spec fn create_user_outcome(self, caller: Identity) -> Result<(), ErrorCode> {
        if self.users_view().contains_key(caller) {
            Err(ErrorCode::AlreadyExists)
        } else {
            Ok(())
        }
    }

    /// Registers the caller with a fresh, zeroed ledger record. Fails with
    /// `AlreadyExists` on a second registration, leaving the first record
    /// unmodified.
    pub fn create_user(&mut self, caller: Identity, user_type: UserType) -> (res: Result<
        (),
        ErrorCode,
    >)
        requires
            old(self).wf(),
        ensures
            final(self).wf(),
            res == old(self).create_user_outcome(caller),
            res is Err ==> *final(self) == *old(self),
            res is Ok ==> final(self).users_view() == old(self).users_view().insert(
                caller,
                new_user(caller, user_type),
            ) && final(self).global_view() == old(self).global_view()
                && final(self).vault_balance_view() == old(self).vault_balance_view(),
    {
        if self.users.contains_key(&caller) {
            return Err(ErrorCode::AlreadyExists);
        }
        self.users.insert(
            caller,
            UserAccount { owner: caller, user_type, points: 0, total_earned: 0, total_redeemed: 0 },
        );
        Ok(())
    }

    /// Whether an accrual of `points` would push any of the three affected
    /// counters past the representable range.
    pub open spec fn accrual_overflows(self, target: Identity, points: u64) -> bool {
        let u = self.users_view()[target];
        let g = self.global_view().unwrap();
        u.points + points > u64::MAX || u.total_earned + points > u64::MAX
            || g.total_points_distributed + points > u64::MAX
    }

    /// The outcome `record_activity` owes, with the checks in order: the
    /// configuration must exist, the authorizer must be the admin, the award
    /// must be positive, the target must be registered, and no counter may
    /// overflow.
    pub open spec fn record_activity_outcome(
        self,
        authorizer: Identity,
        target: Identity,
        points: u64,
    ) -> Result<(), ErrorCode> {
        if self.global_view() is None {
            Err(ErrorCode::NotFound)
        } else if authorizer != self.global_view().unwrap().admin {
            Err(ErrorCode::Unauthorized)
        } else if points == 0 {
            Err(ErrorCode::InvalidPoints)
        } else if !self.users_view().contains_key(target) {
            Err(ErrorCode::NotFound)
        } else if self.accrual_overflows(target, points) {
            Err(ErrorCode::Overflow)
        } else {
            Ok(())
        }
    }

    /// Awards `points` to the target's ledger on the admin's authority: the
    /// redeemable balance, the lifetime earnings, and the system-wide
    /// distribution counter all grow by exactly `points`, with checked
    /// arithmetic. The activity type is informational metadata only.
    pub fn record_activity(
        &mut self,
        authorizer: Identity,
        target: Identity,
        points: u64,
        activity_type: ActivityType,
    ) -> (res: Result<(), ErrorCode>)
        requires
            old(self).wf(),
        ensures
            final(self).wf(),
            res == old(self).record_activity_outcome(authorizer, target, points),
            res is Err ==> *final(self) == *old(self),
            res is Ok ==> final(self).users_view() == old(self).users_view().insert(
                target,
                user_after_accrual(old(self).users_view()[target], points),
            ) && final(self).global_view() == Some(
                global_after_accrual(old(self).global_view().unwrap(), points),
            ) && final(self).vault_balance_view() == old(self).vault_balance_view(),
    {
        let g = match self.global {
            None => { return Err(ErrorCode::NotFound) },
            Some(g) => g,
        };
        if authorizer != g.admin {
            return Err(ErrorCode::Unauthorized);
        }
        if points == 0 {
            return Err(ErrorCode::InvalidPoints);
        }
        let u = match self.users.get(&target) {
            None => { return Err(ErrorCode::NotFound) },
            Some(u) => *u,
        };
        let new_points = match u.points.checked_add(points) {
            None => { return Err(ErrorCode::Overflow) },
            Some(v) => v,
        };
        let new_earned = match u.total_earned.checked_add(points) {
            None => { return Err(ErrorCode::Overflow) },
            Some(v) => v,
        };
        let new_distributed = match g.total_points_distributed.checked_add(points) {
            None => { return Err(ErrorCode::Overflow) },
            Some(v) => v,
        };
        self.users.insert(
            target,
            UserAccount { points: new_points, total_earned: new_earned, ..u },
        );
        self.global = Some(GlobalState { total_points_distributed: new_distributed, ..g });
        Ok(())
    }

    /// The outcome `redeem_points` owes, with the checks in order: the caller
    /// must be registered, the configuration must exist, the balance must
    /// reach the threshold, the payout must be representable, and the vault
    /// must cover it. On success the owed result is the exact payout.
    pub open spec fn redeem_outcome(self, caller: Identity) -> Result<u64, ErrorCode> {
        if !self.users_view().contains_key(caller) {
            Err(ErrorCode::NotFound)
        } else if self.global_view() is None {
            Err(ErrorCode::NotFound)
        } else {
            let payout = convert_spec(
                self.users_view()[caller].points,
                self.global_view().unwrap().conversion_rate,
            );
            if self.users_view()[caller].points < REDEMPTION_THRESHOLD {
                Err(ErrorCode::InsufficientPoints)
            } else if payout > u64::MAX {
                Err(ErrorCode::Overflow)
            } else if payout > self.vault_balance_view() {
                Err(ErrorCode::InsufficientVaultBalance)
            } else {
                Ok(payout as u64)
            }
        }
    }

    /// Drains the caller's whole points balance into a payout from the vault.
    /// On success the returned amount was withdrawn from the vault and is
    /// owed to the caller by the surrounding value-transfer layer, the
    /// balance is zero, and the lifetime redemption counter grew by exactly
    /// the pre-call balance. On any error nothing changed.
    pub fn redeem_points(&mut self, caller: Identity) -> (res: Result<u64, ErrorCode>)
        requires
            old(self).wf(),
        ensures
            final(self).wf(),
            res == old(self).redeem_outcome(caller),
            res is Err ==> *final(self) == *old(self),
            res is Ok ==> final(self).users_view() == old(self).users_view().insert(
                caller,
                user_after_redeem(old(self).users_view()[caller]),
            ) && final(self).global_view() == old(self).global_view()
                && final(self).vault_balance_view() == old(self).vault_balance_view()
                    - res.unwrap(),
    {
        let u = match self.users.get(&caller) {
            None => { return Err(ErrorCode::NotFound) },
            Some(u) => *u,
        };
        let g = match self.global {
            None => { return Err(ErrorCode::NotFound) },
            Some(g) => g,
        };
        if u.points < REDEMPTION_THRESHOLD {
            return Err(ErrorCode::InsufficientPoints);
        }
        let payout = match convert(u.points, g.conversion_rate) {
            Err(e) => { return Err(e) },
            Ok(v) => v,
        };
        match self.vault.withdraw(payout) {
            Err(e) => { return Err(e) },
            Ok(()) => {},
        }
        let new_redeemed = u.total_redeemed + u.points;
        self.users.insert(
            caller,
            UserAccount { points: 0, total_redeemed: new_redeemed, ..u },
        );
        Ok(payout)
    }

    /// The outcome `update_conversion_rate` owes: the configuration must
    /// exist, the caller must be the admin, and the new rate must be
    /// positive.
    pub open spec fn update_rate_outcome(self, caller: Identity, new_rate: u64) -> Result<
        (),
        ErrorCode,
    > {
        if self.global_view() is None {
            Err(ErrorCode::NotFound)
        } else if caller != self.global_view().unwrap().admin {
            Err(ErrorCode::Unauthorized)
        } else if new_rate == 0 {
            Err(ErrorCode::InvalidConversionRate)
        } else {
            Ok(())
        }
    }

    /// Replaces the conversion rate, admin only. Takes effect for all
    /// subsequent redemptions; on any error the rate is unchanged.
    pub fn update_conversion_rate(&mut self, caller: Identity, new_rate: u64) -> (res: Result<
        (),
        ErrorCode,
    >)
        requires
            old(self).wf(),
        ensures
            final(self).wf(),
            res == old(self).update_rate_outcome(caller, new_rate),
            res is Err ==> *final(self) == *old(self),
            res is Ok ==> final(self).global_view() == Some(
                global_with_rate(old(self).global_view().unwrap(), new_rate),
            ) && final(self).users_view() == old(self).users_view()
                && final(self).vault_balance_view() == old(self).vault_balance_view(),
    {
        let g = match self.global {
            None => { return Err(ErrorCode::NotFound) },
            Some(g) => g,
        };
        if caller != g.admin {
            return Err(ErrorCode::Unauthorized);
        }
        if new_rate == 0 {
            return Err(ErrorCode::InvalidConversionRate);
        }
        self.global = Some(GlobalState { conversion_rate: new_rate, ..g });
        Ok(())
    }

    /// The outcome `fund_vault` owes: the amount must be positive and the
    /// vault balance must stay representable.
    pub open spec fn fund_vault_outcome(self, amount: u64) -> Result<(), ErrorCode> {
        if amount == 0 {
            Err(ErrorCode::InvalidAmount)
        } else if self.vault_balance_view() + amount > u64::MAX {
            Err(ErrorCode::Overflow)
        } else {
            Ok(())
        }
    }

    /// Deposits `amount` into the vault. Open to any caller; the matching
    /// debit of the caller's external balance is owed by the surrounding
    /// value-transfer layer as part of the same atomic unit.
    pub fn fund_vault(&mut self, _caller: Identity, amount: u64) -> (res: Result<(), ErrorCode>)
        requires
            old(self).wf(),
        ensures
            final(self).wf(),
            res == old(self).fund_vault_outcome(amount),
            res is Err ==> *final(self) == *old(self),
            res is Ok ==> final(self).vault_balance_view() == old(self).vault_balance_view()
                + amount && final(self).users_view() == old(self).users_view()
                && final(self).global_view() == old(self).global_view(),
    {
        self.vault.deposit(amount)
    }

    /// Reads a participant's ledger record; absence is a normal outcome.
    pub fn lookup_user(&self, identity: Identity) -> (res: Option<UserAccount>)
        ensures
            res == if self.users_view().contains_key(identity) {
                Some(self.users_view()[identity])
            } else {
                None::<UserAccount>
            },
    {
        match self.users.get(&identity) {
            Some(u) => Some(*u),
            None => None,
        }
    }

    /// Reads the global configuration; absence is a normal outcome.
    pub fn lookup_global(&self) -> (res: Option<GlobalState>)
        ensures
            res == self.global_view(),
    {
        self.global
    }

    /// Reads the vault balance.
    pub fn vault_balance(&self) -> (b: u64)
        ensures
            b == self.vault_balance_view(),
    {
        self.vault.balance()
    }
}

/// Law: in every well-formed state, and every state that a sequence of
/// transitions can reach is well formed, a registered user's redeemable
/// balance is exactly lifetime earnings minus lifetime redemptions, and never
/// exceeds lifetime earnings.
pub proof fn lemma_points_balance_equation(s: RewardsLedger, id: Identity)
    requires
        s.wf(),
        s.users_view().contains_key(id),
    ensures
        s.users_view()[id].points == s.users_view()[id].total_earned - s.users_view()[
            id
        ].total_redeemed,
        s.users_view()[id].points <= s.users_view()[id].total_earned,
{
}

} // verus!
