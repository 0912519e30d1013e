//! The custodial vault: a single balance of payout currency owned by the
//! system. Anyone may fund it; only the redemption transition may drain it.

use vstd::prelude::*;

use crate::errors::ErrorCode;

verus! {

/// The custodial pool that redemptions are paid from. The balance is held
/// privately so that [`Vault::deposit`] and [`Vault::withdraw`] are its only
/// mutators; it can never go below zero.
pub struct Vault {
    balance: u64,
}

impl Vault {
    /// The current balance, in smallest-denomination units.
    pub closed spec fn spec_balance(self) -> u64 {
        self.balance
    }

    /// Creates an empty vault.
    pub fn new() -> (v: Vault)
        ensures
            v.spec_balance() == 0,
    {
        Vault { balance: 0 }
    }

    /// The current balance, in smallest-denomination units.
    pub fn balance(&self) -> (b: u64)
        ensures
            b == self.spec_balance(),
    {
        self.balance
    }

    /// Increases the balance. Open to any principal; fails only on a zero
    /// amount or when the balance would exceed the representable range.
    pub fn deposit(&mut self, amount: u64) -> (res: Result<(), ErrorCode>)
        ensures
            amount == 0 ==> res == Err::<(), ErrorCode>(ErrorCode::InvalidAmount)
                && *final(self) == *old(self),
            amount > 0 && old(self).spec_balance() + amount > u64::MAX ==> res == Err::<
                (),
                ErrorCode,
            >(ErrorCode::Overflow) && *final(self) == *old(self),
            amount > 0 && old(self).spec_balance() + amount <= u64::MAX ==> res == Ok::<
                (),
                ErrorCode,
            >(()) && final(self).spec_balance() == old(self).spec_balance() + amount,
    {
        if amount == 0 {
            return Err(ErrorCode::InvalidAmount);
        }
        match self.balance.checked_add(amount) {
            Some(b) => {
                self.balance = b;
                Ok(())
            },
            None => Err(ErrorCode::Overflow),
        }
    }

    /// Decreases the balance, never below zero. Reserved for the redemption
    /// transition; it is not exposed outside the crate.
    pub(crate) fn withdraw(&mut self, amount: u64) -> (res: Result<(), ErrorCode>)
        ensures
            amount > old(self).spec_balance() ==> res == Err::<(), ErrorCode>(
                ErrorCode::InsufficientVaultBalance,
            ) && *final(self) == *old(self),
            amount <= old(self).spec_balance() ==> res == Ok::<(), ErrorCode>(())
                && final(self).spec_balance() == old(self).spec_balance() - amount,
    {
        if amount > self.balance {
            return Err(ErrorCode::InsufficientVaultBalance);
        }
        self.balance = self.balance - amount;
        Ok(())
    }
}

} // verus!
