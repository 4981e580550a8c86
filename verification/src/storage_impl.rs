//! Storage registration bookkeeping: accounts pay a fixed deposit to join
//! and get it back when they leave with nothing locked.

use vstd::prelude::*;

use crate::utils::{ErrorCode, Payout, STORAGE_BALANCE_MIN_BOUND};
use crate::{Contract, ContractData};

verus! {

broadcast use vstd::std_specs::hash::group_hash_axioms;

/// A registered account's storage balance.
#[derive(Clone, Copy, Debug, PartialEq, Eq, Structural)]
pub struct StorageBalance {
    pub total: u128,
    pub available: u128,
}

/// The deposit bounds for registration.
#[derive(Clone, Copy, Debug, PartialEq, Eq, Structural)]
pub struct StorageBalanceBounds {
    pub min: u128,
    pub max: Option<u128>,
}

impl Contract {
    /// Register `account_id` (or top up, which is a no-op here): a fresh
    /// account needs at least the minimum deposit and gets the surplus back;
    /// an already registered account gets the whole deposit back. Returns
    /// whether a registration happened and the refund owed.
    pub fn storage_deposit(&mut self, account_id: u64, deposit: u128, now: u64) -> (r: Result<
        (bool, u128),
        ErrorCode,
    >)
        requires
            old(self).inv(),
        ensures
            final(self).inv(),
            !old(self).launched(now) ==> r == Err::<(bool, u128), ErrorCode>(ErrorCode::NotLaunched)
                && *final(self) == *old(self),
            old(self).launched(now) ==> ({
                let m = old(self).data.accounts@;
                if m.contains_key(account_id) {
                    r == Ok::<(bool, u128), ErrorCode>((false, deposit)) && *final(self) == *old(
                        self,
                    )
                } else if deposit < STORAGE_BALANCE_MIN_BOUND {
                    r == Err::<(bool, u128), ErrorCode>(ErrorCode::StorageDepositTooSmall)
                        && *final(self) == *old(self)
                } else if old(self).data.account_number == u64::MAX {
                    r == Err::<(bool, u128), ErrorCode>(ErrorCode::MathOverflow) && *final(self)
                        == *old(self)
                } else {
                    let a = final(self).data.accounts@[account_id].as_current();
                    &&& r == Ok::<(bool, u128), ErrorCode>(
                        (true, (deposit - STORAGE_BALANCE_MIN_BOUND) as u128),
                    )
                    &&& final(self).data == (ContractData {
                        accounts: final(self).data.accounts,
                        account_number: (old(self).data.account_number + 1) as u64,
                        ..old(self).data
                    })
                    &&& final(self).data.accounts@ == m.insert(
                        account_id,
                        final(self).data.accounts@[account_id],
                    )
                    &&& final(self).data.accounts@.contains_key(account_id)
                    &&& a.locking_amount == 0
                    &&& a.ballot_amount == 0
                    &&& a.unlocking_session_id == 0
                    &&& a.proposals@ == Map::<u32, crate::account::AccountVote>::empty()
                }
            }),
    {
        if now <= self.data.genesis_timestamp {
            return Err(ErrorCode::NotLaunched);
        }
        if self.data.accounts.contains_key(&account_id) {
            return Ok((false, deposit));
        }
        if deposit < STORAGE_BALANCE_MIN_BOUND {
            return Err(ErrorCode::StorageDepositTooSmall);
        }
        let new_number = match self.data.account_number.checked_add(1) {
            Some(n) => n,
            None => {
                return Err(ErrorCode::MathOverflow);
            },
        };
        self.internal_register_account(account_id);
        self.data.account_number = new_number;
        Ok((true, deposit - STORAGE_BALANCE_MIN_BOUND))
    }

    /// Unregister the caller, refunding the storage deposit, but only once
    /// all locked tokens have been withdrawn. Returns whether an account was
    /// removed and the refund payout.
    pub fn storage_unregister(&mut self, account_id: u64, now: u64) -> (r: Result<
        (bool, Option<Payout>),
        ErrorCode,
    >)
        requires
            old(self).inv(),
        ensures
            final(self).inv(),
            !old(self).launched(now) ==> r == Err::<(bool, Option<Payout>), ErrorCode>(
                ErrorCode::NotLaunched,
            ) && *final(self) == *old(self),
            old(self).launched(now) ==> ({
                let m = old(self).data.accounts@;
                if !m.contains_key(account_id) {
                    r == Ok::<(bool, Option<Payout>), ErrorCode>((false, None)) && *final(self)
                        == *old(self)
                } else if m[account_id].as_current().locking_amount != 0 {
                    r == Err::<(bool, Option<Payout>), ErrorCode>(ErrorCode::AccountStillLocked)
                        && *final(self) == *old(self)
                } else {
                    &&& r == Ok::<(bool, Option<Payout>), ErrorCode>(
                        (
                            true,
                            Some(Payout { to: account_id, amount: STORAGE_BALANCE_MIN_BOUND }),
                        ),
                    )
                    &&& final(self).data == (ContractData {
                        accounts: final(self).data.accounts,
                        account_number: if old(self).data.account_number > 0 {
                            (old(self).data.account_number - 1) as u64
                        } else {
                            0u64
                        },
                        ..old(self).data
                    })
                    &&& final(self).data.accounts@ == m.remove(account_id)
                }
            }),
    {
        if now <= self.data.genesis_timestamp {
            return Err(ErrorCode::NotLaunched);
        }
        let locking: u128 = match self.data.accounts.get(&account_id) {
            None => {
                return Ok((false, None));
            },
            Some(va) => match va {
                crate::account::VAccount::Current(acc) => acc.locking_amount,
            },
        };
        if locking != 0 {
            return Err(ErrorCode::AccountStillLocked);
        }
        self.data.accounts.remove(&account_id);
        if self.data.account_number > 0 {
            self.data.account_number = self.data.account_number - 1;
        }
        Ok((true, Some(Payout { to: account_id, amount: STORAGE_BALANCE_MIN_BOUND })))
    }

    /// Storage deposits are fixed at the minimum bound, so nothing can ever
    /// be withdrawn from them: this always refuses.
    pub fn storage_withdraw(&self, amount: Option<u128>) -> (r: Result<StorageBalance, ErrorCode>)
        ensures
            r == Err::<StorageBalance, ErrorCode>(ErrorCode::NoStorageCanWithdraw),
    {
        let _ = amount;
        Err(ErrorCode::NoStorageCanWithdraw)
    }

    /// The storage deposit bounds: a fixed minimum, no maximum.
    pub fn storage_balance_bounds(&self) -> (r: StorageBalanceBounds)
        ensures
            r == (StorageBalanceBounds { min: STORAGE_BALANCE_MIN_BOUND, max: None::<u128> }),
    {
        StorageBalanceBounds { min: STORAGE_BALANCE_MIN_BOUND, max: None }
    }

    /// The storage balance of a registered account, `None` for strangers.
    pub fn storage_balance_of(&self, account_id: u64) -> (r: Option<StorageBalance>)
        ensures
            r == (if self.data.accounts@.contains_key(account_id) {
                Some(StorageBalance { total: STORAGE_BALANCE_MIN_BOUND, available: 0u128 })
            } else {
                None::<StorageBalance>
            }),
    {
        if self.data.accounts.contains_key(&account_id) {
            Some(StorageBalance { total: STORAGE_BALANCE_MIN_BOUND, available: 0 })
        } else {
            None
        }
    }
}

} // verus!
