//! Owner administration: ownership, launch time, and policy configuration.

use vstd::prelude::*;

use crate::proposals::VotePolicy;
use crate::utils::{sec_to_nano, ErrorCode, Rational};
use crate::{Contract, ContractData};

verus! {

impl Contract {
    /// Change the owner. Only the owner can do this.
    pub fn set_owner(&mut self, caller: u64, owner_id: u64) -> (r: Result<(), ErrorCode>)
        requires
            old(self).inv(),
        ensures
            final(self).inv(),
            caller != old(self).data.owner_id ==> r == Err::<(), ErrorCode>(ErrorCode::NotOwner)
                && *final(self) == *old(self),
            caller == old(self).data.owner_id ==> r == Ok::<(), ErrorCode>(()) && final(self).data
                == (ContractData { owner_id, ..old(self).data }),
    {
        if caller != self.data.owner_id {
            return Err(ErrorCode::NotOwner);
        }
        self.data.owner_id = owner_id;
        Ok(())
    }

    /// Get the owner of this contract.
    pub fn get_owner(&self) -> (r: u64)
        ensures
            r == self.data.owner_id,
    {
        self.data.owner_id
    }

    /// Move the launch time, allowed only before the current launch time has
    /// passed, and only into the future.
    pub fn modify_genesis_timestamp(&mut self, caller: u64, genesis_timestamp_in_sec: u32, now: u64)
        -> (r: Result<(), ErrorCode>)
        requires
            old(self).inv(),
        ensures
            final(self).inv(),
            ({
                let genesis_ts = (genesis_timestamp_in_sec as u64 * 1_000_000_000) as u64;
                if caller != old(self).data.owner_id {
                    r == Err::<(), ErrorCode>(ErrorCode::NotOwner) && *final(self) == *old(self)
                } else if now > old(self).data.genesis_timestamp {
                    r == Err::<(), ErrorCode>(ErrorCode::HasLaunched) && *final(self) == *old(self)
                } else if genesis_ts <= now {
                    r == Err::<(), ErrorCode>(ErrorCode::IllegalGenesisTime) && *final(self)
                        == *old(self)
                } else {
                    r == Ok::<(), ErrorCode>(()) && final(self).data == (ContractData {
                        genesis_timestamp: genesis_ts,
                        ..old(self).data
                    })
                }
            }),
    {
        if caller != self.data.owner_id {
            return Err(ErrorCode::NotOwner);
        }
        let genesis_ts = sec_to_nano(genesis_timestamp_in_sec);
        if now > self.data.genesis_timestamp {
            return Err(ErrorCode::HasLaunched);
        }
        if genesis_ts <= now {
            return Err(ErrorCode::IllegalGenesisTime);
        }
        self.data.genesis_timestamp = genesis_ts;
        Ok(())
    }

    /// Change the bond required to endorse a proposal; it must stay positive.
    pub fn modify_endorsement_amount(&mut self, caller: u64, amount: u128) -> (r: Result<
        (),
        ErrorCode,
    >)
        requires
            old(self).inv(),
        ensures
            final(self).inv(),
            caller != old(self).data.owner_id ==> r == Err::<(), ErrorCode>(ErrorCode::NotOwner)
                && *final(self) == *old(self),
            caller == old(self).data.owner_id && amount == 0 ==> r == Err::<(), ErrorCode>(
                ErrorCode::ZeroEndorsement,
            ) && *final(self) == *old(self),
            caller == old(self).data.owner_id && amount > 0 ==> r == Ok::<(), ErrorCode>(())
                && final(self).data == (ContractData {
                lock_amount_per_proposal: amount,
                ..old(self).data
            }),
    {
        if caller != self.data.owner_id {
            return Err(ErrorCode::NotOwner);
        }
        if amount == 0 {
            return Err(ErrorCode::ZeroEndorsement);
        }
        self.data.lock_amount_per_proposal = amount;
        Ok(())
    }

    /// Change the nonsense threshold; the fraction must be valid.
    pub fn modify_nonsense_threshold(&mut self, caller: u64, threshold: Rational) -> (r: Result<
        (),
        ErrorCode,
    >)
        requires
            old(self).inv(),
        ensures
            final(self).inv(),
            caller != old(self).data.owner_id ==> r == Err::<(), ErrorCode>(ErrorCode::NotOwner)
                && *final(self) == *old(self),
            caller == old(self).data.owner_id && !threshold.valid() ==> r == Err::<(), ErrorCode>(
                ErrorCode::IllegalThreshold,
            ) && *final(self) == *old(self),
            caller == old(self).data.owner_id && threshold.valid() ==> r == Ok::<(), ErrorCode>(())
                && final(self).data == (ContractData {
                nonsense_threshold: threshold,
                ..old(self).data
            }),
    {
        if caller != self.data.owner_id {
            return Err(ErrorCode::NotOwner);
        }
        if !threshold.is_valid() {
            return Err(ErrorCode::IllegalThreshold);
        }
        self.data.nonsense_threshold = threshold;
        Ok(())
    }

    /// Replace one of the two global vote policies: a relative policy takes
    /// the relative slot, an absolute one the absolute slot. Both fractions
    /// must be valid.
    pub fn modify_vote_policy(&mut self, caller: u64, vote_policy: VotePolicy) -> (r: Result<
        (),
        ErrorCode,
    >)
        requires
            old(self).inv(),
        ensures
            final(self).inv(),
            caller != old(self).data.owner_id ==> r == Err::<(), ErrorCode>(ErrorCode::NotOwner)
                && *final(self) == *old(self),
            caller == old(self).data.owner_id && !vote_policy.valid() ==> r == Err::<(), ErrorCode>(
                ErrorCode::IllegalThreshold,
            ) && *final(self) == *old(self),
            caller == old(self).data.owner_id && vote_policy.valid() ==> {
                let slot: int = if vote_policy is Relative {
                    0
                } else {
                    1
                };
                &&& r == Ok::<(), ErrorCode>(())
                &&& final(self).data == (ContractData {
                    vote_policy: final(self).data.vote_policy,
                    ..old(self).data
                })
                &&& final(self).data.vote_policy@ == old(self).data.vote_policy@.update(
                    slot,
                    vote_policy,
                )
            },
    {
        if caller != self.data.owner_id {
            return Err(ErrorCode::NotOwner);
        }
        if !vote_policy.is_valid() {
            return Err(ErrorCode::IllegalThreshold);
        }
        let slot: usize = match vote_policy {
            VotePolicy::Relative(_, _) => 0,
            VotePolicy::Absolute(_, _) => 1,
        };
        self.data.vote_policy.set(slot, vote_policy);
        Ok(())
    }
}

} // verus!
