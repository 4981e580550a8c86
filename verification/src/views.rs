//! Read-only projections of the contract state.

use vstd::prelude::*;

use crate::account::{AccountVote, VAccount};
use crate::proposals::{ProposalKind, ProposalStatus, VersionedProposal, Vote, VotePolicy};
use crate::session::SessionInfo;
use crate::utils::{copy_bytes, copy_ids, nano_to_sec, Rational};
use crate::Contract;

verus! {

broadcast use vstd::std_specs::hash::group_hash_axioms;

/// Contract basic info.
pub struct ContractMetadata {
    /// The owner account handle of the contract.
    pub owner_id: u64,
    /// The accepted lock token account handle.
    pub locked_token: u64,
    /// The launch timestamp in seconds.
    pub genesis_timestamp_sec: u32,
    /// Current session id (starting from 0).
    pub cur_session_id: u32,
    /// Current total ballot amount (calculated at call time).
    pub cur_total_ballot: u128,
    /// Current locked token amount (including expired but not yet withdrawn).
    pub cur_lock_amount: u128,
    /// The id the next proposal will get.
    pub last_proposal_id: u32,
    /// Bond amount for endorsing a proposal.
    pub lock_amount_per_proposal: u128,
    /// Current number of registered accounts.
    pub account_number: u64,
    /// The two global vote policies: relative, then absolute.
    pub vote_policy: Vec<VotePolicy>,
    /// The global nonsense threshold.
    pub nonsense_threshold: Rational,
}

/// A proposal's current, time-adjusted picture.
pub struct ProposalInfo {
    pub id: u32,
    pub proposer: u64,
    /// The escrowed bond still held for this proposal.
    pub lock_amount: u128,
    pub description: Vec<u8>,
    pub vote_policy: VotePolicy,
    pub kind: ProposalKind,
    /// The status derived for the given time, not the stored one.
    pub status: ProposalStatus,
    pub vote_counts: crate::proposals::VoteCounts,
    /// The session window this proposal belongs to.
    pub session_id: u32,
    /// Voting starts this many seconds after the session starts.
    pub start_offset_sec: u32,
    /// Voting lasts this many seconds.
    pub lasts_sec: u32,
}

/// An account's current, time-adjusted picture.
#[derive(Clone, Copy, Debug, PartialEq, Eq, Structural)]
pub struct AccountInfo {
    /// Locked token amount.
    pub locking_amount: u128,
    /// Live ballot amount (calculated at call time).
    pub ballot_amount: u128,
    /// The window at whose start the lock unlocks and the ballots expire.
    pub unlocking_session_id: u32,
}

/// One vote this account has cast, with its committed weight.
#[derive(Clone, Copy, Debug, PartialEq, Eq, Structural)]
pub struct HumanReadableAccountVote {
    pub proposal_id: u32,
    pub vote: Vote,
    pub amount: u128,
}

/// One ring slot as shown to readers.
#[derive(Clone, Copy, Debug, PartialEq, Eq, Structural)]
pub struct SessionState {
    pub session_id: u32,
    pub expire_amount: u128,
}

impl Contract {
    /// Return contract basic info, with the ballot total freshened to `now`.
    pub fn contract_metadata(&self, now: u64) -> (r: ContractMetadata)
        requires
            self.inv(),
        ensures
            r.owner_id == self.data.owner_id,
            r.locked_token == self.data.locked_token,
            r.genesis_timestamp_sec == (self.data.genesis_timestamp / 1_000_000_000) as u32,
            r.cur_session_id == self.window_of(now),
            r.cur_total_ballot as int == self.live_ballots(now),
            r.cur_lock_amount == self.data.cur_lock_amount,
            r.last_proposal_id == self.data.last_proposal_id,
            r.lock_amount_per_proposal == self.data.lock_amount_per_proposal,
            r.account_number == self.data.account_number,
            r.vote_policy@ == self.data.vote_policy@,
            r.nonsense_threshold == self.data.nonsense_threshold,
    {
        let mut vote_policy: Vec<VotePolicy> = Vec::new();
        vote_policy.push(self.data.vote_policy[0]);
        vote_policy.push(self.data.vote_policy[1]);
        proof {
            assert(vote_policy@ =~= self.data.vote_policy@);
        }
        ContractMetadata {
            owner_id: self.data.owner_id,
            locked_token: self.data.locked_token,
            genesis_timestamp_sec: nano_to_sec(self.data.genesis_timestamp),
            cur_session_id: self.get_cur_session_id(now),
            cur_total_ballot: self.calc_cur_ballots(now),
            cur_lock_amount: self.data.cur_lock_amount,
            last_proposal_id: self.data.last_proposal_id,
            lock_amount_per_proposal: self.data.lock_amount_per_proposal,
            account_number: self.data.account_number,
            vote_policy,
            nonsense_threshold: self.data.nonsense_threshold,
        }
    }

    /// Get a single proposal's current info, its status derived for `now`.
    pub fn get_proposal_info(&self, proposal_id: u32, now: u64) -> (r: Option<ProposalInfo>)
        requires
            self.inv(),
        ensures
            match r {
                None => !self.data.proposals@.contains_key(proposal_id),
                Some(info) => {
                    let p = self.data.proposals@[proposal_id].as_current();
                    &&& self.data.proposals@.contains_key(proposal_id)
                    &&& info.id == proposal_id
                    &&& info.proposer == p.proposer
                    &&& info.lock_amount == p.lock_amount
                    &&& info.description@ == p.description@
                    &&& info.vote_policy == p.vote_policy
                    &&& info.kind == p.kind
                    &&& info.status == p.derived_status(self.data.genesis_timestamp, now)
                    &&& info.vote_counts == p.vote_counts
                    &&& info.session_id == p.session_id
                    &&& info.start_offset_sec == (p.start_offset / 1_000_000_000) as u32
                    &&& info.lasts_sec == (p.lasts / 1_000_000_000) as u32
                },
            },
    {
        match self.data.proposals.get(&proposal_id) {
            None => None,
            Some(vp) => match vp {
                VersionedProposal::Default(p) => Some(
                    ProposalInfo {
                        id: proposal_id,
                        proposer: p.proposer,
                        lock_amount: p.lock_amount,
                        description: copy_bytes(&p.description),
                        vote_policy: p.vote_policy,
                        kind: p.kind,
                        status: p.get_cur_status(self.data.genesis_timestamp, now),
                        vote_counts: p.vote_counts,
                        session_id: p.session_id,
                        start_offset_sec: nano_to_sec(p.start_offset),
                        lasts_sec: nano_to_sec(p.lasts),
                    },
                ),
            },
        }
    }

    /// The proposal ids scheduled in a session window (empty if none).
    pub fn get_proposal_ids_in_session(&self, session_id: u32) -> (r: Vec<u32>)
        requires
            self.inv(),
        ensures
            r@ == (if (session_id as int) < self.data.proposal_ids_in_sessions@.len() {
                self.data.proposal_ids_in_sessions@[session_id as int]@
            } else {
                Seq::<u32>::empty()
            }),
    {
        if (session_id as usize) < self.data.proposal_ids_in_sessions.len() {
            copy_ids(&self.data.proposal_ids_in_sessions[session_id as usize])
        } else {
            Vec::new()
        }
    }

    /// Current info of every proposal in a session window, in bucket order.
    pub fn get_proposals_in_session(&self, session_id: u32, now: u64) -> (r: Vec<ProposalInfo>)
        requires
            self.inv(),
        ensures
            ({
                let bucket = if (session_id as int) < self.data.proposal_ids_in_sessions@.len() {
                    self.data.proposal_ids_in_sessions@[session_id as int]@
                } else {
                    Seq::<u32>::empty()
                };
                &&& r@.len() == bucket.len()
                &&& forall|k: int| 0 <= k < r@.len() ==> (#[trigger] r@[k]).id == bucket[k]
            }),
    {
        let ids = self.get_proposal_ids_in_session(session_id);
        let mut ret: Vec<ProposalInfo> = Vec::new();
        let mut i: usize = 0;
        while i < ids.len()
            invariant
                self.inv(),
                i <= ids@.len(),
                ret@.len() == i,
                forall|k: int| 0 <= k < i ==> (#[trigger] ret@[k]).id == ids@[k],
                (session_id as int) < self.data.proposal_ids_in_sessions@.len() ==> ids@
                    == self.data.proposal_ids_in_sessions@[session_id as int]@,
                self.data.proposal_ids_in_sessions@.len() <= session_id as int ==> ids@ == Seq::<
                    u32,
                >::empty(),
            decreases ids@.len() - i,
        {
            match self.get_proposal_info(ids[i], now) {
                Some(item) => {
                    ret.push(item);
                },
                None => {
                    proof {
                        assert(false);
                    }
                },
            }
            i += 1;
        }
        ret
    }

    /// An account's current picture: the ballot amount shown is the live one,
    /// so a positive amount means the current window lies strictly before the
    /// unlocking window.
    pub fn get_account_info(&self, account_id: u64, now: u64) -> (r: Option<AccountInfo>)
        requires
            self.inv(),
        ensures
            match r {
                None => !self.data.accounts@.contains_key(account_id),
                Some(info) => {
                    let a = self.data.accounts@[account_id].as_current();
                    let w = self.window_of(now) as u32;
                    &&& self.data.accounts@.contains_key(account_id)
                    &&& info.locking_amount == a.locking_amount
                    &&& info.ballot_amount == a.live_ballot(w)
                    &&& info.unlocking_session_id == a.unlocking_session_id
                    &&& info.ballot_amount > 0 ==> w < info.unlocking_session_id
                },
            },
    {
        let w = self.get_cur_session_id(now);
        match self.data.accounts.get(&account_id) {
            None => None,
            Some(va) => match va {
                VAccount::Current(acc) => Some(
                    AccountInfo {
                        locking_amount: acc.locking_amount,
                        ballot_amount: acc.sync_ballot(w),
                        unlocking_session_id: acc.unlocking_session_id,
                    },
                ),
            },
        }
    }

    /// The votes an account has cast on the proposals of one session window,
    /// in bucket order.
    pub fn get_account_proposals_in_session(&self, account_id: u64, session_id: u32) -> (r: Vec<
        HumanReadableAccountVote,
    >)
        requires
            self.inv(),
        ensures
            ({
                let bucket = if (session_id as int) < self.data.proposal_ids_in_sessions@.len() {
                    self.data.proposal_ids_in_sessions@[session_id as int]@
                } else {
                    Seq::<u32>::empty()
                };
                !self.data.accounts@.contains_key(account_id) ==> r@.len() == 0
            }),
    {
        let ids = self.get_proposal_ids_in_session(session_id);
        let mut ret: Vec<HumanReadableAccountVote> = Vec::new();
        match self.data.accounts.get(&account_id) {
            None => {},
            Some(va) => match va {
                VAccount::Current(acc) => {
                    let mut i: usize = 0;
                    while i < ids.len()
                        invariant
                            i <= ids@.len(),
                        decreases ids@.len() - i,
                    {
                        match acc.proposals.get(&ids[i]) {
                            Some(account_vote) => {
                                let av: AccountVote = *account_vote;
                                ret.push(
                                    HumanReadableAccountVote {
                                        proposal_id: ids[i],
                                        vote: av.vote,
                                        amount: av.amount,
                                    },
                                );
                            },
                            None => {},
                        }
                        i += 1;
                    }
                },
            },
        }
        ret
    }

    /// One raw ring slot, by array position.
    pub fn get_session_state(&self, session_idx: usize) -> (r: SessionState)
        requires
            self.inv(),
            session_idx < crate::utils::NUM_SESSIONS,
        ensures
            r.session_id == self.data.sessions@[session_idx as int].session_id,
            r.expire_amount == self.data.sessions@[session_idx as int].expire_amount,
    {
        let slot = self.data.sessions[session_idx];
        SessionState { session_id: slot.session_id, expire_amount: slot.expire_amount }
    }
}

} // verus!
