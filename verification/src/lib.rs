//! A time-windowed voting-power ledger and proposal governance engine.
//!
//! Users lock a fungible asset for a chosen number of fixed-length time
//! windows ("sessions"), receive voting power ("ballots") that expires once
//! the lock window elapses, and spend that power on proposals whose outcome
//! is decided by configurable threshold policies.
//!
//! The engine owns all of its state as one aggregate ([`Contract`]); the host
//! supplies the clock (`now` parameters), performs the asset transfers the
//! engine asks for ([`utils::Payout`] values and withdraw requests), and
//! reports transfer outcomes back through the resolve entry points.

pub mod account;
pub mod owner;
pub mod proposals;
pub mod session;
pub mod storage_impl;
pub mod utils;
pub mod views;

use vstd::prelude::*;

use crate::account::VAccount;
use crate::proposals::{VersionedProposal, VotePolicy};
use crate::session::SessionInfo;
use crate::utils::{
    Rational, DEFAULT_GENESIS_OFFSET, DEFAULT_LOCK_NEAR_AMOUNT_FOR_PROPOSAL, MAX_SESSION_ID,
    NUM_SESSIONS, SESSION_INTERVAL,
};
use std::collections::HashMap;

verus! {

/// The whole persistent state of the governance engine.
pub struct ContractData {
    /// Owner of this contract (account handle).
    pub owner_id: u64,
    /// Which token is accepted for locking (account handle of the token).
    pub locked_token: u64,
    /// The genesis timestamp (nanoseconds): windows are counted from here.
    pub genesis_timestamp: u64,
    /// Fixed-size circular array of per-window expiring ballot totals.
    pub sessions: Vec<SessionInfo>,
    /// One bucket of proposal ids per window ever scheduled (index = window id).
    pub proposal_ids_in_sessions: Vec<Vec<u32>>,
    /// Index of the current head slot in `sessions`.
    pub cur_session: usize,
    /// Whether the ring has been initialized by the first refresh after launch.
    pub initialized: bool,
    /// Total live ballot amount (equals the sum of all slots' expire amounts).
    pub cur_total_ballot: u128,
    /// Total locked token amount (including expired locks not yet withdrawn).
    pub cur_lock_amount: u128,
    /// Per-user ledger.
    pub accounts: HashMap<u64, VAccount>,
    /// Number of registered accounts.
    pub account_number: u64,
    /// The global vote policies: index 0 relative, index 1 absolute.
    pub vote_policy: Vec<VotePolicy>,
    /// Next available proposal id.
    pub last_proposal_id: u32,
    /// Proposal map from id to proposal information.
    pub proposals: HashMap<u32, VersionedProposal>,
    /// Bond required to endorse a proposal.
    pub lock_amount_per_proposal: u128,
    /// Share of nonsense votes that condemns a proposal, whatever the policy.
    pub nonsense_threshold: Rational,
}

/// Schema-version wrapper for the persisted state, so that a future layout
/// can be added as a new variant with an upgrade path in `into_current`.
pub enum VContractData {
    Current(ContractData),
}

impl VContractData {
    /// The state under the current schema, upgrading older layouts if any.
    pub fn into_current(self) -> (r: ContractData)
        ensures
            r == self.as_current(),
    {
        match self {
            VContractData::Current(data) => data,
        }
    }

    /// Spec view of the wrapped state.
    pub open spec fn as_current(self) -> ContractData {
        match self {
            VContractData::Current(data) => data,
        }
    }
}

/// The governance engine: the versioned state plus its entry points.
pub struct Contract {
    pub data: ContractData,
}

impl Contract {
    /// Create a fresh contract; launch happens `DEFAULT_GENESIS_OFFSET`
    /// nanoseconds after creation unless the owner moves the genesis.
    pub fn new(owner_id: u64, token_id: u64, now: u64) -> (c: Contract)
        requires
            now + DEFAULT_GENESIS_OFFSET <= u64::MAX,
        ensures
            c.inv(),
            c.data.owner_id == owner_id,
            c.data.locked_token == token_id,
            c.data.genesis_timestamp == now + DEFAULT_GENESIS_OFFSET,
            !c.data.initialized,
            c.data.cur_total_ballot == 0,
            c.data.cur_lock_amount == 0,
            c.data.accounts@ == Map::<u64, VAccount>::empty(),
            c.data.account_number == 0,
            c.data.proposals@ == Map::<u32, VersionedProposal>::empty(),
            c.data.last_proposal_id == 0,
            c.data.lock_amount_per_proposal == DEFAULT_LOCK_NEAR_AMOUNT_FOR_PROPOSAL,
            c.data.vote_policy@ == seq![
                proposals::default_vp_relative(),
                proposals::default_vp_absolute(),
            ],
            c.data.nonsense_threshold == utils::default_nonsense_threshold(),
    {
        let mut sessions: Vec<SessionInfo> = Vec::new();
        let mut i: usize = 0;
        while i < NUM_SESSIONS
            invariant
                i <= NUM_SESSIONS,
                sessions@.len() == i,
                forall|k: int| 0 <= k < i ==> sessions@[k] == (SessionInfo {
                    session_id: 0u32,
                    expire_amount: 0u128,
                }),
            decreases NUM_SESSIONS - i,
        {
            sessions.push(SessionInfo { session_id: 0, expire_amount: 0 });
            i += 1;
        }
        let mut vote_policy: Vec<VotePolicy> = Vec::new();
        vote_policy.push(proposals::default_vp_relative());
        vote_policy.push(proposals::default_vp_absolute());
        proof {
            assert(vote_policy@ =~= seq![
                proposals::default_vp_relative(),
                proposals::default_vp_absolute(),
            ]);
        }
        let data = ContractData {
            owner_id,
            locked_token: token_id,
            genesis_timestamp: now + DEFAULT_GENESIS_OFFSET,
            sessions,
            proposal_ids_in_sessions: Vec::new(),
            cur_session: 0,
            initialized: false,
            cur_total_ballot: 0,
            cur_lock_amount: 0,
            accounts: HashMap::new(),
            account_number: 0,
            vote_policy,
            last_proposal_id: 0,
            proposals: HashMap::new(),
            lock_amount_per_proposal: DEFAULT_LOCK_NEAR_AMOUNT_FOR_PROPOSAL,
            nonsense_threshold: utils::default_nonsense_threshold(),
        };
        proof {
            session::lemma_sum_expire_zero(data.sessions@);
        }
        Contract { data }
    }

    /// Whether the contract has launched at time `now`.
    pub fn has_launch(&self, now: u64) -> (r: bool)
        ensures
            r == self.launched(now),
    {
        now > self.data.genesis_timestamp
    }

    /// The window index that `now` falls in (0 before launch).
    pub fn get_cur_session_id(&self, now: u64) -> (r: u32)
        ensures
            r == self.window_of(now),
    {
        if now <= self.data.genesis_timestamp {
            0
        } else {
            proof {
                utils::lemma_window_bound(self.data.genesis_timestamp, now);
            }
            ((now - self.data.genesis_timestamp) / SESSION_INTERVAL) as u32
        }
    }

    /// Launch predicate: strictly after the genesis timestamp.
    pub open spec fn launched(self, now: u64) -> bool {
        now > self.data.genesis_timestamp
    }

    /// The window index of `now`, as a mathematical value (0 before launch).
    pub open spec fn window_of(self, now: u64) -> int {
        if now <= self.data.genesis_timestamp {
            0
        } else {
            (now - self.data.genesis_timestamp) as int / SESSION_INTERVAL as int
        }
    }

    /// Window id of the head ring slot.
    pub open spec fn head_id(self) -> int {
        self.data.sessions@[self.data.cur_session as int].session_id as int
    }

    /// The ring slots hold exactly `NUM_SESSIONS` consecutive window ids,
    /// starting at the head slot and wrapping around the array.
    pub open spec fn ring_ids_ok(self) -> bool {
        let head = self.data.cur_session as int;
        let n = NUM_SESSIONS as int;
        &&& forall|j: int|
            head <= j < n ==> #[trigger] self.data.sessions@[j].session_id as int == self.head_id()
                + (j - head)
        &&& forall|j: int|
            0 <= j < head ==> #[trigger] self.data.sessions@[j].session_id as int == self.head_id()
                + (n - head) + j
    }

    /// What must hold of every account entry.
    pub open spec fn account_ok(self, va: VAccount) -> bool {
        if self.data.initialized {
            va.as_current().unlocking_session_id as int <= self.head_id() + NUM_SESSIONS as int
        } else {
            va.as_current().unlocking_session_id == 0 && va.as_current().ballot_amount == 0
        }
    }

    /// Every proposal id recorded in a window bucket is present in the
    /// proposal map and belongs to that very window.
    pub open spec fn buckets_ok(self) -> bool {
        forall|s: int, j: int|
            0 <= s < self.data.proposal_ids_in_sessions@.len() && 0 <= j
                < self.data.proposal_ids_in_sessions@[s].len() ==> {
                let pid = #[trigger] self.data.proposal_ids_in_sessions@[s][j];
                &&& self.data.proposals@.contains_key(pid)
                &&& self.data.proposals@[pid].as_current().session_id == s
            }
    }

    /// Every stored proposal's window already has its id bucket, and every
    /// stored id lies below the id counter (so new ids are fresh).
    pub open spec fn proposals_ok(self) -> bool {
        forall|pid: u32|
            self.data.proposals@.contains_key(pid) ==> {
                &&& (#[trigger] self.data.proposals@[pid]).as_current().session_id
                    < self.data.proposal_ids_in_sessions@.len()
                &&& pid < self.data.last_proposal_id
            }
    }

    /// The state invariant, established by `new` and preserved by every
    /// entry point. Its heart is ring conservation: the sum of the live ring
    /// slots' expire amounts always equals `cur_total_ballot`.
    pub open spec fn inv(self) -> bool {
        &&& self.data.sessions@.len() == NUM_SESSIONS
        &&& self.data.cur_session < NUM_SESSIONS
        &&& self.data.vote_policy@.len() == 2
        &&& session::sum_expire(self.data.sessions@) == self.data.cur_total_ballot as int
        &&& self.data.initialized ==> self.ring_ids_ok()
        &&& self.data.initialized ==> self.head_id() <= MAX_SESSION_ID as int
        &&& self.data.initialized ==> self.data.proposal_ids_in_sessions@.len() == self.head_id()
            + NUM_SESSIONS as int
        &&& !self.data.initialized ==> {
            &&& self.data.cur_total_ballot == 0
            &&& self.data.cur_session == 0
            &&& self.data.proposal_ids_in_sessions@.len() == 0
        }
        &&& forall|a: u64|
            self.data.accounts@.contains_key(a) ==> self.account_ok(
                #[trigger] self.data.accounts@[a],
            )
        &&& self.buckets_ok()
        &&& self.proposals_ok()
    }

    /// The ring is synchronized with time `now`: refreshed in `now`'s window.
    pub open spec fn synced(self, now: u64) -> bool {
        &&& self.data.initialized
        &&& self.launched(now)
        &&& self.head_id() == self.window_of(now)
    }

    /// The host clock is monotone (a consumed-interface guarantee): once the
    /// ring is initialized, `now` never lies before the head's window.
    pub open spec fn time_ok(self, now: u64) -> bool {
        self.data.initialized ==> self.launched(now) && self.head_id() <= self.window_of(now)
    }

    /// How `self`'s ring slots relate to those of a pre-refresh state `pre`:
    /// the head sits at `now`'s window, slots of passed windows have been
    /// recycled empty, and the rest are untouched.
    pub open spec fn ring_slots_refreshed_from(self, pre: Contract, now: u64) -> bool {
        let w = pre.window_of(now);
        &&& self.data.initialized
        &&& self.head_id() == w
        &&& pre.data.initialized ==> forall|i: int|
            0 <= i < NUM_SESSIONS ==> if (pre.data.sessions@[i].session_id as int) >= w {
                #[trigger] self.data.sessions@[i] == pre.data.sessions@[i]
            } else {
                self.data.sessions@[i].expire_amount == 0
            }
        &&& !pre.data.initialized ==> forall|i: int|
            0 <= i < NUM_SESSIONS ==> (#[trigger] self.data.sessions@[i]).expire_amount == 0
    }

    /// How `self`'s proposal-id buckets relate to those of a pre-refresh
    /// state `pre`: one bucket per window ever scheduled, earlier buckets
    /// untouched, freshly scheduled windows empty.
    pub open spec fn buckets_refreshed_from(self, pre: Contract, now: u64) -> bool {
        let w = pre.window_of(now);
        &&& self.data.proposal_ids_in_sessions@.len() == w + NUM_SESSIONS as int
        &&& self.data.proposal_ids_in_sessions@.len() >= pre.data.proposal_ids_in_sessions@.len()
        &&& forall|j: int|
            0 <= j < pre.data.proposal_ids_in_sessions@.len()
                ==> self.data.proposal_ids_in_sessions@[j]
                == #[trigger] pre.data.proposal_ids_in_sessions@[j]
        &&& forall|j: int|
            pre.data.proposal_ids_in_sessions@.len() <= j
                < self.data.proposal_ids_in_sessions@.len()
                ==> (#[trigger] self.data.proposal_ids_in_sessions@[j])@ == Seq::<u32>::empty()
    }

    /// Slots and buckets both refreshed, nothing else moved in the ring.
    pub open spec fn ring_refreshed_from(self, pre: Contract, now: u64) -> bool {
        &&& self.ring_slots_refreshed_from(pre, now)
        &&& self.buckets_refreshed_from(pre, now)
    }
}

} // verus!
