//! The session ring: per-window expiring ballot totals, advanced lazily.

use vstd::prelude::*;

use crate::utils::{ErrorCode, NUM_SESSIONS};
use crate::ContractData;

verus! {

/// One ring slot: the total ballot power that becomes stale once the current
/// window moves past `session_id` (such power unlocks at the start of window
/// `session_id + 1`).
#[derive(Clone, Copy, Debug, PartialEq, Eq, Structural)]
pub struct SessionInfo {
    pub session_id: u32,
    pub expire_amount: u128,
}

/// Sum of all slots' expire amounts.
pub open spec fn sum_expire(s: Seq<SessionInfo>) -> int
    decreases s.len(),
{
    if s.len() == 0 {
        0
    } else {
        sum_expire(s.drop_last()) + s.last().expire_amount
    }
}

/// Sum of the expire amounts of the slots whose window id lies before `w`:
/// the power that has expired by window `w`.
pub open spec fn expired_before(s: Seq<SessionInfo>, w: int) -> int
    decreases s.len(),
{
    if s.len() == 0 {
        0
    } else {
        expired_before(s.drop_last(), w) + if s.last().session_id < w {
            s.last().expire_amount as int
        } else {
            0
        }
    }
}

/// A sequence of all-zero slots sums to zero.
pub proof fn lemma_sum_expire_zero(s: Seq<SessionInfo>)
    requires
        forall|i: int| 0 <= i < s.len() ==> #[trigger] s[i].expire_amount == 0,
    ensures
        sum_expire(s) == 0,
    decreases s.len(),
{
    if s.len() > 0 {
        lemma_sum_expire_zero(s.drop_last());
    }
}

/// Updating one slot moves the sum by the slot's change.
pub proof fn lemma_sum_expire_update(s: Seq<SessionInfo>, i: int, v: SessionInfo)
    requires
        0 <= i < s.len(),
    ensures
        sum_expire(s.update(i, v)) == sum_expire(s) - s[i].expire_amount + v.expire_amount,
    decreases s.len(),
{
    if i == s.len() - 1 {
        assert(s.update(i, v).drop_last() =~= s.drop_last());
    } else {
        lemma_sum_expire_update(s.drop_last(), i, v);
        assert(s.update(i, v).drop_last() =~= s.drop_last().update(i, v));
    }
}

/// Every slot's amount is at most the whole sum.
pub proof fn lemma_sum_expire_element_le(s: Seq<SessionInfo>, i: int)
    requires
        0 <= i < s.len(),
    ensures
        s[i].expire_amount <= sum_expire(s),
    decreases s.len(),
{
    lemma_sum_expire_nonneg(s);
    if i == s.len() - 1 {
        lemma_sum_expire_nonneg(s.drop_last());
    } else {
        lemma_sum_expire_element_le(s.drop_last(), i);
    }
}

/// Sums of unsigned amounts are nonnegative.
pub proof fn lemma_sum_expire_nonneg(s: Seq<SessionInfo>)
    ensures
        sum_expire(s) >= 0,
    decreases s.len(),
{
    if s.len() > 0 {
        lemma_sum_expire_nonneg(s.drop_last());
    }
}

/// The expired part never exceeds the whole sum.
pub proof fn lemma_expired_before_le_sum(s: Seq<SessionInfo>, w: int)
    ensures
        0 <= expired_before(s, w) <= sum_expire(s),
    decreases s.len(),
{
    if s.len() > 0 {
        lemma_expired_before_le_sum(s.drop_last(), w);
    }
}

/// A prefix one longer adds exactly the next slot's contribution.
pub proof fn lemma_expired_before_take_step(s: Seq<SessionInfo>, w: int, i: int)
    requires
        0 <= i < s.len(),
    ensures
        expired_before(s.take(i + 1), w) == expired_before(s.take(i), w) + if s[i].session_id
            < w {
            s[i].expire_amount as int
        } else {
            0
        },
{
    assert(s.take(i + 1).drop_last() =~= s.take(i));
    assert(s.take(i + 1).last() == s[i]);
}

/// The same step law for the plain sum.
pub proof fn lemma_sum_expire_take_step(s: Seq<SessionInfo>, i: int)
    requires
        0 <= i < s.len(),
    ensures
        sum_expire(s.take(i + 1)) == sum_expire(s.take(i)) + s[i].expire_amount,
{
    assert(s.take(i + 1).drop_last() =~= s.take(i));
    assert(s.take(i + 1).last() == s[i]);
}

/// A full-length prefix is the sequence itself.
pub proof fn lemma_expired_before_take_all(s: Seq<SessionInfo>, w: int)
    ensures
        expired_before(s.take(s.len() as int), w) == expired_before(s, w),
        sum_expire(s.take(s.len() as int)) == sum_expire(s),
{
    assert(s.take(s.len() as int) =~= s);
}

/// Nothing has expired when every slot's window still lies at or past `w`.
pub proof fn lemma_expired_before_none(s: Seq<SessionInfo>, w: int)
    requires
        forall|i: int| 0 <= i < s.len() ==> (#[trigger] s[i].session_id as int) >= w,
    ensures
        expired_before(s, w) == 0,
    decreases s.len(),
{
    if s.len() > 0 {
        lemma_expired_before_none(s.drop_last(), w);
    }
}

/// Refreshing up to window `w` removes exactly the expired amounts from the
/// slot sum: recycled slots are zeroed, the rest keep their amounts.
pub proof fn lemma_sum_after_refresh(s0: Seq<SessionInfo>, s1: Seq<SessionInfo>, w: int)
    requires
        s0.len() == s1.len(),
        forall|i: int|
            0 <= i < s0.len() ==> if (#[trigger] s0[i].session_id as int) >= w {
                s1[i] == s0[i]
            } else {
                (#[trigger] s1[i]).expire_amount == 0
            },
    ensures
        sum_expire(s1) == sum_expire(s0) - expired_before(s0, w),
    decreases s0.len(),
{
    if s0.len() > 0 {
        lemma_sum_after_refresh(s0.drop_last(), s1.drop_last(), w);
        assert(s0.last() == s0[s0.len() - 1]);
        assert(s1.last() == s1[s0.len() - 1]);
    }
}

/// A prefix sums to no more than the whole.
pub proof fn lemma_sum_expire_take_le(s: Seq<SessionInfo>, i: int)
    requires
        0 <= i <= s.len(),
    ensures
        sum_expire(s.take(i)) <= sum_expire(s),
    decreases s.len() - i,
{
    if i == s.len() {
        lemma_expired_before_take_all(s, 0);
    } else {
        lemma_sum_expire_take_step(s, i);
        lemma_sum_expire_take_le(s, i + 1);
    }
}

impl crate::Contract {
    /// The live ballot total at time `now`: the stored total minus whatever
    /// has expired by `now`'s window (zero before launch or initialization).
    pub open spec fn live_ballots(self, now: u64) -> int {
        if !self.launched(now) || !self.data.initialized {
            0
        } else {
            self.data.cur_total_ballot - expired_before(self.data.sessions@, self.window_of(now))
        }
    }

    /// Compute the freshest ballot total without mutating the ring.
    pub fn calc_cur_ballots(&self, now: u64) -> (r: u128)
        requires
            self.inv(),
        ensures
            r as int == self.live_ballots(now),
    {
        if now <= self.data.genesis_timestamp {
            return 0;
        }
        if !self.data.initialized {
            return 0;
        }
        proof {
            crate::utils::lemma_window_bound(self.data.genesis_timestamp, now);
        }
        let w: u32 = ((now - self.data.genesis_timestamp) / crate::utils::SESSION_INTERVAL) as u32;
        let ghost s = self.data.sessions@;
        let mut ballot: u128 = self.data.cur_total_ballot;
        let mut i: usize = 0;
        while i < NUM_SESSIONS
            invariant
                self.inv(),
                s == self.data.sessions@,
                i <= NUM_SESSIONS,
                ballot as int == self.data.cur_total_ballot - expired_before(
                    s.take(i as int),
                    w as int,
                ),
            decreases NUM_SESSIONS - i,
        {
            proof {
                lemma_expired_before_take_step(s, w as int, i as int);
                lemma_expired_before_le_sum(s.take(i as int + 1), w as int);
                lemma_sum_expire_take_le(s, i as int + 1);
            }
            let session = self.data.sessions[i];
            if session.session_id < w {
                ballot = ballot - session.expire_amount;
            }
            i += 1;
        }
        proof {
            lemma_expired_before_take_all(s, w as int);
        }
        ballot
    }

    /// Refresh the ring up to `now`: the synchronization barrier run first by
    /// every mutating entry point. Initializes the ring on the first call
    /// after launch; afterwards walks the head forward, expiring each passed
    /// window's ballot power and recycling its slot `NUM_SESSIONS` windows
    /// ahead, until the head slot is `now`'s window.
    pub fn fresh_sessions(&mut self, now: u64) -> (r: Result<(), ErrorCode>)
        requires
            old(self).inv(),
        ensures
            final(self).inv(),
            match r {
                Err(e) => {
                    &&& e == ErrorCode::NotLaunched
                    &&& !old(self).launched(now)
                    &&& *final(self) == *old(self)
                },
                Ok(()) => {
                    let w = old(self).window_of(now);
                    let dold = old(self).data;
                    let dnew = final(self).data;
                    &&& old(self).launched(now)
                    &&& dnew.initialized
                    &&& dnew.cur_total_ballot as int == old(self).live_ballots(now)
                    &&& (if dold.initialized && old(self).head_id() > w {
                        final(self).head_id() == old(self).head_id()
                    } else {
                        final(self).head_id() == w
                    })
                    &&& dnew.owner_id == dold.owner_id
                    &&& dnew.locked_token == dold.locked_token
                    &&& dnew.genesis_timestamp == dold.genesis_timestamp
                    &&& dnew.accounts == dold.accounts
                    &&& dnew.account_number == dold.account_number
                    &&& dnew.proposals == dold.proposals
                    &&& dnew.vote_policy == dold.vote_policy
                    &&& dnew.last_proposal_id == dold.last_proposal_id
                    &&& dnew.lock_amount_per_proposal == dold.lock_amount_per_proposal
                    &&& dnew.nonsense_threshold == dold.nonsense_threshold
                    &&& dnew.cur_lock_amount == dold.cur_lock_amount
                    &&& dnew.proposal_ids_in_sessions@.len()
                        >= dold.proposal_ids_in_sessions@.len()
                    &&& (forall|j: int|
                        0 <= j < dold.proposal_ids_in_sessions@.len()
                            ==> dnew.proposal_ids_in_sessions@[j]
                            == #[trigger] dold.proposal_ids_in_sessions@[j])
                    &&& (forall|j: int|
                        dold.proposal_ids_in_sessions@.len() <= j
                            < dnew.proposal_ids_in_sessions@.len()
                            ==> (#[trigger] dnew.proposal_ids_in_sessions@[j])@ == Seq::<
                            u32,
                        >::empty())
                    &&& dold.initialized ==> (forall|i: int|
                        0 <= i < NUM_SESSIONS && (dold.sessions@[i].session_id as int)
                            >= final(self).head_id() ==> #[trigger] dnew.sessions@[i]
                            == dold.sessions@[i])
                    &&& dold.initialized ==> (forall|i: int|
                        0 <= i < NUM_SESSIONS && (dold.sessions@[i].session_id as int)
                            < final(self).head_id()
                            ==> (#[trigger] dnew.sessions@[i]).expire_amount == 0)
                    &&& !dold.initialized ==> {
                        &&& dnew.cur_session == 0
                        &&& dnew.cur_total_ballot == 0
                        &&& (forall|i: int|
                            0 <= i < NUM_SESSIONS
                                ==> (#[trigger] dnew.sessions@[i]).expire_amount == 0)
                    }
                },
            },
    {
        if now <= self.data.genesis_timestamp {
            return Err(ErrorCode::NotLaunched);
        }
        proof {
            crate::utils::lemma_window_bound(self.data.genesis_timestamp, now);
        }
        let w: u32 = ((now - self.data.genesis_timestamp) / crate::utils::SESSION_INTERVAL) as u32;
        if !self.data.initialized {
            let ghost d0 = self.data;
            let mut i: usize = 0;
            while i < NUM_SESSIONS
                invariant
                    i <= NUM_SESSIONS,
                    w <= crate::utils::MAX_SESSION_ID,
                    self.data.sessions@.len() == NUM_SESSIONS,
                    self.data == (ContractData { sessions: self.data.sessions, ..d0 }),
                    forall|k: int|
                        0 <= k < i ==> #[trigger] self.data.sessions@[k] == (SessionInfo {
                            session_id: (w + k) as u32,
                            expire_amount: 0u128,
                        }),
                decreases NUM_SESSIONS - i,
            {
                self.data.sessions.set(
                    i,
                    SessionInfo { session_id: w + i as u32, expire_amount: 0 },
                );
                i += 1;
            }
            let ghost d1 = self.data;
            let target: usize = w as usize + NUM_SESSIONS;
            let mut j: usize = 0;
            while j < target
                invariant
                    j <= target,
                    target == w as usize + NUM_SESSIONS,
                    self.data == (ContractData {
                        proposal_ids_in_sessions: self.data.proposal_ids_in_sessions,
                        ..d1
                    }),
                    self.data.proposal_ids_in_sessions@.len() == j,
                    forall|k: int|
                        0 <= k < j ==> (#[trigger] self.data.proposal_ids_in_sessions@[k])@
                            == Seq::<u32>::empty(),
                decreases target - j,
            {
                self.data.proposal_ids_in_sessions.push(Vec::new());
                j += 1;
            }
            self.data.cur_session = 0;
            self.data.initialized = true;
            proof {
                lemma_sum_expire_zero(self.data.sessions@);
            }
            Ok(())
        } else {
            let ghost d0 = self.data;
            let ghost w_target: int = if old(self).head_id() > w as int {
                old(self).head_id()
            } else {
                w as int
            };
            while self.data.sessions[self.data.cur_session].session_id < w
                invariant
                    self.inv(),
                    self.data.initialized,
                    w <= crate::utils::MAX_SESSION_ID,
                    old(self).head_id() <= self.head_id() <= w_target,
                    w_target == (if d0.sessions@[d0.cur_session as int].session_id as int
                        > w as int {
                        d0.sessions@[d0.cur_session as int].session_id as int
                    } else {
                        w as int
                    }),
                    self.data.owner_id == d0.owner_id,
                    self.data.locked_token == d0.locked_token,
                    self.data.genesis_timestamp == d0.genesis_timestamp,
                    self.data.accounts == d0.accounts,
                    self.data.account_number == d0.account_number,
                    self.data.proposals == d0.proposals,
                    self.data.vote_policy == d0.vote_policy,
                    self.data.last_proposal_id == d0.last_proposal_id,
                    self.data.lock_amount_per_proposal == d0.lock_amount_per_proposal,
                    self.data.nonsense_threshold == d0.nonsense_threshold,
                    self.data.cur_lock_amount == d0.cur_lock_amount,
                    self.data.proposal_ids_in_sessions@.len()
                        >= d0.proposal_ids_in_sessions@.len(),
                    forall|j: int|
                        0 <= j < d0.proposal_ids_in_sessions@.len()
                            ==> self.data.proposal_ids_in_sessions@[j]
                            == #[trigger] d0.proposal_ids_in_sessions@[j],
                    forall|j: int|
                        d0.proposal_ids_in_sessions@.len() <= j
                            < self.data.proposal_ids_in_sessions@.len()
                            ==> (#[trigger] self.data.proposal_ids_in_sessions@[j])@ == Seq::<
                            u32,
                        >::empty(),
                    forall|i: int|
                        0 <= i < NUM_SESSIONS && (d0.sessions@[i].session_id as int)
                            >= self.head_id() ==> #[trigger] self.data.sessions@[i]
                            == d0.sessions@[i],
                    forall|i: int|
                        0 <= i < NUM_SESSIONS ==> (#[trigger] self.data.sessions@[i]
                            == d0.sessions@[i] || self.data.sessions@[i].expire_amount == 0),
                decreases w as int - self.head_id(),
            {
                let h = self.data.cur_session;
                let slot = self.data.sessions[h];
                proof {
                    lemma_sum_expire_element_le(self.data.sessions@, h as int);
                }
                let ghost s_pre = self.data.sessions@;
                self.data.cur_total_ballot = self.data.cur_total_ballot - slot.expire_amount;
                self.data.sessions.set(
                    h,
                    SessionInfo {
                        session_id: slot.session_id + NUM_SESSIONS as u32,
                        expire_amount: 0,
                    },
                );
                proof {
                    lemma_sum_expire_update(
                        s_pre,
                        h as int,
                        SessionInfo {
                            session_id: (slot.session_id + NUM_SESSIONS as u32) as u32,
                            expire_amount: 0u128,
                        },
                    );
                }
                self.data.proposal_ids_in_sessions.push(Vec::new());
                self.data.cur_session = if h + 1 == NUM_SESSIONS {
                    0
                } else {
                    h + 1
                };
            }
            proof {
                assert forall|i: int|
                    0 <= i < NUM_SESSIONS && (d0.sessions@[i].session_id as int) < self.head_id()
                        implies (#[trigger] self.data.sessions@[i]).expire_amount == 0 by {
                    if self.data.sessions@[i] == d0.sessions@[i] {
                        let head = self.data.cur_session as int;
                        if i >= head {
                            assert(self.data.sessions@[i].session_id as int == self.head_id() + (i
                                - head));
                        } else {
                            assert(self.data.sessions@[i].session_id as int == self.head_id() + (
                            NUM_SESSIONS as int - head) + i);
                        }
                    }
                }
                if old(self).head_id() > w as int {
                    assert forall|i: int| 0 <= i < NUM_SESSIONS implies (
                    #[trigger] d0.sessions@[i].session_id as int) >= w as int by {
                        let head0 = d0.cur_session as int;
                        if i >= head0 {
                            assert(d0.sessions@[i].session_id as int == old(self).head_id() + (i
                                - head0));
                        } else {
                            assert(d0.sessions@[i].session_id as int == old(self).head_id() + (
                            NUM_SESSIONS as int - head0) + i);
                        }
                    }
                    lemma_expired_before_none(d0.sessions@, w as int);
                    assert(self.data.sessions@ =~= d0.sessions@);
                } else {
                    lemma_sum_after_refresh(d0.sessions@, self.data.sessions@, w as int);
                }
            }
            Ok(())
        }
    }

    /// Append a proposal id to its session window's bucket.
    pub fn add_proposal_to_session(&mut self, proposal_id: u32, session_id: u32)
        requires
            old(self).inv(),
            session_id < old(self).data.proposal_ids_in_sessions@.len(),
            old(self).data.proposals@.contains_key(proposal_id),
            old(self).data.proposals@[proposal_id].as_current().session_id == session_id,
        ensures
            final(self).inv(),
            final(self).data == (ContractData {
                proposal_ids_in_sessions: final(self).data.proposal_ids_in_sessions,
                ..old(self).data
            }),
            final(self).data.proposal_ids_in_sessions@ == old(self).data.proposal_ids_in_sessions@.update(
                session_id as int,
                final(self).data.proposal_ids_in_sessions@[session_id as int],
            ),
            final(self).data.proposal_ids_in_sessions@[session_id as int]@ == old(self).data.proposal_ids_in_sessions@[session_id as int]@.push(proposal_id),
    {
        let mut proposal_ids = crate::utils::copy_ids(
            &self.data.proposal_ids_in_sessions[session_id as usize],
        );
        proposal_ids.push(proposal_id);
        self.data.proposal_ids_in_sessions.set(session_id as usize, proposal_ids);
    }

    /// Remove a proposal id from its session window's bucket.
    pub fn remove_proposal_from_session(&mut self, proposal_id: u32, session_id: u32)
        requires
            old(self).inv(),
            session_id < old(self).data.proposal_ids_in_sessions@.len(),
        ensures
            final(self).inv(),
            final(self).data == (ContractData {
                proposal_ids_in_sessions: final(self).data.proposal_ids_in_sessions,
                ..old(self).data
            }),
            final(self).data.proposal_ids_in_sessions@ == old(self).data.proposal_ids_in_sessions@.update(
                session_id as int,
                final(self).data.proposal_ids_in_sessions@[session_id as int],
            ),
            final(self).data.proposal_ids_in_sessions@[session_id as int]@ == old(self).data.proposal_ids_in_sessions@[session_id as int]@.filter(
                |x: u32| x != proposal_id,
            ),
    {
        let proposal_ids = crate::utils::ids_without(
            &self.data.proposal_ids_in_sessions[session_id as usize],
            proposal_id,
        );
        self.data.proposal_ids_in_sessions.set(session_id as usize, proposal_ids);
    }
}

} // verus!
