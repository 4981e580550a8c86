//! Per-user ledger: locked principal, ballots, and vote records.

use vstd::prelude::*;

use crate::proposals::{ProposalStatus, Vote, VersionedProposal};
use crate::utils::{ErrorCode, Payout, Rational, TokenTransfer, DAYS_PER_SESSION, MAX_SESSION_ID, NANOS_PER_DAY, NUM_SESSIONS, SESSION_INTERVAL};
use crate::session::SessionInfo;
use crate::utils::nano_to_day;
use crate::{Contract, ContractData};
use std::collections::HashMap;

verus! {

broadcast use vstd::std_specs::hash::group_hash_axioms;

/// The ballot weight a user committed to one proposal at the moment of
/// voting (or of the last append).
#[derive(Clone, Copy, Debug, PartialEq, Eq, Structural)]
pub struct AccountVote {
    pub vote: Vote,
    pub amount: u128,
}

/// Account information.
pub struct Account {
    /// The amount of the base token locked.
    pub locking_amount: u128,
    /// The amount of ballots the account holds; valid only while the current
    /// window lies before `unlocking_session_id`.
    pub ballot_amount: u128,
    /// The window at whose beginning the lock (and its ballots) expires.
    pub unlocking_session_id: u32,
    /// Vote record per proposal ever voted on; an entry's presence is the
    /// "already voted" guard.
    pub proposals: HashMap<u32, AccountVote>,
}

/// Schema-version wrapper for persisted accounts.
pub enum VAccount {
    Current(Account),
}

impl VAccount {
    /// Upgrades from other versions to the currently used version.
    pub fn into_current(self) -> (r: Account)
        ensures
            r == self.as_current(),
    {
        match self {
            VAccount::Current(account) => account,
        }
    }

    /// Spec view of the wrapped account.
    pub open spec fn as_current(self) -> Account {
        match self {
            VAccount::Current(account) => account,
        }
    }
}

impl Account {
    /// A fresh account with no lock, no ballots, and no vote records.
    pub fn new() -> (r: Account)
        ensures
            r.locking_amount == 0,
            r.ballot_amount == 0,
            r.unlocking_session_id == 0,
            r.proposals@ == Map::<u32, AccountVote>::empty(),
    {
        Account {
            locking_amount: 0,
            ballot_amount: 0,
            unlocking_session_id: 0,
            proposals: HashMap::new(),
        }
    }

    /// Record newly locked principal and the ballots it granted.
    pub fn add_locking(
        &mut self,
        locking_amount: u128,
        ballot_amount: u128,
        unlocking_session_id: u32,
    )
        requires
            old(self).locking_amount + locking_amount <= u128::MAX,
            old(self).ballot_amount + ballot_amount <= u128::MAX,
        ensures
            final(self).locking_amount == old(self).locking_amount + locking_amount,
            final(self).ballot_amount == old(self).ballot_amount + ballot_amount,
            final(self).unlocking_session_id == unlocking_session_id,
            final(self).proposals == old(self).proposals,
    {
        self.locking_amount = self.locking_amount + locking_amount;
        self.ballot_amount = self.ballot_amount + ballot_amount;
        self.unlocking_session_id = unlocking_session_id;
    }

    /// Take the principal out, but only once the ballots have expired.
    pub fn remove_locking(&mut self) -> (amount: u128)
        ensures
            final(self).ballot_amount == old(self).ballot_amount,
            final(self).unlocking_session_id == old(self).unlocking_session_id,
            final(self).proposals == old(self).proposals,
            old(self).ballot_amount == 0 ==> amount == old(self).locking_amount
                && final(self).locking_amount == 0,
            old(self).ballot_amount != 0 ==> amount == 0
                && final(self).locking_amount == old(self).locking_amount,
    {
        if self.ballot_amount == 0 {
            let amount = self.locking_amount;
            self.locking_amount = 0;
            amount
        } else {
            0
        }
    }

    /// The account's live ballot power at window `cur_session_id`: zero once
    /// the unlock window has been reached.
    pub open spec fn live_ballot(self, cur_session_id: u32) -> u128 {
        if cur_session_id >= self.unlocking_session_id {
            0
        } else {
            self.ballot_amount
        }
    }

    /// Return the account's current valid ballots. Live power demands a live
    /// window: a positive result means the current window lies strictly
    /// before `unlocking_session_id`.
    pub fn sync_ballot(&self, cur_session_id: u32) -> (r: u128)
        ensures
            r == self.live_ballot(cur_session_id),
            r > 0 ==> cur_session_id < self.unlocking_session_id,
    {
        if cur_session_id >= self.unlocking_session_id {
            0
        } else {
            self.ballot_amount
        }
    }

    /// Update the stored ballots to the current valid amount.
    pub fn touch(&mut self, cur_session_id: u32)
        ensures
            final(self).ballot_amount == old(self).live_ballot(cur_session_id),
            final(self).locking_amount == old(self).locking_amount,
            final(self).unlocking_session_id == old(self).unlocking_session_id,
            final(self).proposals == old(self).proposals,
    {
        let b = self.sync_ballot(cur_session_id);
        self.ballot_amount = b;
    }
}

/// The ballot power granted by a lock. Appending (`lasts == 0`) grants the
/// new amount times the windows left until the existing unlock. A new lock
/// grants the whole principal (old and new) for each of the `lasts - 1` full
/// windows, plus a partial-window credit for the current window: the new
/// amount scaled by the days remaining, at day granularity.
pub open spec fn lock_delta(
    amount: u128,
    locking: u128,
    lasts: u32,
    remaining_days: int,
    unlocking0: u32,
    w: u32,
) -> int {
    if lasts == 0 {
        amount * (unlocking0 - w)
    } else {
        (amount + locking) * ((lasts - 1) as int) + amount * remaining_days / (
        DAYS_PER_SESSION as int)
    }
}

/// Whether the lock's ballot arithmetic stays within 128 bits, step by step
/// as the engine computes it.
pub open spec fn lock_fits(
    amount: u128,
    locking: u128,
    b0: u128,
    lasts: u32,
    remaining_days: int,
    unlocking0: u32,
    w: u32,
    cur_total: u128,
) -> bool {
    let delta = lock_delta(amount, locking, lasts, remaining_days, unlocking0, w);
    &&& (lasts != 0 ==> {
        &&& amount + locking <= u128::MAX
        &&& (amount + locking) * ((lasts - 1) as int) <= u128::MAX
        &&& amount * remaining_days <= u128::MAX
    })
    &&& delta <= u128::MAX
    &&& cur_total + delta <= u128::MAX
    &&& locking + amount <= u128::MAX
    &&& b0 + delta <= u128::MAX
}

/// The retroactive vote propagation of an append-lock, as a fold over the
/// current window's proposal-id bucket: every in-progress proposal this
/// account has already voted on takes the delta ballot power as an appended
/// vote, the account's vote record grows by what was accepted, and each bond
/// released on the way joins the payout list in bucket order.
pub open spec fn propagated(
    props: Map<u32, VersionedProposal>,
    votes: Map<u32, AccountVote>,
    payouts: Seq<Payout>,
    bucket: Seq<u32>,
    delta: u128,
    total: u128,
    th: Rational,
    genesis: u64,
    now: u64,
) -> (Map<u32, VersionedProposal>, Map<u32, AccountVote>, Seq<Payout>)
    decreases bucket.len(),
{
    if bucket.len() == 0 {
        (props, votes, payouts)
    } else {
        let pid = bucket[0];
        let step: (Map<u32, VersionedProposal>, Map<u32, AccountVote>, Seq<Payout>) = if
        votes.contains_key(pid) && props.contains_key(pid) {
            let p0 = props[pid].as_current();
            if p0.derived_status(genesis, now) == ProposalStatus::InProgress {
                let outcome = p0.append_outcome(votes[pid].vote, delta, total, th);
                (
                    props.insert(pid, VersionedProposal::Default(outcome.0)),
                    votes.insert(
                        pid,
                        AccountVote {
                            vote: votes[pid].vote,
                            amount: (votes[pid].amount + delta) as u128,
                        },
                    ),
                    match outcome.1 {
                        Some(p) => payouts.push(p),
                        None => payouts,
                    },
                )
            } else {
                (props, votes, payouts)
            }
        } else {
            (props, votes, payouts)
        };
        propagated(step.0, step.1, step.2, bucket.skip(1), delta, total, th, genesis, now)
    }
}

impl crate::Contract {
    /// Days left in the current window (counting any started day as gone),
    /// meaningful once the ring is synchronized with `now`.
    pub open spec fn remaining_days(self, now: u64) -> int {
        DAYS_PER_SESSION as int - (((now - self.data.genesis_timestamp) as int) - self.head_id()
            * (SESSION_INTERVAL as int)) / (NANOS_PER_DAY as int)
    }

    /// The ring position holding the window `off` slots after the head.
    pub open spec fn ring_pos(self, off: int) -> int {
        if self.data.cur_session + off < NUM_SESSIONS as int {
            self.data.cur_session + off
        } else {
            self.data.cur_session + off - NUM_SESSIONS as int
        }
    }

    /// Create the all-zero ledger entry for a newly registered account.
    pub(crate) fn internal_register_account(&mut self, account_id: u64)
        requires
            old(self).inv(),
        ensures
            final(self).inv(),
            final(self).data == (ContractData { accounts: final(self).data.accounts, ..old(self).data }),
            final(self).data.accounts@ == old(self).data.accounts@.insert(
                account_id,
                final(self).data.accounts@[account_id],
            ),
            final(self).data.accounts@.contains_key(account_id),
            ({
                let a = final(self).data.accounts@[account_id].as_current();
                &&& a.locking_amount == 0
                &&& a.ballot_amount == 0
                &&& a.unlocking_session_id == 0
                &&& a.proposals@ == Map::<u32, AccountVote>::empty()
            }),
    {
        let account = Account::new();
        self.data.accounts.insert(account_id, VAccount::Current(account));
    }

    /// Record an account's first vote on a proposal, returning the committed
    /// ballot power. The caller has checked registration, live ballots, and
    /// the no-double-vote guard.
    pub(crate) fn internal_account_vote(
        &mut self,
        account_id: u64,
        proposal_id: u32,
        vote: Vote,
        cur_window: u32,
    ) -> (ballots: u128)
        requires
            old(self).inv(),
            old(self).data.accounts@.contains_key(account_id),
            old(self).data.accounts@[account_id].as_current().live_ballot(cur_window) > 0,
            !old(self).data.accounts@[account_id].as_current().proposals@.contains_key(
                proposal_id,
            ),
        ensures
            final(self).inv(),
            final(self).data == (ContractData { accounts: final(self).data.accounts, ..old(self).data }),
            ballots == old(self).data.accounts@[account_id].as_current().live_ballot(cur_window),
            final(self).data.accounts@ == old(self).data.accounts@.insert(
                account_id,
                final(self).data.accounts@[account_id],
            ),
            final(self).data.accounts@.contains_key(account_id),
            ({
                let a0 = old(self).data.accounts@[account_id].as_current();
                let a1 = final(self).data.accounts@[account_id].as_current();
                &&& a1.locking_amount == a0.locking_amount
                &&& a1.ballot_amount == ballots
                &&& a1.unlocking_session_id == a0.unlocking_session_id
                &&& a1.proposals@ == a0.proposals@.insert(
                    proposal_id,
                    AccountVote { vote, amount: ballots },
                )
            }),
    {
        let va = match self.data.accounts.remove(&account_id) {
            Some(va) => va,
            None => {
                proof {
                    assert(false);
                }
                return 0;
            },
        };
        let mut account = va.into_current();
        account.touch(cur_window);
        let ballots = account.ballot_amount;
        account.proposals.insert(proposal_id, AccountVote { vote, amount: ballots });
        self.data.accounts.insert(account_id, VAccount::Current(account));
        proof {
            assert(final(self).data.accounts@ =~= old(self).data.accounts@.insert(
                account_id,
                final(self).data.accounts@[account_id],
            ));
        }
        ballots
    }

    /// Zero an account's principal once its ballots have expired, returning
    /// the amount freed for withdrawal.
    pub(crate) fn internal_withdraw(&mut self, account_id: u64, cur_window: u32) -> (r: Result<
        u128,
        ErrorCode,
    >)
        requires
            old(self).inv(),
        ensures
            final(self).inv(),
            final(self).data == (ContractData { accounts: final(self).data.accounts, ..old(self).data }),
            ({
                let m = old(self).data.accounts@;
                if !m.contains_key(account_id) {
                    r == Err::<u128, ErrorCode>(ErrorCode::NotRegistered) && final(self).data.accounts@ == m
                } else {
                    let a0 = m[account_id].as_current();
                    if a0.live_ballot(cur_window) != 0 || a0.locking_amount == 0 {
                        r == Err::<u128, ErrorCode>(ErrorCode::NothingToWithdraw) && final(self).data.accounts@ == m
                    } else {
                        let a1 = final(self).data.accounts@[account_id].as_current();
                        &&& r == Ok::<u128, ErrorCode>(a0.locking_amount)
                        &&& final(self).data.accounts@ == m.insert(
                            account_id,
                            final(self).data.accounts@[account_id],
                        )
                        &&& final(self).data.accounts@.contains_key(account_id)
                        &&& a1.locking_amount == 0
                        &&& a1.ballot_amount == 0
                        &&& a1.unlocking_session_id == a0.unlocking_session_id
                        &&& a1.proposals@ == a0.proposals@
                    }
                }
            }),
    {
        let (live, locking): (u128, u128) = match self.data.accounts.get(&account_id) {
            None => {
                return Err(ErrorCode::NotRegistered);
            },
            Some(va) => match va {
                VAccount::Current(acc) => (acc.sync_ballot(cur_window), acc.locking_amount),
            },
        };
        if live != 0 || locking == 0 {
            return Err(ErrorCode::NothingToWithdraw);
        }
        let va = match self.data.accounts.remove(&account_id) {
            Some(va) => va,
            None => {
                proof {
                    assert(false);
                }
                return Err(ErrorCode::NotRegistered);
            },
        };
        let mut account = va.into_current();
        account.touch(cur_window);
        let amount = account.remove_locking();
        self.data.accounts.insert(account_id, VAccount::Current(account));
        proof {
            assert(final(self).data.accounts@ =~= old(self).data.accounts@.insert(
                account_id,
                final(self).data.accounts@[account_id],
            ));
        }
        Ok(amount)
    }

    /// Withdraw unlocked tokens: refreshes the ring, zeroes the caller's
    /// expired principal optimistically, and hands back the token transfer
    /// the host must perform; `callback_post_withdraw` reconciles a failure.
    pub fn withdraw(&mut self, account_id: u64, now: u64) -> (r: Result<TokenTransfer, ErrorCode>)
        requires
            old(self).inv(),
            old(self).time_ok(now),
        ensures
            final(self).inv(),
            !old(self).launched(now) ==> r == Err::<TokenTransfer, ErrorCode>(
                ErrorCode::NotLaunched,
            ) && *final(self) == *old(self),
            old(self).launched(now) ==> {
                let w = old(self).window_of(now) as u32;
                let m = old(self).data.accounts@;
                &&& final(self).synced(now)
                &&& final(self).ring_refreshed_from(*old(self), now)
                &&& final(self).data == (ContractData {
                    accounts: final(self).data.accounts,
                    cur_lock_amount: final(self).data.cur_lock_amount,
                    sessions: final(self).data.sessions,
                    proposal_ids_in_sessions: final(self).data.proposal_ids_in_sessions,
                    cur_session: final(self).data.cur_session,
                    initialized: true,
                    cur_total_ballot: final(self).data.cur_total_ballot,
                    ..old(self).data
                })
                &&& final(self).data.cur_total_ballot as int == old(self).live_ballots(now)
                &&& if !m.contains_key(account_id) {
                    &&& r == Err::<TokenTransfer, ErrorCode>(ErrorCode::NotRegistered)
                    &&& final(self).data.accounts@ == m
                    &&& final(self).data.cur_lock_amount == old(self).data.cur_lock_amount
                } else {
                    let a0 = m[account_id].as_current();
                    if a0.live_ballot(w) != 0 || a0.locking_amount == 0 {
                        &&& r == Err::<TokenTransfer, ErrorCode>(ErrorCode::NothingToWithdraw)
                        &&& final(self).data.accounts@ == m
                        &&& final(self).data.cur_lock_amount == old(self).data.cur_lock_amount
                    } else if a0.locking_amount > old(self).data.cur_lock_amount {
                        &&& r == Err::<TokenTransfer, ErrorCode>(ErrorCode::MathOverflow)
                        &&& final(self).data.accounts@ == m
                        &&& final(self).data.cur_lock_amount == old(self).data.cur_lock_amount
                    } else {
                        let a1 = final(self).data.accounts@[account_id].as_current();
                        &&& r == Ok::<TokenTransfer, ErrorCode>(TokenTransfer {
                            to: account_id,
                            amount: a0.locking_amount,
                        })
                        &&& final(self).data.cur_lock_amount == old(self).data.cur_lock_amount
                            - a0.locking_amount
                        &&& final(self).data.accounts@ == m.insert(
                            account_id,
                            final(self).data.accounts@[account_id],
                        )
                        &&& final(self).data.accounts@.contains_key(account_id)
                        &&& a1.locking_amount == 0
                        &&& a1.ballot_amount == 0
                        &&& a1.unlocking_session_id == a0.unlocking_session_id
                        &&& a1.proposals@ == a0.proposals@
                    }
                }
            },
    {
        match self.fresh_sessions(now) {
            Ok(()) => (),
            Err(e) => {
                return Err(e);
            },
        }
        let w = self.get_cur_session_id(now);
        let (live, locking): (u128, u128) = match self.data.accounts.get(&account_id) {
            None => {
                return Err(ErrorCode::NotRegistered);
            },
            Some(va) => match va {
                VAccount::Current(acc) => (acc.sync_ballot(w), acc.locking_amount),
            },
        };
        if live != 0 || locking == 0 {
            return Err(ErrorCode::NothingToWithdraw);
        }
        if locking > self.data.cur_lock_amount {
            return Err(ErrorCode::MathOverflow);
        }
        let unlocked = match self.internal_withdraw(account_id, w) {
            Ok(amount) => amount,
            Err(_) => {
                proof {
                    assert(false);
                }
                return Err(ErrorCode::NothingToWithdraw);
            },
        };
        self.data.cur_lock_amount = self.data.cur_lock_amount - unlocked;
        Ok(TokenTransfer { to: account_id, amount: unlocked })
    }

    /// Reconcile a withdrawal transfer outcome. On success nothing is left to
    /// do; on failure the withdrawn principal is restored to the account if
    /// it is still registered (else the tokens stay with the contract).
    /// Returns whether a compensation was applied.
    pub fn callback_post_withdraw(&mut self, sender_id: u64, amount: u128, success: bool) -> (r:
        Result<bool, ErrorCode>)
        requires
            old(self).inv(),
        ensures
            final(self).inv(),
            final(self).data == (ContractData {
                accounts: final(self).data.accounts,
                cur_lock_amount: final(self).data.cur_lock_amount,
                ..old(self).data
            }),
            ({
                let m = old(self).data.accounts@;
                if success || !m.contains_key(sender_id) {
                    &&& r == Ok::<bool, ErrorCode>(false)
                    &&& final(self).data.accounts@ == m
                    &&& final(self).data.cur_lock_amount == old(self).data.cur_lock_amount
                } else {
                    let a0 = m[sender_id].as_current();
                    if a0.locking_amount + amount > u128::MAX || old(self).data.cur_lock_amount
                        + amount > u128::MAX {
                        &&& r == Err::<bool, ErrorCode>(ErrorCode::MathOverflow)
                        &&& final(self).data.accounts@ == m
                        &&& final(self).data.cur_lock_amount == old(self).data.cur_lock_amount
                    } else {
                        let a1 = final(self).data.accounts@[sender_id].as_current();
                        &&& r == Ok::<bool, ErrorCode>(true)
                        &&& final(self).data.cur_lock_amount == old(self).data.cur_lock_amount
                            + amount
                        &&& final(self).data.accounts@ == m.insert(
                            sender_id,
                            final(self).data.accounts@[sender_id],
                        )
                        &&& final(self).data.accounts@.contains_key(sender_id)
                        &&& a1.locking_amount == a0.locking_amount + amount
                        &&& a1.ballot_amount == a0.ballot_amount
                        &&& a1.unlocking_session_id == a0.unlocking_session_id
                        &&& a1.proposals@ == a0.proposals@
                    }
                }
            }),
    {
        if success {
            return Ok(false);
        }
        let locking: u128 = match self.data.accounts.get(&sender_id) {
            None => {
                return Ok(false);
            },
            Some(va) => match va {
                VAccount::Current(acc) => acc.locking_amount,
            },
        };
        let new_locking = match locking.checked_add(amount) {
            Some(v) => v,
            None => {
                return Err(ErrorCode::MathOverflow);
            },
        };
        let new_lock_total = match self.data.cur_lock_amount.checked_add(amount) {
            Some(v) => v,
            None => {
                return Err(ErrorCode::MathOverflow);
            },
        };
        let va = match self.data.accounts.remove(&sender_id) {
            Some(va) => va,
            None => {
                proof {
                    assert(false);
                }
                return Ok(false);
            },
        };
        let mut account = va.into_current();
        account.locking_amount = new_locking;
        self.data.cur_lock_amount = new_lock_total;
        self.data.accounts.insert(sender_id, VAccount::Current(account));
        proof {
            assert(final(self).data.accounts@ =~= old(self).data.accounts@.insert(
                sender_id,
                final(self).data.accounts@[sender_id],
            ));
        }
        Ok(true)
    }

    /// Apply a lock on a ring already synchronized with `now`. `lasts == 0`
    /// appends to the caller's live lock without moving its expiry, and
    /// re-applies the caller's standing votes on this window's in-progress
    /// proposals with the delta power; `lasts > 0` starts a fresh lock over
    /// that many windows. Returns the granted ballot power and the bond
    /// payouts that vote propagation released.
    #[verifier::loop_isolation(false)]
    pub fn internal_lock(
        &mut self,
        account_id: u64,
        locking_amount: u128,
        lasts: u32,
        now: u64,
    ) -> (r: Result<(u128, Vec<Payout>), ErrorCode>)
        requires
            old(self).inv(),
            old(self).synced(now),
            lasts as int <= NUM_SESSIONS as int,
        ensures
            final(self).inv(),
            final(self).synced(now),
            final(self).data == (ContractData {
                sessions: final(self).data.sessions,
                cur_total_ballot: final(self).data.cur_total_ballot,
                accounts: final(self).data.accounts,
                proposals: final(self).data.proposals,
                ..old(self).data
            }),
            ({
                let w = old(self).head_id() as u32;
                let m = old(self).data.accounts@;
                if !m.contains_key(account_id) {
                    r == Err::<(u128, Vec<Payout>), ErrorCode>(ErrorCode::NotRegistered) && *final(self) == *old(self)
                } else {
                    let a0 = m[account_id].as_current();
                    let b0 = a0.live_ballot(w);
                    if lasts == 0 && b0 == 0 {
                        r == Err::<(u128, Vec<Payout>), ErrorCode>(ErrorCode::NoActiveLock)
                            && *final(self) == *old(self)
                    } else if lasts != 0 && b0 != 0 {
                        r == Err::<(u128, Vec<Payout>), ErrorCode>(ErrorCode::ActiveLockExists)
                            && *final(self) == *old(self)
                    } else {
                        let rem = old(self).remaining_days(now);
                        let u1 = if lasts == 0 {
                            a0.unlocking_session_id
                        } else {
                            (w + lasts) as u32
                        };
                        let delta = lock_delta(
                            locking_amount,
                            a0.locking_amount,
                            lasts,
                            rem,
                            a0.unlocking_session_id,
                            w,
                        );
                        if !lock_fits(
                            locking_amount,
                            a0.locking_amount,
                            b0,
                            lasts,
                            rem,
                            a0.unlocking_session_id,
                            w,
                            old(self).data.cur_total_ballot,
                        ) {
                            r == Err::<(u128, Vec<Payout>), ErrorCode>(ErrorCode::MathOverflow)
                                && *final(self) == *old(self)
                        } else {
                            match r {
                                Err(e) => e == ErrorCode::MathOverflow && lasts == 0,
                                Ok((granted, payouts)) => {
                                    let pos = old(self).ring_pos(u1 - 1 - w);
                                    let a1 = final(self).data.accounts@[account_id].as_current();
                                    let fold = propagated(
                                        old(self).data.proposals@,
                                        a0.proposals@,
                                        Seq::<Payout>::empty(),
                                        old(self).data.proposal_ids_in_sessions@[w as int]@,
                                        delta as u128,
                                        (old(self).data.cur_total_ballot + delta) as u128,
                                        old(self).data.nonsense_threshold,
                                        old(self).data.genesis_timestamp,
                                        now,
                                    );
                                    &&& granted == delta
                                    &&& final(self).data.cur_total_ballot == old(self).data.cur_total_ballot + delta
                                    &&& final(self).data.sessions@ == old(self).data.sessions@.update(
                                        pos,
                                        SessionInfo {
                                            session_id: (u1 - 1) as u32,
                                            expire_amount: (old(self).data.sessions@[pos].expire_amount + delta) as u128,
                                        },
                                    )
                                    &&& final(self).data.accounts@ == m.insert(
                                        account_id,
                                        final(self).data.accounts@[account_id],
                                    )
                                    &&& final(self).data.accounts@.contains_key(account_id)
                                    &&& a1.locking_amount == a0.locking_amount + locking_amount
                                    &&& a1.ballot_amount == b0 + delta
                                    &&& a1.unlocking_session_id == u1
                                    &&& if lasts == 0 {
                                        &&& final(self).data.proposals@ == fold.0
                                        &&& a1.proposals@ == fold.1
                                        &&& payouts@ == fold.2
                                    } else {
                                        &&& final(self).data.proposals@ == old(self).data.proposals@
                                        &&& a1.proposals@ == a0.proposals@
                                        &&& payouts@ == Seq::<Payout>::empty()
                                    }
                                },
                            }
                        }
                    }
                }
            }),
    {
        let ghost d0 = self.data;
        let w: u32 = self.get_cur_session_id(now);
        let genesis = self.data.genesis_timestamp;
        let th = self.data.nonsense_threshold;
        let (b0, locking0, unlocking0): (u128, u128, u32) = match self.data.accounts.get(
            &account_id,
        ) {
            None => {
                return Err(ErrorCode::NotRegistered);
            },
            Some(va) => match va {
                VAccount::Current(acc) => (
                    acc.sync_ballot(w),
                    acc.locking_amount,
                    acc.unlocking_session_id,
                ),
            },
        };
        let (delta, new_unlocking): (u128, u32) = if lasts == 0 {
            if b0 == 0 {
                return Err(ErrorCode::NoActiveLock);
            }
            let windows_left: u32 = unlocking0 - w;
            let delta = match locking_amount.checked_mul(windows_left as u128) {
                Some(v) => v,
                None => {
                    return Err(ErrorCode::MathOverflow);
                },
            };
            (delta, unlocking0)
        } else {
            if b0 != 0 {
                return Err(ErrorCode::ActiveLockExists);
            }
            proof {
                vstd::arithmetic::div_mod::lemma_fundamental_div_mod(
                    (now - genesis) as int,
                    SESSION_INTERVAL as int,
                );
                vstd::arithmetic::mul::lemma_mul_inequality(
                    w as int,
                    MAX_SESSION_ID as int,
                    SESSION_INTERVAL as int,
                );
            }
            let elapsed: u64 = now - genesis - (w as u64) * SESSION_INTERVAL;
            let elapsed_days: u64 = nano_to_day(elapsed);
            proof {
                vstd::arithmetic::div_mod::lemma_div_is_ordered(
                    elapsed as int,
                    SESSION_INTERVAL as int - 1,
                    NANOS_PER_DAY as int,
                );
                vstd::arithmetic::div_mod::lemma_fundamental_div_mod_converse(
                    SESSION_INTERVAL as int - 1,
                    NANOS_PER_DAY as int,
                    29,
                    NANOS_PER_DAY as int - 1,
                );
            }
            let remaining: u64 = DAYS_PER_SESSION - elapsed_days;
            let base = match locking_amount.checked_add(locking0) {
                Some(v) => v,
                None => {
                    return Err(ErrorCode::MathOverflow);
                },
            };
            let t1 = match base.checked_mul((lasts - 1) as u128) {
                Some(v) => v,
                None => {
                    return Err(ErrorCode::MathOverflow);
                },
            };
            let prod = match locking_amount.checked_mul(remaining as u128) {
                Some(v) => v,
                None => {
                    return Err(ErrorCode::MathOverflow);
                },
            };
            let partial = prod / (DAYS_PER_SESSION as u128);
            let delta = match t1.checked_add(partial) {
                Some(v) => v,
                None => {
                    return Err(ErrorCode::MathOverflow);
                },
            };
            (delta, w + lasts)
        };
        let new_total = match self.data.cur_total_ballot.checked_add(delta) {
            Some(v) => v,
            None => {
                return Err(ErrorCode::MathOverflow);
            },
        };
        if locking0.checked_add(locking_amount).is_none() {
            return Err(ErrorCode::MathOverflow);
        }
        if b0.checked_add(delta).is_none() {
            return Err(ErrorCode::MathOverflow);
        }
        // Locate the slot of the lock's last live window and book the
        // expiring power there.
        let off: usize = (new_unlocking - 1 - w) as usize;
        let end: usize = if self.data.cur_session + off >= NUM_SESSIONS {
            self.data.cur_session + off - NUM_SESSIONS
        } else {
            self.data.cur_session + off
        };
        let slot = self.data.sessions[end];
        proof {
            crate::session::lemma_sum_expire_element_le(self.data.sessions@, end as int);
            assert(slot.session_id as int == new_unlocking - 1);
        }
        self.data.cur_total_ballot = new_total;
        self.data.sessions.set(
            end,
            SessionInfo { session_id: slot.session_id, expire_amount: slot.expire_amount + delta },
        );
        proof {
            crate::session::lemma_sum_expire_update(
                d0.sessions@,
                end as int,
                SessionInfo {
                    session_id: slot.session_id,
                    expire_amount: (slot.expire_amount + delta) as u128,
                },
            );
        }
        let va = match self.data.accounts.remove(&account_id) {
            Some(va) => va,
            None => {
                proof {
                    assert(false);
                }
                return Err(ErrorCode::NotRegistered);
            },
        };
        let mut account = va.into_current();
        account.touch(w);
        account.add_locking(locking_amount, delta, new_unlocking);
        let mut payouts: Vec<Payout> = Vec::new();
        if lasts == 0 {
            let bucket = crate::utils::copy_ids(
                &self.data.proposal_ids_in_sessions[w as usize],
            );
            let ghost d1 = self.data;
            let ghost acct1 = account;
            let ghost props0 = self.data.proposals@;
            let ghost votes0 = account.proposals@;
            let ghost target = propagated(
                props0,
                votes0,
                Seq::<Payout>::empty(),
                bucket@,
                delta,
                new_total,
                th,
                genesis,
                now,
            );
            proof {
                assert(bucket@.skip(0) =~= bucket@);
                assert(payouts@ =~= Seq::<Payout>::empty());
            }
            let mut i: usize = 0;
            while i < bucket.len()
                invariant
                    i <= bucket@.len(),
                    self.inv(),
                    self.synced(now),
                    self.data == (ContractData { proposals: self.data.proposals, ..d1 }),
                    account.locking_amount == acct1.locking_amount,
                    account.ballot_amount == acct1.ballot_amount,
                    account.unlocking_session_id == acct1.unlocking_session_id,
                    account.unlocking_session_id as int <= self.head_id() + NUM_SESSIONS as int,
                    bucket@ == d1.proposal_ids_in_sessions@[d1.sessions@[d1.cur_session as int].session_id as int]@,
                    d1.sessions@[d1.cur_session as int].session_id == w,
                    w as int == self.head_id(),
                    genesis == d1.genesis_timestamp,
                    th == d1.nonsense_threshold,
                    new_total == d1.cur_total_ballot,
                    propagated(
                        self.data.proposals@,
                        account.proposals@,
                        payouts@,
                        bucket@.skip(i as int),
                        delta,
                        new_total,
                        th,
                        genesis,
                        now,
                    ) == target,
                decreases bucket@.len() - i,
            {
                let pid = bucket[i];
                proof {
                    assert(bucket@.skip(i as int)[0] == bucket@[i as int]);
                    assert(bucket@.skip(i as int).skip(1) =~= bucket@.skip(i as int + 1));
                    assert(self.data.proposals@.contains_key(pid));
                }
                let ghost props_cur = self.data.proposals@;
                let ghost votes_cur = account.proposals@;
                let ghost pays_cur = payouts@;
                let av_opt: Option<AccountVote> = match account.proposals.get(&pid) {
                    Some(av) => Some(*av),
                    None => None,
                };
                match av_opt {
                    None => (),
                    Some(av) => {
                        match self.internal_append_vote(pid, av.vote, delta, now) {
                            Ok((accepted, paid)) => {
                                match paid {
                                    Some(p) => payouts.push(p),
                                    None => (),
                                }
                                let new_amt = match av.amount.checked_add(accepted) {
                                    Some(v) => v,
                                    None => {
                                        self.data.accounts.insert(
                                            account_id,
                                            VAccount::Current(account),
                                        );
                                        return Err(ErrorCode::MathOverflow);
                                    },
                                };
                                account.proposals.insert(
                                    pid,
                                    AccountVote { vote: av.vote, amount: new_amt },
                                );
                                proof {
                                    let p0 = props_cur[pid].as_current();
                                    if p0.derived_status(genesis, now)
                                        == ProposalStatus::InProgress {
                                        assert(account.proposals@ =~= votes_cur.insert(
                                            pid,
                                            AccountVote {
                                                vote: votes_cur[pid].vote,
                                                amount: (votes_cur[pid].amount + delta) as u128,
                                            },
                                        ));
                                    } else {
                                        assert(account.proposals@ =~= votes_cur);
                                        assert(payouts@ =~= pays_cur);
                                    }
                                }
                            },
                            Err(e) => {
                                proof {
                                    assert(e == ErrorCode::MathOverflow);
                                }
                                self.data.accounts.insert(account_id, VAccount::Current(account));
                                return Err(ErrorCode::MathOverflow);
                            },
                        }
                    },
                }
                i += 1;
            }
            proof {
                assert(bucket@.skip(bucket@.len() as int) =~= Seq::<u32>::empty());
            }
        }
        self.data.accounts.insert(account_id, VAccount::Current(account));
        proof {
            assert(final(self).data.accounts@ =~= old(self).data.accounts@.insert(
                account_id,
                final(self).data.accounts@[account_id],
            ));
        }
        Ok((delta, payouts))
    }

    /// Receive locked tokens: the entry point behind the token's transfer
    /// call. An empty message appends to the caller's live lock; a decimal
    /// window count starts a new lock over that many windows. Returns the
    /// unused token amount (always zero on success) and the bond payouts that
    /// vote propagation released.
    #[verifier::rlimit(100)]
    #[verifier::spinoff_prover]
    pub fn ft_on_transfer(
        &mut self,
        token_in: u64,
        sender_id: u64,
        amount: u128,
        msg: Vec<u8>,
        now: u64,
    ) -> (r: Result<(u128, Vec<Payout>), ErrorCode>)
        requires
            old(self).inv(),
            old(self).time_ok(now),
        ensures
            final(self).inv(),
            !old(self).launched(now) ==> r == Err::<(u128, Vec<Payout>), ErrorCode>(
                ErrorCode::NotLaunched,
            ) && *final(self) == *old(self),
            old(self).launched(now) ==> ({
                let w = old(self).window_of(now) as u32;
                let m = old(self).data.accounts@;
                let live = old(self).live_ballots(now);
                let lasts_opt = crate::utils::parse_windows_spec(msg@);
                &&& final(self).synced(now)
                &&& final(self).data == (ContractData {
                    sessions: final(self).data.sessions,
                    cur_total_ballot: final(self).data.cur_total_ballot,
                    cur_lock_amount: final(self).data.cur_lock_amount,
                    accounts: final(self).data.accounts,
                    proposals: final(self).data.proposals,
                    proposal_ids_in_sessions: final(self).data.proposal_ids_in_sessions,
                    cur_session: final(self).data.cur_session,
                    initialized: true,
                    ..old(self).data
                })
                &&& final(self).buckets_refreshed_from(*old(self), now)
                &&& if token_in != old(self).data.locked_token {
                    &&& r == Err::<(u128, Vec<Payout>), ErrorCode>(ErrorCode::IllegalToken)
                    &&& final(self).unchanged_ledger(*old(self), now)
                } else if msg@.len() != 0 && (lasts_opt is None || lasts_opt->Some_0 == 0
                    || lasts_opt->Some_0 as int > NUM_SESSIONS as int) {
                    &&& r == Err::<(u128, Vec<Payout>), ErrorCode>(ErrorCode::IllegalMsg)
                    &&& final(self).unchanged_ledger(*old(self), now)
                } else if old(self).data.cur_lock_amount + amount > u128::MAX {
                    &&& r == Err::<(u128, Vec<Payout>), ErrorCode>(ErrorCode::MathOverflow)
                    &&& final(self).unchanged_ledger(*old(self), now)
                } else {
                    let lasts = if msg@.len() == 0 {
                        0u32
                    } else {
                        lasts_opt->Some_0
                    };
                    if !m.contains_key(sender_id) {
                        &&& r == Err::<(u128, Vec<Payout>), ErrorCode>(ErrorCode::NotRegistered)
                        &&& final(self).unchanged_ledger(*old(self), now)
                    } else {
                        let a0 = m[sender_id].as_current();
                        let b0 = a0.live_ballot(w);
                        if lasts == 0 && b0 == 0 {
                            &&& r == Err::<(u128, Vec<Payout>), ErrorCode>(ErrorCode::NoActiveLock)
                            &&& final(self).unchanged_ledger(*old(self), now)
                        } else if lasts != 0 && b0 != 0 {
                            &&& r == Err::<(u128, Vec<Payout>), ErrorCode>(
                                ErrorCode::ActiveLockExists,
                            )
                            &&& final(self).unchanged_ledger(*old(self), now)
                        } else {
                            let rem = 30 - (((now - old(self).data.genesis_timestamp) as int - (
                            w as int) * (SESSION_INTERVAL as int)) / (NANOS_PER_DAY as int));
                            let u1 = if lasts == 0 {
                                a0.unlocking_session_id
                            } else {
                                (w + lasts) as u32
                            };
                            let delta = lock_delta(
                                amount,
                                a0.locking_amount,
                                lasts,
                                rem,
                                a0.unlocking_session_id,
                                w,
                            );
                            if !lock_fits(
                                amount,
                                a0.locking_amount,
                                b0,
                                lasts,
                                rem,
                                a0.unlocking_session_id,
                                w,
                                live as u128,
                            ) {
                                &&& r == Err::<(u128, Vec<Payout>), ErrorCode>(
                                    ErrorCode::MathOverflow,
                                )
                                &&& final(self).unchanged_ledger(*old(self), now)
                            } else {
                                match r {
                                    Err(e) => e == ErrorCode::MathOverflow && lasts == 0,
                                    Ok((unused, payouts)) => {
                                        let a1 = final(self).data.accounts@[sender_id].as_current();
                                        let fold = propagated(
                                            old(self).data.proposals@,
                                            a0.proposals@,
                                            Seq::<Payout>::empty(),
                                            if (w as int) < old(self).data.proposal_ids_in_sessions@.len() {
                                                old(self).data.proposal_ids_in_sessions@[w as int]@
                                            } else {
                                                Seq::<u32>::empty()
                                            },
                                            delta as u128,
                                            (live + delta) as u128,
                                            old(self).data.nonsense_threshold,
                                            old(self).data.genesis_timestamp,
                                            now,
                                        );
                                        &&& unused == 0
                                        &&& final(self).data.cur_total_ballot == live + delta
                                        &&& final(self).data.cur_lock_amount == old(self).data.cur_lock_amount + amount
                                        &&& final(self).data.accounts@ == m.insert(
                                            sender_id,
                                            final(self).data.accounts@[sender_id],
                                        )
                                        &&& final(self).data.accounts@.contains_key(sender_id)
                                        &&& a1.locking_amount == a0.locking_amount + amount
                                        &&& a1.ballot_amount == b0 + delta
                                        &&& a1.unlocking_session_id == u1
                                        &&& (forall|i: int|
                                            0 <= i < NUM_SESSIONS && (#[trigger] final(self).data.sessions@[i]).session_id as int == u1 - 1
                                                ==> final(self).data.sessions@[i].expire_amount
                                                == delta + (if old(self).data.initialized && old(self).data.sessions@[i].session_id as int
                                                == u1 - 1 {
                                                old(self).data.sessions@[i].expire_amount as int
                                            } else {
                                                0
                                            }))
                                        &&& (forall|i: int|
                                            0 <= i < NUM_SESSIONS && (#[trigger] final(self).data.sessions@[i]).session_id as int != u1 - 1
                                                && old(self).data.initialized && (
                                            old(self).data.sessions@[i].session_id as int) >= w
                                                ==> final(self).data.sessions@[i] == old(self).data.sessions@[i])
                                        &&& if lasts == 0 {
                                            &&& final(self).data.proposals@ == fold.0
                                            &&& a1.proposals@ == fold.1
                                            &&& payouts@ == fold.2
                                        } else {
                                            &&& final(self).data.proposals@ == old(self).data.proposals@
                                            &&& a1.proposals@ == a0.proposals@
                                            &&& payouts@ == Seq::<Payout>::empty()
                                        }
                                    },
                                }
                            }
                        }
                    }
                }
            }),
    {
        match self.fresh_sessions(now) {
            Ok(()) => (),
            Err(e) => {
                return Err(e);
            },
        }
        let ghost mid = *self;
        if token_in != self.data.locked_token {
            return Err(ErrorCode::IllegalToken);
        }
        let lasts: u32 = if msg.len() == 0 {
            0
        } else {
            match crate::utils::parse_windows(&msg) {
                None => {
                    return Err(ErrorCode::IllegalMsg);
                },
                Some(p) => {
                    if p == 0 || p as usize > NUM_SESSIONS {
                        return Err(ErrorCode::IllegalMsg);
                    }
                    p
                },
            }
        };
        let new_lock_amount = match self.data.cur_lock_amount.checked_add(amount) {
            Some(v) => v,
            None => {
                return Err(ErrorCode::MathOverflow);
            },
        };
        let (granted, payouts) = match self.internal_lock(sender_id, amount, lasts, now) {
            Ok(v) => v,
            Err(e) => {
                proof {
                    if e != ErrorCode::MathOverflow {
                        assert(*self == mid);
                    }
                }
                return Err(e);
            },
        };
        self.data.cur_lock_amount = new_lock_amount;
        proof {
            let wg = mid.head_id() as u32;
            let a0 = mid.data.accounts@[sender_id].as_current();
            let u1 = if lasts == 0 {
                a0.unlocking_session_id
            } else {
                (wg + lasts) as u32
            };
            assert(wg == old(self).window_of(now) as u32);
            assert(a0 == old(self).data.accounts@[sender_id].as_current());
            assert(lasts == (if msg@.len() == 0 {
                0u32
            } else {
                crate::utils::parse_windows_spec(msg@)->Some_0
            }));
            let rem_e = 30 - (((now - old(self).data.genesis_timestamp) as int - (wg as int) * (
            SESSION_INTERVAL as int)) / (NANOS_PER_DAY as int));
            assert(rem_e == mid.remaining_days(now));
            assert(granted as int == lock_delta(
                amount,
                a0.locking_amount,
                lasts,
                rem_e,
                a0.unlocking_session_id,
                wg,
            ));
            let pos = mid.ring_pos(u1 - 1 - wg);
            assert(0 <= pos < NUM_SESSIONS as int);
            assert(self.data.sessions@ == mid.data.sessions@.update(
                pos,
                SessionInfo {
                    session_id: (u1 - 1) as u32,
                    expire_amount: (mid.data.sessions@[pos].expire_amount + granted) as u128,
                },
            ));
            crate::session::lemma_sum_expire_element_le(mid.data.sessions@, pos);
            assert(mid.data.sessions@[pos].expire_amount <= mid.data.cur_total_ballot);
            assert(self.data.cur_total_ballot == mid.data.cur_total_ballot + granted);
            assert(mid.data.sessions@[pos].expire_amount + granted <= u128::MAX);
            assert(mid.data.sessions@[pos].session_id as int == u1 - 1) by {
                let h = mid.data.cur_session as int;
                if pos >= h {
                    assert(mid.data.sessions@[pos].session_id as int == mid.head_id() + (pos - h));
                } else {
                    assert(mid.data.sessions@[pos].session_id as int == mid.head_id() + (
                    NUM_SESSIONS as int - h) + pos);
                }
            }
            assert forall|i: int|
                0 <= i < NUM_SESSIONS && i != pos implies mid.data.sessions@[i].session_id as int
                    != u1 - 1 by {
                let h = mid.data.cur_session as int;
                if i >= h {
                    assert(mid.data.sessions@[i].session_id as int == mid.head_id() + (i - h));
                } else {
                    assert(mid.data.sessions@[i].session_id as int == mid.head_id() + (
                    NUM_SESSIONS as int - h) + i);
                }
                if pos >= h {
                    assert(mid.data.sessions@[pos].session_id as int == mid.head_id() + (pos - h));
                } else {
                    assert(mid.data.sessions@[pos].session_id as int == mid.head_id() + (
                    NUM_SESSIONS as int - h) + pos);
                }
            }
            assert forall|i: int|
                0 <= i < NUM_SESSIONS && (self.data.sessions@[i].session_id as int) == u1 - 1
                    implies self.data.sessions@[i].expire_amount == granted + (if old(
                    self,
                ).data.initialized && old(self).data.sessions@[i].session_id as int == u1 - 1 {
                    old(self).data.sessions@[i].expire_amount as int
                } else {
                    0
                }) by {
                let h = mid.data.cur_session as int;
                if i != pos {
                    assert(self.data.sessions@[i] == mid.data.sessions@[i]);
                    if i >= h {
                        assert(mid.data.sessions@[i].session_id as int == mid.head_id() + (i - h));
                    } else {
                        assert(mid.data.sessions@[i].session_id as int == mid.head_id() + (
                        NUM_SESSIONS as int - h) + i);
                    }
                    if pos >= h {
                        assert(mid.data.sessions@[pos].session_id as int == mid.head_id() + (pos
                            - h));
                    } else {
                        assert(mid.data.sessions@[pos].session_id as int == mid.head_id() + (
                        NUM_SESSIONS as int - h) + pos);
                    }
                    assert(false);
                }
                assert(i == pos);
                if old(self).data.initialized && (old(self).data.sessions@[pos].session_id as int)
                    >= wg as int {
                    assert(mid.data.sessions@[pos] == old(self).data.sessions@[pos]);
                } else {
                    assert(mid.data.sessions@[pos].expire_amount == 0);
                }
            }
            assert forall|i: int|
                0 <= i < NUM_SESSIONS && (self.data.sessions@[i].session_id as int) != u1 - 1
                    && old(self).data.initialized && (
                old(self).data.sessions@[i].session_id as int) >= wg as int
                    implies self.data.sessions@[i] == old(self).data.sessions@[i] by {
                assert(i != pos);
                assert(self.data.sessions@[i] == mid.data.sessions@[i]);
            }
        }
        Ok((0, payouts))
    }

    /// After the refresh for `now`, the ledger is untouched: accounts,
    /// proposals, both totals, and the live ballot power all read as before.
    pub open spec fn unchanged_ledger(self, pre: Contract, now: u64) -> bool {
        &&& self.data.accounts@ == pre.data.accounts@
        &&& self.data.proposals@ == pre.data.proposals@
        &&& self.data.cur_lock_amount == pre.data.cur_lock_amount
        &&& self.data.cur_total_ballot as int == pre.live_ballots(now)
        &&& self.ring_slots_refreshed_from(pre, now)
    }
}

} // verus!
