//! Proposal data model: vote policies, proposal lifecycle, vote tallying.

use vstd::prelude::*;

use crate::utils::{sec_to_nano, ErrorCode, Payout, Rational, NUM_SESSIONS, SESSION_INTERVAL};
use crate::account::{AccountVote, VAccount};
use crate::{Contract, ContractData};

verus! {

broadcast use vstd::std_specs::hash::group_hash_axioms;

/// Which of the two globally configured vote policies a proposal uses.
#[derive(Clone, Copy, Debug, PartialEq, Eq, Structural)]
pub enum PolicyType {
    Relative,
    Absolute,
}

/// How a proposal's outcome is decided from its tallies.
#[derive(Clone, Copy, Debug, PartialEq, Eq, Structural)]
pub enum VotePolicy {
    /// `Relative(quorum, threshold)`: once `quorum` of the total ballots have
    /// voted, the side reaching `threshold` of the cast votes wins.
    Relative(Rational, Rational),
    /// `Absolute(pass, fail)`: a side wins as soon as it reaches its share of
    /// the total ballots, regardless of participation.
    Absolute(Rational, Rational),
}

/// Status of a proposal.
#[derive(Clone, Copy, Debug, PartialEq, Eq, Structural)]
pub enum ProposalStatus {
    WarmUp,
    InProgress,
    /// If quorum voted yes, this proposal is successfully approved.
    Approved,
    /// If quorum voted no, this proposal is rejected. Bond is returned.
    Rejected,
    /// If quorum voted it nonsense (e.g. spam), this proposal is rejected
    /// and the bond is kept by the contract.
    Nonsense,
    /// Expired after its voting period.
    Expired,
}

/// Kinds of proposals, doing different action.
#[derive(Clone, Copy, Debug, PartialEq, Eq, Structural)]
pub enum ProposalKind {
    /// Just a single vote, with no execution.
    Vote,
}

/// Set of possible actions a voter can take.
#[derive(Clone, Copy, Debug, PartialEq, Eq, Structural)]
pub enum Action {
    /// Vote to approve the given proposal.
    VoteApprove,
    /// Vote to reject the given proposal.
    VoteReject,
    /// Vote to condemn the given proposal as nonsense (because it is spam).
    VoteNonsense,
}

/// Votes recorded in a proposal.
#[derive(Clone, Copy, Debug, PartialEq, Eq, Structural)]
pub enum Vote {
    Approve,
    Reject,
    /// The nonsense vote: approve removing the proposal as spam.
    Remove,
}

impl Action {
    /// The vote that this action casts.
    pub fn to_vote(&self) -> (v: Vote)
        ensures
            v == self.vote_spec(),
    {
        match self {
            Action::VoteApprove => Vote::Approve,
            Action::VoteReject => Vote::Reject,
            Action::VoteNonsense => Vote::Remove,
        }
    }

    /// Spec view of the action-to-vote mapping.
    pub open spec fn vote_spec(self) -> Vote {
        match self {
            Action::VoteApprove => Vote::Approve,
            Action::VoteReject => Vote::Reject,
            Action::VoteNonsense => Vote::Remove,
        }
    }
}

/// The tallies of a proposal: ballot power per opinion, and the snapshot of
/// the total ballot supply taken at the last vote.
#[derive(Clone, Copy, Debug, PartialEq, Eq, Structural)]
pub struct VoteCounts {
    pub approve: u128,
    pub reject: u128,
    pub nonsense: u128,
    /// Total ballot supply at the last tally update: the quorum denominator.
    pub total: u128,
}

impl VoteCounts {
    /// The all-zero tallies of a fresh proposal.
    pub fn zero() -> (r: VoteCounts)
        ensures
            r == (VoteCounts { approve: 0u128, reject: 0u128, nonsense: 0u128, total: 0u128 }),
    {
        VoteCounts { approve: 0, reject: 0, nonsense: 0, total: 0 }
    }

    /// The tally that `vote` adds to.
    pub open spec fn of(self, vote: Vote) -> u128 {
        match vote {
            Vote::Approve => self.approve,
            Vote::Reject => self.reject,
            Vote::Remove => self.nonsense,
        }
    }

    /// These tallies with `vote`'s count set to `amount`.
    pub open spec fn with(self, vote: Vote, amount: u128) -> VoteCounts {
        match vote {
            Vote::Approve => VoteCounts { approve: amount, ..self },
            Vote::Reject => VoteCounts { reject: amount, ..self },
            Vote::Remove => VoteCounts { nonsense: amount, ..self },
        }
    }
}

impl VotePolicy {
    /// What the tallies decide: the heart of the policy evaluator. Nonsense
    /// is checked first whatever the policy; the tie-break priority is fixed
    /// as nonsense, then reject, then approve.
    pub open spec fn judge_spec(
        self,
        counts: VoteCounts,
        nonsense_threshold: Rational,
    ) -> ProposalStatus {
        if nonsense_threshold.pass_spec(counts.nonsense, counts.total) {
            ProposalStatus::Nonsense
        } else {
            match self {
                VotePolicy::Relative(limit, threshold) => {
                    let voted = (counts.approve + counts.reject + counts.nonsense) as u128;
                    if limit.pass_spec(voted, counts.total) {
                        if threshold.pass_spec(counts.reject, voted) {
                            ProposalStatus::Rejected
                        } else if threshold.pass_spec(counts.approve, voted) {
                            ProposalStatus::Approved
                        } else {
                            ProposalStatus::InProgress
                        }
                    } else {
                        ProposalStatus::InProgress
                    }
                },
                VotePolicy::Absolute(pass_threshold, fail_threshold) => {
                    if fail_threshold.pass_spec(counts.reject, counts.total) {
                        ProposalStatus::Rejected
                    } else if pass_threshold.pass_spec(counts.approve, counts.total) {
                        ProposalStatus::Approved
                    } else {
                        ProposalStatus::InProgress
                    }
                },
            }
        }
    }

    /// To see whether the tallies take the proposal to a final state.
    pub fn judge(
        &self,
        counts: &VoteCounts,
        nonsense_threshold: &Rational,
    ) -> (status: ProposalStatus)
        requires
            counts.approve + counts.reject + counts.nonsense <= u128::MAX,
        ensures
            status == self.judge_spec(*counts, *nonsense_threshold),
    {
        if nonsense_threshold.pass(counts.nonsense, counts.total) {
            ProposalStatus::Nonsense
        } else {
            match self {
                VotePolicy::Relative(limit, threshold) => {
                    let voted: u128 = counts.approve + counts.reject + counts.nonsense;
                    if limit.pass(voted, counts.total) {
                        if threshold.pass(counts.reject, voted) {
                            ProposalStatus::Rejected
                        } else if threshold.pass(counts.approve, voted) {
                            ProposalStatus::Approved
                        } else {
                            ProposalStatus::InProgress
                        }
                    } else {
                        ProposalStatus::InProgress
                    }
                },
                VotePolicy::Absolute(pass_threshold, fail_threshold) => {
                    if fail_threshold.pass(counts.reject, counts.total) {
                        ProposalStatus::Rejected
                    } else if pass_threshold.pass(counts.approve, counts.total) {
                        ProposalStatus::Approved
                    } else {
                        ProposalStatus::InProgress
                    }
                },
            }
        }
    }

    /// Both fractions of the policy must be valid.
    pub fn is_valid(&self) -> (r: bool)
        ensures
            r == self.valid(),
    {
        match self {
            VotePolicy::Relative(limit, threshold) => limit.is_valid() && threshold.is_valid(),
            VotePolicy::Absolute(pass_threshold, fail_threshold) => pass_threshold.is_valid()
                && fail_threshold.is_valid(),
        }
    }

    /// Validity predicate for configured policies.
    pub open spec fn valid(self) -> bool {
        match self {
            VotePolicy::Relative(limit, threshold) => limit.valid() && threshold.valid(),
            VotePolicy::Absolute(pass_threshold, fail_threshold) => pass_threshold.valid()
                && fail_threshold.valid(),
        }
    }
}

/// Default relative policy: quorum 33/100 of total, threshold 1/2 of votes.
pub open spec fn spec_default_vp_relative() -> VotePolicy {
    VotePolicy::Relative(
        Rational { numerator: 33, denominator: 100 },
        Rational { numerator: 1, denominator: 2 },
    )
}

/// Build the default relative policy.
#[verifier::when_used_as_spec(spec_default_vp_relative)]
pub fn default_vp_relative() -> (r: VotePolicy)
    ensures
        r == spec_default_vp_relative(),
{
    VotePolicy::Relative(
        Rational { numerator: 33, denominator: 100 },
        Rational { numerator: 1, denominator: 2 },
    )
}

/// Default absolute policy: pass at 45/100 of total, fail at 33/100.
pub open spec fn spec_default_vp_absolute() -> VotePolicy {
    VotePolicy::Absolute(
        Rational { numerator: 45, denominator: 100 },
        Rational { numerator: 33, denominator: 100 },
    )
}

/// Build the default absolute policy.
#[verifier::when_used_as_spec(spec_default_vp_absolute)]
pub fn default_vp_absolute() -> (r: VotePolicy)
    ensures
        r == spec_default_vp_absolute(),
{
    VotePolicy::Absolute(
        Rational { numerator: 45, denominator: 100 },
        Rational { numerator: 33, denominator: 100 },
    )
}

/// A proposal sent to this engine.
pub struct Proposal {
    /// Original proposer (account handle).
    pub proposer: u64,
    /// The escrowed bond endorsing this proposal; zeroed once released.
    pub lock_amount: u128,
    /// Description of this proposal, as opaque bytes.
    pub description: Vec<u8>,
    /// Voting rule details.
    pub vote_policy: VotePolicy,
    /// Kind of proposal with relevant information.
    pub kind: ProposalKind,
    /// Stored status; the current status is derived from it and the clock.
    pub status: ProposalStatus,
    /// Ballot power per opinion and the total-supply snapshot.
    pub vote_counts: VoteCounts,
    /// The session window this proposal belongs to.
    pub session_id: u32,
    /// Nanoseconds after the session's start at which voting begins.
    pub start_offset: u64,
    /// Nanoseconds that voting lasts after `start_offset`;
    /// `start_offset + lasts` stays within one session window.
    pub lasts: u64,
}

/// Schema-version wrapper for persisted proposals.
pub enum VersionedProposal {
    Default(Proposal),
}

impl VersionedProposal {
    /// The proposal under the current schema.
    pub fn into_current(self) -> (r: Proposal)
        ensures
            r == self.as_current(),
    {
        match self {
            VersionedProposal::Default(p) => p,
        }
    }

    /// Spec view of the wrapped proposal.
    pub open spec fn as_current(self) -> Proposal {
        match self {
            VersionedProposal::Default(p) => p,
        }
    }
}

/// Rank of a status along the lifecycle: statuses only ever move forward.
pub open spec fn status_rank(s: ProposalStatus) -> int {
    match s {
        ProposalStatus::WarmUp => 0,
        ProposalStatus::InProgress => 1,
        _ => 2,
    }
}

/// Terminal statuses never change again.
pub open spec fn is_terminal(s: ProposalStatus) -> bool {
    status_rank(s) == 2
}

impl Proposal {
    /// When this proposal's voting begins, as a mathematical instant.
    pub open spec fn begin_ts(self, genesis: u64) -> int {
        genesis + self.session_id * SESSION_INTERVAL + self.start_offset
    }

    /// When this proposal's voting ends, as a mathematical instant.
    pub open spec fn end_ts(self, genesis: u64) -> int {
        self.begin_ts(genesis) + self.lasts
    }

    /// The status at time `now`, derived from the stored status: a pure,
    /// monotonic function of stored status and elapsed time.
    pub open spec fn derived_status(self, genesis: u64, now: u64) -> ProposalStatus {
        match self.status {
            ProposalStatus::WarmUp => if now > self.end_ts(genesis) {
                ProposalStatus::Expired
            } else if now > self.begin_ts(genesis) {
                ProposalStatus::InProgress
            } else {
                ProposalStatus::WarmUp
            },
            ProposalStatus::InProgress => if now > self.end_ts(genesis) {
                ProposalStatus::Expired
            } else {
                ProposalStatus::InProgress
            },
            _ => self.status,
        }
    }

    /// Compute the current status. Times too large for 64 bits lie in the
    /// future, so saturating comparisons agree with the mathematical spec.
    pub fn get_cur_status(&self, genesis_ts: u64, now: u64) -> (status: ProposalStatus)
        ensures
            status == self.derived_status(genesis_ts, now),
    {
        let after_begin: bool = match (self.session_id as u64).checked_mul(SESSION_INTERVAL) {
            Some(s) => match genesis_ts.checked_add(s) {
                Some(b) => match b.checked_add(self.start_offset) {
                    Some(begin) => now > begin,
                    None => false,
                },
                None => false,
            },
            None => false,
        };
        let after_end: bool = match (self.session_id as u64).checked_mul(SESSION_INTERVAL) {
            Some(s) => match genesis_ts.checked_add(s) {
                Some(b) => match b.checked_add(self.start_offset) {
                    Some(begin) => match begin.checked_add(self.lasts) {
                        Some(end) => now > end,
                        None => false,
                    },
                    None => false,
                },
                None => false,
            },
            None => false,
        };
        match self.status {
            ProposalStatus::WarmUp => {
                if after_end {
                    ProposalStatus::Expired
                } else if after_begin {
                    ProposalStatus::InProgress
                } else {
                    ProposalStatus::WarmUp
                }
            },
            ProposalStatus::InProgress => {
                if after_end {
                    ProposalStatus::Expired
                } else {
                    ProposalStatus::InProgress
                }
            },
            ProposalStatus::Approved => ProposalStatus::Approved,
            ProposalStatus::Rejected => ProposalStatus::Rejected,
            ProposalStatus::Nonsense => ProposalStatus::Nonsense,
            ProposalStatus::Expired => ProposalStatus::Expired,
        }
    }

    /// Whether adding `amount` to `vote`'s tally stays representable,
    /// including the vote sum the policy evaluator takes.
    pub open spec fn tally_fits(self, vote: Vote, amount: u128) -> bool {
        let c = self.vote_counts.with(vote, (self.vote_counts.of(vote) + amount) as u128);
        &&& self.vote_counts.of(vote) + amount <= u128::MAX
        &&& c.approve + c.reject + c.nonsense <= u128::MAX
    }

    /// The tallies and status after a vote of weight `amount` is applied
    /// with total-supply snapshot `total`.
    pub open spec fn voted(
        self,
        vote: Vote,
        amount: u128,
        total: u128,
        nonsense_threshold: Rational,
    ) -> Proposal {
        let c0 = self.vote_counts.with(vote, (self.vote_counts.of(vote) + amount) as u128);
        let c = VoteCounts { total, ..c0 };
        Proposal {
            vote_counts: c,
            status: self.vote_policy.judge_spec(c, nonsense_threshold),
            ..self
        }
    }

    /// Adds a vote to the proposal and re-judges its status.
    /// Pre-requisite: the derived status is `InProgress`.
    pub fn update_votes(
        &mut self,
        vote: &Vote,
        amount: u128,
        total: u128,
        nonsense_threshold: &Rational,
    ) -> (r: Result<(), ErrorCode>)
        ensures
            match r {
                Ok(()) => old(self).tally_fits(*vote, amount) && *final(self) == old(self).voted(*vote, amount, total, *nonsense_threshold),
                Err(e) => e == ErrorCode::MathOverflow && !old(self).tally_fits(*vote, amount)
                    && *final(self) == *old(self),
            },
    {
        let tally: u128 = match vote {
            Vote::Approve => self.vote_counts.approve,
            Vote::Reject => self.vote_counts.reject,
            Vote::Remove => self.vote_counts.nonsense,
        };
        let new_tally: u128 = match tally.checked_add(amount) {
            Some(t) => t,
            None => {
                return Err(ErrorCode::MathOverflow);
            },
        };
        let c0 = match vote {
            Vote::Approve => VoteCounts { approve: new_tally, ..self.vote_counts },
            Vote::Reject => VoteCounts { reject: new_tally, ..self.vote_counts },
            Vote::Remove => VoteCounts { nonsense: new_tally, ..self.vote_counts },
        };
        let counts = VoteCounts { total, ..c0 };
        match counts.approve.checked_add(counts.reject) {
            Some(ar) => {
                if ar.checked_add(counts.nonsense).is_none() {
                    return Err(ErrorCode::MathOverflow);
                }
            },
            None => {
                return Err(ErrorCode::MathOverflow);
            },
        };
        let status = self.vote_policy.judge(&counts, nonsense_threshold);
        self.vote_counts = counts;
        self.status = status;
        Ok(())
    }
}

impl Proposal {
    /// Whether adding `amount` to `vote`'s tally stays representable.
    pub fn check_tally_fits(&self, vote: &Vote, amount: u128) -> (b: bool)
        ensures
            b == self.tally_fits(*vote, amount),
    {
        let tally: u128 = match vote {
            Vote::Approve => self.vote_counts.approve,
            Vote::Reject => self.vote_counts.reject,
            Vote::Remove => self.vote_counts.nonsense,
        };
        let new_tally: u128 = match tally.checked_add(amount) {
            Some(t) => t,
            None => {
                return false;
            },
        };
        let c = match vote {
            Vote::Approve => VoteCounts { approve: new_tally, ..self.vote_counts },
            Vote::Reject => VoteCounts { reject: new_tally, ..self.vote_counts },
            Vote::Remove => VoteCounts { nonsense: new_tally, ..self.vote_counts },
        };
        match c.approve.checked_add(c.reject) {
            Some(ar) => ar.checked_add(c.nonsense).is_some(),
            None => false,
        }
    }

    /// The proposal, bond payout, and accepted weight that re-applying a vote
    /// of weight `amount` produces on an in-progress proposal: tallies are
    /// re-judged, and a decided outcome (approved or rejected) releases the
    /// bond to the proposer at once.
    pub open spec fn append_outcome(
        self,
        vote: Vote,
        amount: u128,
        total: u128,
        th: Rational,
    ) -> (Proposal, Option<Payout>) {
        let p1 = self.voted(vote, amount, total, th);
        if (p1.status == ProposalStatus::Approved || p1.status == ProposalStatus::Rejected)
            && self.lock_amount > 0 {
            (
                Proposal { lock_amount: 0, ..p1 },
                Some(Payout { to: self.proposer, amount: self.lock_amount }),
            )
        } else {
            (p1, None)
        }
    }
}

/// How one call may move a proposal's bond: the bond only ever decreases,
/// and a payout carries the whole remaining bond, is addressed to the
/// proposer, and zeroes the bond.
pub open spec fn bond_step(pre: Proposal, post: Proposal, paid: Option<Payout>) -> bool {
    match paid {
        Some(p) => {
            &&& pre.lock_amount > 0
            &&& p.amount == pre.lock_amount
            &&& p.to == pre.proposer
            &&& post.lock_amount == 0
        },
        None => post.lock_amount == pre.lock_amount,
    }
}

/// Re-applying a vote moves the bond only as `bond_step` allows: the whole
/// remaining bond goes to the proposer exactly when the vote decides the
/// outcome, and is zeroed by that payout.
pub proof fn lemma_append_outcome_bond_step(
    p: Proposal,
    vote: Vote,
    amount: u128,
    total: u128,
    th: Rational,
)
    ensures
        bond_step(
            p,
            p.append_outcome(vote, amount, total, th).0,
            p.append_outcome(vote, amount, total, th).1,
        ),
{
}

/// At-most-one bond release: once some call has paid the bond out, no later
/// call on the same proposal pays anything again, however many votes or
/// redemption calls follow.
pub proof fn lemma_bond_released_at_most_once(
    p0: Proposal,
    p1: Proposal,
    p2: Proposal,
    paid1: Option<Payout>,
    paid2: Option<Payout>,
)
    requires
        bond_step(p0, p1, paid1),
        bond_step(p1, p2, paid2),
        paid1 is Some,
    ensures
        paid2 is None,
{
}

/// Once a proposal's bond is gone it stays gone: along any chain of bond
/// steps, every step after a zero-bond state keeps the bond at zero.
pub proof fn lemma_bond_stays_zero(chain: Seq<Proposal>, paids: Seq<Option<Payout>>, k: int)
    requires
        chain.len() == paids.len() + 1,
        forall|i: int| 0 <= i < paids.len() ==> bond_step(chain[i], chain[i + 1], #[trigger] paids[i]),
        0 <= k < chain.len(),
        chain[k].lock_amount == 0,
    ensures
        forall|m: int| k <= m < chain.len() ==> (#[trigger] chain[m]).lock_amount == 0,
    decreases chain.len() - k,
{
    if k + 1 < chain.len() {
        assert(bond_step(chain[k], chain[k + 1], paids[k]));
        lemma_bond_stays_zero(chain, paids, k + 1);
    }
}

/// At-most-one bond release along any chain of calls: however many votes and
/// redemption calls follow, a released bond is never paid out again.
pub proof fn lemma_bond_released_once_in_chain(
    chain: Seq<Proposal>,
    paids: Seq<Option<Payout>>,
    i: int,
    j: int,
)
    requires
        chain.len() == paids.len() + 1,
        forall|k: int| 0 <= k < paids.len() ==> bond_step(chain[k], chain[k + 1], #[trigger] paids[k]),
        0 <= i < j < paids.len(),
        paids[i] is Some,
    ensures
        paids[j] is None,
{
    assert(bond_step(chain[i], chain[i + 1], paids[i]));
    lemma_bond_stays_zero(chain, paids, i + 1);
    assert(bond_step(chain[j], chain[j + 1], paids[j]));
}

/// Derived statuses never move backwards as time advances: the sequence of
/// statuses observed over increasing time follows the lifecycle order.
pub proof fn lemma_derived_status_monotonic(p: Proposal, genesis: u64, t1: u64, t2: u64)
    requires
        t1 <= t2,
    ensures
        status_rank(p.derived_status(genesis, t1)) <= status_rank(p.derived_status(genesis, t2)),
{
}

/// Deriving at `t1`, storing the result, and deriving again at a later `t2`
/// gives the same status as deriving at `t2` directly: lazy status updates
/// lose nothing, and a derived status never regresses once stored.
pub proof fn lemma_derived_status_composes(p: Proposal, genesis: u64, t1: u64, t2: u64)
    requires
        t1 <= t2,
    ensures
        (Proposal { status: p.derived_status(genesis, t1), ..p }).derived_status(genesis, t2)
            == p.derived_status(genesis, t2),
{
}

/// The derived status is never below the stored status: deriving cannot
/// regress what is already recorded.
pub proof fn lemma_derived_status_no_regress(p: Proposal, genesis: u64, now: u64)
    ensures
        status_rank(p.status) <= status_rank(p.derived_status(genesis, now)),
{
}

impl crate::Contract {
    /// Re-apply a vote of weight `amount` to proposal `id`. An in-progress
    /// proposal takes the whole weight, is re-judged against the stored total
    /// snapshot, and releases its bond if the vote decides it; any other
    /// proposal accepts nothing and stays untouched.
    pub(crate) fn internal_append_vote(&mut self, id: u32, vote: Vote, amount: u128, now: u64) -> (r:
        Result<(u128, Option<Payout>), ErrorCode>)
        requires
            old(self).inv(),
        ensures
            final(self).inv(),
            final(self).data == (ContractData { proposals: final(self).data.proposals, ..old(
                self,
            ).data }),
            ({
                let props = old(self).data.proposals@;
                let genesis = old(self).data.genesis_timestamp;
                if !props.contains_key(id) {
                    &&& r == Err::<(u128, Option<Payout>), ErrorCode>(ErrorCode::NoProposal)
                    &&& final(self).data.proposals@ == props
                } else {
                    let p0 = props[id].as_current();
                    let st = p0.derived_status(genesis, now);
                    if st != ProposalStatus::InProgress {
                        &&& r == Ok::<(u128, Option<Payout>), ErrorCode>((0, None))
                        &&& final(self).data.proposals@ == props
                    } else if !p0.tally_fits(vote, amount) {
                        &&& r == Err::<(u128, Option<Payout>), ErrorCode>(ErrorCode::MathOverflow)
                        &&& final(self).data.proposals@ == props
                    } else {
                        let outcome = p0.append_outcome(
                            vote,
                            amount,
                            old(self).data.cur_total_ballot,
                            old(self).data.nonsense_threshold,
                        );
                        &&& r == Ok::<(u128, Option<Payout>), ErrorCode>((amount, outcome.1))
                        &&& final(self).data.proposals@ == props.insert(
                            id,
                            VersionedProposal::Default(outcome.0),
                        )
                    }
                }
            }),
    {
        let genesis = self.data.genesis_timestamp;
        let total = self.data.cur_total_ballot;
        let th = self.data.nonsense_threshold;
        let (votable, fits): (bool, bool) = match self.data.proposals.get(&id) {
            None => {
                return Err(ErrorCode::NoProposal);
            },
            Some(vp) => match vp {
                VersionedProposal::Default(p) => {
                    let st = p.get_cur_status(genesis, now);
                    (matches!(st, ProposalStatus::InProgress), p.check_tally_fits(&vote, amount))
                },
            },
        };
        if !votable {
            return Ok((0, None));
        }
        if !fits {
            return Err(ErrorCode::MathOverflow);
        }
        let vp = match self.data.proposals.remove(&id) {
            Some(vp) => vp,
            None => {
                proof {
                    assert(false);
                }
                return Err(ErrorCode::NoProposal);
            },
        };
        let mut proposal = vp.into_current();
        match proposal.update_votes(&vote, amount, total, &th) {
            Ok(()) => (),
            Err(_) => {
                proof {
                    assert(false);
                }
                return Err(ErrorCode::MathOverflow);
            },
        }
        let paid: Option<Payout> = if proposal.lock_amount > 0 && (matches!(
            proposal.status,
            ProposalStatus::Approved,
        ) || matches!(proposal.status, ProposalStatus::Rejected)) {
            let pay = Payout { to: proposal.proposer, amount: proposal.lock_amount };
            proposal.lock_amount = 0;
            Some(pay)
        } else {
            None
        };
        self.data.proposals.insert(id, VersionedProposal::Default(proposal));
        proof {
            assert(final(self).data.proposals@ =~= old(self).data.proposals@.insert(
                id,
                final(self).data.proposals@[id],
            ));
        }
        Ok((amount, paid))
    }

    /// Act on a proposal: record the caller's first vote on it, carrying
    /// their whole live ballot power, and re-judge the proposal; a decided
    /// outcome releases the bond to the proposer at once. Returns the
    /// accepted ballot power and the bond payout, if any.
    pub fn act_proposal(&mut self, account_id: u64, id: u32, action: Action, now: u64) -> (r:
        Result<(u128, Option<Payout>), ErrorCode>)
        requires
            old(self).inv(),
            old(self).time_ok(now),
        ensures
            final(self).inv(),
            !old(self).launched(now) ==> r == Err::<(u128, Option<Payout>), ErrorCode>(
                ErrorCode::NotLaunched,
            ) && *final(self) == *old(self),
            old(self).launched(now) ==> ({
                let w = old(self).window_of(now) as u32;
                let m = old(self).data.accounts@;
                let props = old(self).data.proposals@;
                let genesis = old(self).data.genesis_timestamp;
                let vote = action.vote_spec();
                let total = final(self).data.cur_total_ballot;
                &&& final(self).synced(now)
                &&& final(self).ring_refreshed_from(*old(self), now)
                &&& final(self).data == (ContractData {
                    accounts: final(self).data.accounts,
                    proposals: final(self).data.proposals,
                    sessions: final(self).data.sessions,
                    proposal_ids_in_sessions: final(self).data.proposal_ids_in_sessions,
                    cur_session: final(self).data.cur_session,
                    initialized: true,
                    cur_total_ballot: final(self).data.cur_total_ballot,
                    ..old(self).data
                })
                &&& final(self).data.cur_total_ballot as int == old(self).live_ballots(now)
                &&& if !m.contains_key(account_id) {
                    &&& r == Err::<(u128, Option<Payout>), ErrorCode>(ErrorCode::NotRegistered)
                    &&& final(self).data.accounts@ == m
                    &&& final(self).data.proposals@ == props
                } else {
                    let a0 = m[account_id].as_current();
                    let b = a0.live_ballot(w);
                    if b == 0 {
                        &&& r == Err::<(u128, Option<Payout>), ErrorCode>(ErrorCode::NoBallots)
                        &&& final(self).data.accounts@ == m
                        &&& final(self).data.proposals@ == props
                    } else if a0.proposals@.contains_key(id) {
                        &&& r == Err::<(u128, Option<Payout>), ErrorCode>(ErrorCode::AlreadyVoted)
                        &&& final(self).data.accounts@ == m
                        &&& final(self).data.proposals@ == props
                    } else if !props.contains_key(id) {
                        &&& r == Err::<(u128, Option<Payout>), ErrorCode>(ErrorCode::NoProposal)
                        &&& final(self).data.accounts@ == m
                        &&& final(self).data.proposals@ == props
                    } else {
                        let p0 = props[id].as_current();
                        if p0.derived_status(genesis, now) != ProposalStatus::InProgress {
                            &&& r == Err::<(u128, Option<Payout>), ErrorCode>(
                                ErrorCode::NotVotable,
                            )
                            &&& final(self).data.accounts@ == m
                            &&& final(self).data.proposals@ == props
                        } else if !p0.tally_fits(vote, b) {
                            &&& r == Err::<(u128, Option<Payout>), ErrorCode>(
                                ErrorCode::MathOverflow,
                            )
                            &&& final(self).data.accounts@ == m
                            &&& final(self).data.proposals@ == props
                        } else {
                            let outcome = p0.append_outcome(
                                vote,
                                b,
                                total,
                                old(self).data.nonsense_threshold,
                            );
                            let a1 = final(self).data.accounts@[account_id].as_current();
                            &&& r == Ok::<(u128, Option<Payout>), ErrorCode>((b, outcome.1))
                            &&& final(self).data.proposals@ == props.insert(
                                id,
                                VersionedProposal::Default(outcome.0),
                            )
                            &&& final(self).data.accounts@ == m.insert(
                                account_id,
                                final(self).data.accounts@[account_id],
                            )
                            &&& final(self).data.accounts@.contains_key(account_id)
                            &&& a1.locking_amount == a0.locking_amount
                            &&& a1.ballot_amount == b
                            &&& a1.unlocking_session_id == a0.unlocking_session_id
                            &&& a1.proposals@ == a0.proposals@.insert(
                                id,
                                AccountVote { vote, amount: b },
                            )
                        }
                    }
                }
            }),
    {
        match self.fresh_sessions(now) {
            Ok(()) => (),
            Err(e) => {
                return Err(e);
            },
        }
        let w = self.get_cur_session_id(now);
        let vote = action.to_vote();
        let b: u128 = match self.data.accounts.get(&account_id) {
            None => {
                return Err(ErrorCode::NotRegistered);
            },
            Some(va) => match va {
                VAccount::Current(acc) => {
                    let b = acc.sync_ballot(w);
                    if b == 0 {
                        return Err(ErrorCode::NoBallots);
                    }
                    if acc.proposals.contains_key(&id) {
                        return Err(ErrorCode::AlreadyVoted);
                    }
                    b
                },
            },
        };
        let genesis = self.data.genesis_timestamp;
        let (votable, fits): (bool, bool) = match self.data.proposals.get(&id) {
            None => {
                return Err(ErrorCode::NoProposal);
            },
            Some(vp) => match vp {
                VersionedProposal::Default(p) => {
                    let st = p.get_cur_status(genesis, now);
                    (matches!(st, ProposalStatus::InProgress), p.check_tally_fits(&vote, b))
                },
            },
        };
        if !votable {
            return Err(ErrorCode::NotVotable);
        }
        if !fits {
            return Err(ErrorCode::MathOverflow);
        }
        let ballots = self.internal_account_vote(account_id, id, vote, w);
        match self.internal_append_vote(id, vote, ballots, now) {
            Ok((accepted, paid)) => {
                proof {
                    assert(accepted == ballots);
                }
                Ok((accepted, paid))
            },
            Err(_) => {
                proof {
                    assert(false);
                }
                Err(ErrorCode::NotVotable)
            },
        }
    }

    /// Add a proposal, escrowing the configured bond out of `deposit`.
    /// Returns the new proposal id and the surplus deposit to refund.
    pub fn add_proposal(
        &mut self,
        proposer: u64,
        deposit: u128,
        description: Vec<u8>,
        kind: ProposalKind,
        policy_type: PolicyType,
        session_id: u32,
        start_offset_sec: u32,
        lasts_sec: u32,
        now: u64,
    ) -> (r: Result<(u32, u128), ErrorCode>)
        requires
            old(self).inv(),
            old(self).time_ok(now),
        ensures
            final(self).inv(),
            !old(self).launched(now) ==> r == Err::<(u32, u128), ErrorCode>(ErrorCode::NotLaunched)
                && *final(self) == *old(self),
            old(self).launched(now) ==> ({
                let w = old(self).window_of(now);
                let props = old(self).data.proposals@;
                let genesis = old(self).data.genesis_timestamp;
                let bond = old(self).data.lock_amount_per_proposal;
                let begin = genesis + session_id * SESSION_INTERVAL + start_offset_sec
                    * 1_000_000_000;
                &&& final(self).synced(now)
                &&& final(self).ring_slots_refreshed_from(*old(self), now)
                &&& final(self).data == (ContractData {
                    proposals: final(self).data.proposals,
                    last_proposal_id: final(self).data.last_proposal_id,
                    sessions: final(self).data.sessions,
                    proposal_ids_in_sessions: final(self).data.proposal_ids_in_sessions,
                    cur_session: final(self).data.cur_session,
                    initialized: true,
                    cur_total_ballot: final(self).data.cur_total_ballot,
                    ..old(self).data
                })
                &&& final(self).data.cur_total_ballot as int == old(self).live_ballots(now)
                &&& if deposit < bond {
                    &&& r == Err::<(u32, u128), ErrorCode>(ErrorCode::NotEnoughBond)
                    &&& final(self).unchanged_proposal_tables(*old(self), now)
                } else if (session_id as int) < w {
                    &&& r == Err::<(u32, u128), ErrorCode>(ErrorCode::SessionIdTooSmall)
                    &&& final(self).unchanged_proposal_tables(*old(self), now)
                } else if begin <= now {
                    &&& r == Err::<(u32, u128), ErrorCode>(ErrorCode::StartTimeNotFuture)
                    &&& final(self).unchanged_proposal_tables(*old(self), now)
                } else if start_offset_sec * 1_000_000_000 + lasts_sec * 1_000_000_000
                    >= SESSION_INTERVAL {
                    &&& r == Err::<(u32, u128), ErrorCode>(ErrorCode::EndTimePastSession)
                    &&& final(self).unchanged_proposal_tables(*old(self), now)
                } else if session_id as int >= w + NUM_SESSIONS as int {
                    &&& r == Err::<(u32, u128), ErrorCode>(ErrorCode::SessionIdTooLarge)
                    &&& final(self).unchanged_proposal_tables(*old(self), now)
                } else if old(self).data.last_proposal_id == u32::MAX {
                    &&& r == Err::<(u32, u128), ErrorCode>(ErrorCode::MathOverflow)
                    &&& final(self).unchanged_proposal_tables(*old(self), now)
                } else {
                    let id = old(self).data.last_proposal_id;
                    let p = final(self).data.proposals@[id].as_current();
                    &&& r == Ok::<(u32, u128), ErrorCode>((id, (deposit - bond) as u128))
                    &&& final(self).data.last_proposal_id == id + 1
                    &&& final(self).data.proposals@ == props.insert(
                        id,
                        final(self).data.proposals@[id],
                    )
                    &&& final(self).data.proposals@.contains_key(id)
                    &&& !props.contains_key(id) ==> true
                    &&& p.proposer == proposer
                    &&& p.lock_amount == bond
                    &&& p.description == description
                    &&& p.vote_policy == (if policy_type is Relative {
                        old(self).data.vote_policy@[0]
                    } else {
                        old(self).data.vote_policy@[1]
                    })
                    &&& p.kind == kind
                    &&& p.status == ProposalStatus::WarmUp
                    &&& p.vote_counts == (VoteCounts {
                        approve: 0u128,
                        reject: 0u128,
                        nonsense: 0u128,
                        total: 0u128,
                    })
                    &&& p.session_id == session_id
                    &&& p.start_offset == start_offset_sec * 1_000_000_000
                    &&& p.lasts == lasts_sec * 1_000_000_000
                    &&& final(self).data.proposal_ids_in_sessions@.len() == w
                        + NUM_SESSIONS as int
                    &&& (forall|j: int|
                        0 <= j < final(self).data.proposal_ids_in_sessions@.len() && j
                            != session_id as int ==> (
                        #[trigger] final(self).data.proposal_ids_in_sessions@[j])@ == (if j < old(
                            self,
                        ).data.proposal_ids_in_sessions@.len() {
                            old(self).data.proposal_ids_in_sessions@[j]@
                        } else {
                            Seq::<u32>::empty()
                        }))
                    &&& final(self).data.proposal_ids_in_sessions@[session_id as int]@ == (if (
                    session_id as int) < old(self).data.proposal_ids_in_sessions@.len() {
                        old(self).data.proposal_ids_in_sessions@[session_id as int]@
                    } else {
                        Seq::<u32>::empty()
                    }).push(id)
                }
            }),
    {
        match self.fresh_sessions(now) {
            Ok(()) => (),
            Err(e) => {
                return Err(e);
            },
        }
        if deposit < self.data.lock_amount_per_proposal {
            return Err(ErrorCode::NotEnoughBond);
        }
        let refund = deposit - self.data.lock_amount_per_proposal;
        let w = self.get_cur_session_id(now);
        if session_id < w {
            return Err(ErrorCode::SessionIdTooSmall);
        }
        let start_offset = sec_to_nano(start_offset_sec);
        let lasts = sec_to_nano(lasts_sec);
        let begin_in_future: bool = match (session_id as u64).checked_mul(SESSION_INTERVAL) {
            Some(s) => match self.data.genesis_timestamp.checked_add(s) {
                Some(b) => match b.checked_add(start_offset) {
                    Some(begin) => begin > now,
                    None => true,
                },
                None => true,
            },
            None => true,
        };
        if !begin_in_future {
            return Err(ErrorCode::StartTimeNotFuture);
        }
        if start_offset + lasts >= SESSION_INTERVAL {
            return Err(ErrorCode::EndTimePastSession);
        }
        if session_id as usize >= w as usize + NUM_SESSIONS {
            return Err(ErrorCode::SessionIdTooLarge);
        }
        let id = self.data.last_proposal_id;
        if id == u32::MAX {
            return Err(ErrorCode::MathOverflow);
        }
        let vote_policy = match policy_type {
            PolicyType::Relative => self.data.vote_policy[0],
            PolicyType::Absolute => self.data.vote_policy[1],
        };
        let ps = Proposal {
            proposer,
            lock_amount: self.data.lock_amount_per_proposal,
            description,
            vote_policy,
            kind,
            status: ProposalStatus::WarmUp,
            vote_counts: VoteCounts::zero(),
            session_id,
            start_offset,
            lasts,
        };
        let ghost ps_g = ps;
        self.data.proposals.insert(id, VersionedProposal::Default(ps));
        self.data.last_proposal_id = id + 1;
        proof {
            assert(self.data.proposals@ =~= old(self).data.proposals@.insert(
                id,
                VersionedProposal::Default(ps_g),
            ));
        }
        self.add_proposal_to_session(id, session_id);
        Ok((id, refund))
    }

    /// The proposal map, its id counter, and the buckets are exactly as the
    /// refresh alone leaves them.
    pub open spec fn unchanged_proposal_tables(self, pre: Contract, now: u64) -> bool {
        &&& self.data.proposals@ == pre.data.proposals@
        &&& self.data.last_proposal_id == pre.data.last_proposal_id
        &&& self.buckets_refreshed_from(pre, now)
    }

    /// The proposer can remove their proposal before its voting starts; the
    /// bond is refunded. Returns whether it was removed, with the refund.
    pub fn remove_proposal(&mut self, caller: u64, id: u32, now: u64) -> (r: Result<
        (bool, Option<Payout>),
        ErrorCode,
    >)
        requires
            old(self).inv(),
            old(self).time_ok(now),
        ensures
            final(self).inv(),
            !old(self).launched(now) ==> r == Err::<(bool, Option<Payout>), ErrorCode>(
                ErrorCode::NotLaunched,
            ) && *final(self) == *old(self),
            old(self).launched(now) ==> ({
                let props = old(self).data.proposals@;
                let genesis = old(self).data.genesis_timestamp;
                &&& final(self).synced(now)
                &&& final(self).ring_slots_refreshed_from(*old(self), now)
                &&& final(self).data == (ContractData {
                    proposals: final(self).data.proposals,
                    sessions: final(self).data.sessions,
                    proposal_ids_in_sessions: final(self).data.proposal_ids_in_sessions,
                    cur_session: final(self).data.cur_session,
                    initialized: true,
                    cur_total_ballot: final(self).data.cur_total_ballot,
                    ..old(self).data
                })
                &&& final(self).data.cur_total_ballot as int == old(self).live_ballots(now)
                &&& if !props.contains_key(id) {
                    &&& r == Err::<(bool, Option<Payout>), ErrorCode>(ErrorCode::NoProposal)
                    &&& final(self).data.proposals@ == props
                    &&& final(self).buckets_refreshed_from(*old(self), now)
                } else {
                    let p0 = props[id].as_current();
                    if p0.proposer != caller {
                        &&& r == Err::<(bool, Option<Payout>), ErrorCode>(ErrorCode::NotProposer)
                        &&& final(self).data.proposals@ == props
                        &&& final(self).buckets_refreshed_from(*old(self), now)
                    } else if p0.derived_status(genesis, now) != ProposalStatus::WarmUp {
                        &&& r == Ok::<(bool, Option<Payout>), ErrorCode>((false, None))
                        &&& final(self).data.proposals@ == props
                        &&& final(self).buckets_refreshed_from(*old(self), now)
                    } else {
                        let sid = p0.session_id as int;
                        &&& r == Ok::<(bool, Option<Payout>), ErrorCode>(
                            (
                                true,
                                if p0.lock_amount > 0 {
                                    Some(Payout { to: p0.proposer, amount: p0.lock_amount })
                                } else {
                                    None
                                },
                            ),
                        )
                        &&& final(self).data.proposals@ == props.remove(id)
                        &&& final(self).data.proposal_ids_in_sessions@.len() == old(
                            self,
                        ).window_of(now) + NUM_SESSIONS as int
                        &&& (forall|j: int|
                            0 <= j < final(self).data.proposal_ids_in_sessions@.len() && j != sid
                                ==> (#[trigger] final(self).data.proposal_ids_in_sessions@[j])@
                                == (if j < old(self).data.proposal_ids_in_sessions@.len() {
                                old(self).data.proposal_ids_in_sessions@[j]@
                            } else {
                                Seq::<u32>::empty()
                            }))
                        &&& final(self).data.proposal_ids_in_sessions@[sid]@ == old(
                            self,
                        ).data.proposal_ids_in_sessions@[sid]@.filter(|x: u32| x != id)
                    }
                }
            }),
    {
        match self.fresh_sessions(now) {
            Ok(()) => (),
            Err(e) => {
                return Err(e);
            },
        }
        let genesis = self.data.genesis_timestamp;
        let (proposer, session_id, removable): (u64, u32, bool) = match self.data.proposals.get(
            &id,
        ) {
            None => {
                return Err(ErrorCode::NoProposal);
            },
            Some(vp) => match vp {
                VersionedProposal::Default(p) => {
                    let st = p.get_cur_status(genesis, now);
                    (p.proposer, p.session_id, matches!(st, ProposalStatus::WarmUp))
                },
            },
        };
        if proposer != caller {
            return Err(ErrorCode::NotProposer);
        }
        if !removable {
            return Ok((false, None));
        }
        self.remove_proposal_from_session(id, session_id);
        let vp = match self.data.proposals.remove(&id) {
            Some(vp) => vp,
            None => {
                proof {
                    assert(false);
                }
                return Err(ErrorCode::NoProposal);
            },
        };
        let proposal = vp.into_current();
        let paid: Option<Payout> = if proposal.lock_amount > 0 {
            Some(Payout { to: proposal.proposer, amount: proposal.lock_amount })
        } else {
            None
        };
        Ok((true, paid))
    }

    /// Once a proposal has expired, its proposer can redeem the escrowed
    /// bond. Returns whether anything was redeemed, with the payout.
    pub fn redeem_near_in_expired_proposal(&mut self, caller: u64, id: u32, now: u64) -> (r: Result<
        (bool, Option<Payout>),
        ErrorCode,
    >)
        requires
            old(self).inv(),
            old(self).time_ok(now),
        ensures
            final(self).inv(),
            !old(self).launched(now) ==> r == Err::<(bool, Option<Payout>), ErrorCode>(
                ErrorCode::NotLaunched,
            ) && *final(self) == *old(self),
            old(self).launched(now) ==> ({
                let props = old(self).data.proposals@;
                let genesis = old(self).data.genesis_timestamp;
                &&& final(self).synced(now)
                &&& final(self).ring_refreshed_from(*old(self), now)
                &&& final(self).data == (ContractData {
                    proposals: final(self).data.proposals,
                    sessions: final(self).data.sessions,
                    proposal_ids_in_sessions: final(self).data.proposal_ids_in_sessions,
                    cur_session: final(self).data.cur_session,
                    initialized: true,
                    cur_total_ballot: final(self).data.cur_total_ballot,
                    ..old(self).data
                })
                &&& final(self).data.cur_total_ballot as int == old(self).live_ballots(now)
                &&& if !props.contains_key(id) {
                    &&& r == Err::<(bool, Option<Payout>), ErrorCode>(ErrorCode::NoProposal)
                    &&& final(self).data.proposals@ == props
                } else {
                    let p0 = props[id].as_current();
                    if p0.proposer != caller {
                        &&& r == Err::<(bool, Option<Payout>), ErrorCode>(ErrorCode::NotProposer)
                        &&& final(self).data.proposals@ == props
                    } else if p0.lock_amount > 0 && p0.derived_status(genesis, now)
                        == ProposalStatus::Expired {
                        let p1 = final(self).data.proposals@[id].as_current();
                        &&& r == Ok::<(bool, Option<Payout>), ErrorCode>(
                            (true, Some(Payout { to: p0.proposer, amount: p0.lock_amount })),
                        )
                        &&& bond_step(p0, p1, Some(Payout { to: p0.proposer, amount: p0.lock_amount }))
                        &&& final(self).data.proposals@ == props.insert(
                            id,
                            final(self).data.proposals@[id],
                        )
                        &&& final(self).data.proposals@.contains_key(id)
                        &&& p1 == (Proposal {
                            status: ProposalStatus::Expired,
                            lock_amount: 0,
                            ..p0
                        })
                    } else {
                        &&& r == Ok::<(bool, Option<Payout>), ErrorCode>((false, None))
                        &&& final(self).data.proposals@ == props
                    }
                }
            }),
    {
        match self.fresh_sessions(now) {
            Ok(()) => (),
            Err(e) => {
                return Err(e);
            },
        }
        let genesis = self.data.genesis_timestamp;
        let (proposer, redeemable): (u64, bool) = match self.data.proposals.get(&id) {
            None => {
                return Err(ErrorCode::NoProposal);
            },
            Some(vp) => match vp {
                VersionedProposal::Default(p) => {
                    let st = p.get_cur_status(genesis, now);
                    (p.proposer, p.lock_amount > 0 && matches!(st, ProposalStatus::Expired))
                },
            },
        };
        if proposer != caller {
            return Err(ErrorCode::NotProposer);
        }
        if !redeemable {
            return Ok((false, None));
        }
        let vp = match self.data.proposals.remove(&id) {
            Some(vp) => vp,
            None => {
                proof {
                    assert(false);
                }
                return Err(ErrorCode::NoProposal);
            },
        };
        let mut proposal = vp.into_current();
        let paid = Payout { to: proposal.proposer, amount: proposal.lock_amount };
        proposal.status = ProposalStatus::Expired;
        proposal.lock_amount = 0;
        self.data.proposals.insert(id, VersionedProposal::Default(proposal));
        proof {
            assert(final(self).data.proposals@ =~= old(self).data.proposals@.insert(
                id,
                final(self).data.proposals@[id],
            ));
        }
        Ok((true, Some(paid)))
    }
}

} // verus!
