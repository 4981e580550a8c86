//! Voting: tallies, policy outcomes, bond release, and vote propagation on
//! append-locks.

use referendum::proposals::{Action, PolicyType, ProposalKind, ProposalStatus, VotePolicy};
use referendum::utils::{ErrorCode, Payout, Rational, NANOS_PER_DAY, STORAGE_BALANCE_MIN_BOUND};
use referendum::Contract;

const OWNER: u64 = 1;
const PROPOSAL_USER: u64 = 3;
const VOTE_USER1: u64 = 4;
const VOTE_USER2: u64 = 5;
const TOKEN: u64 = 100;

fn to_yocto(n: u128) -> u128 {
    n * 1_000_000_000_000_000_000_000_000
}

fn init_env() -> (Contract, u64, u64) {
    let mut c = Contract::new(OWNER, TOKEN, 0);
    let genesis = c.data.genesis_timestamp;
    let now = genesis + 24_000_000_000;
    for user in [PROPOSAL_USER, VOTE_USER1, VOTE_USER2] {
        c.storage_deposit(user, STORAGE_BALANCE_MIN_BOUND, now)
            .unwrap();
    }
    (c, genesis, now)
}

fn add(c: &mut Contract, policy: PolicyType, start_sec: u32, lasts_sec: u32, now: u64) -> u32 {
    c.add_proposal(
        PROPOSAL_USER,
        to_yocto(10),
        b"test proposal".to_vec(),
        ProposalKind::Vote,
        policy,
        0,
        start_sec,
        lasts_sec,
        now,
    )
    .unwrap()
    .0
}

#[test]
fn test_vote() {
    let (mut c, genesis, now) = init_env();
    let vote_policy1 = VotePolicy::Relative(
        Rational { numerator: 1, denominator: 2 },
        Rational { numerator: 1, denominator: 2 },
    );
    let vote_policy2 = VotePolicy::Absolute(
        Rational { numerator: 1, denominator: 2 },
        Rational { numerator: 2, denominator: 2 },
    );
    c.modify_vote_policy(OWNER, vote_policy1).unwrap();
    c.modify_vote_policy(OWNER, vote_policy2).unwrap();
    c.modify_nonsense_threshold(OWNER, Rational { numerator: 2, denominator: 2 })
        .unwrap();

    assert_eq!(add(&mut c, PolicyType::Relative, 24 * 60 * 60, 24 * 60 * 60, now), 0);
    assert_eq!(add(&mut c, PolicyType::Absolute, 24 * 60 * 60, 24 * 60 * 60, now), 1);
    assert_eq!(add(&mut c, PolicyType::Relative, 24 * 60 * 60, 24 * 60 * 60, now), 2);

    c.ft_on_transfer(TOKEN, VOTE_USER1, to_yocto(30), b"1".to_vec(), now)
        .unwrap();
    c.ft_on_transfer(TOKEN, VOTE_USER2, to_yocto(30), b"1".to_vec(), now)
        .unwrap();
    assert_eq!(c.contract_metadata(now).cur_total_ballot, to_yocto(60));

    // Voting begins strictly after the start offset.
    let now = genesis + NANOS_PER_DAY + 1_000_000_000;

    // One approve of 30 out of 60 under Relative(1/2, 1/2): quorum 30/60 is
    // met, threshold 30/30 passes, so the proposal is approved and the bond
    // goes back to the proposer at once.
    let (accepted, paid) = c.act_proposal(VOTE_USER1, 0, Action::VoteApprove, now).unwrap();
    assert_eq!(accepted, to_yocto(30));
    assert_eq!(paid, Some(Payout { to: PROPOSAL_USER, amount: to_yocto(10) }));
    let info = c.get_proposal_info(0, now).unwrap();
    assert_eq!(info.status, ProposalStatus::Approved);
    assert_eq!(info.lock_amount, 0);
    assert_eq!(
        (info.vote_counts.approve, info.vote_counts.reject, info.vote_counts.nonsense, info.vote_counts.total),
        (to_yocto(30), 0, 0, to_yocto(60)),
    );

    // One reject of 30 of 60 under Absolute(pass 1/2, fail 2/2) decides
    // nothing yet.
    let (accepted, paid) = c.act_proposal(VOTE_USER1, 1, Action::VoteReject, now).unwrap();
    assert_eq!(accepted, to_yocto(30));
    assert_eq!(paid, None);
    let info = c.get_proposal_info(1, now).unwrap();
    assert_eq!(info.status, ProposalStatus::InProgress);
    assert_eq!(info.lock_amount, to_yocto(10));
    assert_eq!(
        (info.vote_counts.approve, info.vote_counts.reject, info.vote_counts.nonsense, info.vote_counts.total),
        (0, to_yocto(30), 0, to_yocto(60)),
    );

    // The second reject reaches fail = 60/60 >= 2/2: rejected, bond released.
    let (accepted, paid) = c.act_proposal(VOTE_USER2, 1, Action::VoteReject, now).unwrap();
    assert_eq!(accepted, to_yocto(30));
    assert_eq!(paid, Some(Payout { to: PROPOSAL_USER, amount: to_yocto(10) }));
    let info = c.get_proposal_info(1, now).unwrap();
    assert_eq!(info.status, ProposalStatus::Rejected);
    assert_eq!(info.lock_amount, 0);
    assert_eq!(
        (info.vote_counts.approve, info.vote_counts.reject, info.vote_counts.nonsense, info.vote_counts.total),
        (0, to_yocto(60), 0, to_yocto(60)),
    );

    // Nonsense votes reach 60/60 >= 2/2: condemned, and the bond is forfeit.
    let (accepted, paid) = c.act_proposal(VOTE_USER1, 2, Action::VoteNonsense, now).unwrap();
    assert_eq!(accepted, to_yocto(30));
    assert_eq!(paid, None);
    let (accepted, paid) = c.act_proposal(VOTE_USER2, 2, Action::VoteNonsense, now).unwrap();
    assert_eq!(accepted, to_yocto(30));
    assert_eq!(paid, None);
    let info = c.get_proposal_info(2, now).unwrap();
    assert_eq!(info.status, ProposalStatus::Nonsense);
    assert_eq!(info.lock_amount, to_yocto(10));
    assert_eq!(
        (info.vote_counts.approve, info.vote_counts.reject, info.vote_counts.nonsense, info.vote_counts.total),
        (0, 0, to_yocto(60), to_yocto(60)),
    );
}

#[test]
fn test_vote_append() {
    let (mut c, genesis, now) = init_env();
    let vote_policy1 = VotePolicy::Relative(
        Rational { numerator: 1, denominator: 2 },
        Rational { numerator: 1, denominator: 2 },
    );
    let vote_policy2 = VotePolicy::Absolute(
        Rational { numerator: 1, denominator: 2 },
        Rational { numerator: 1, denominator: 2 },
    );
    c.modify_vote_policy(OWNER, vote_policy1).unwrap();
    c.modify_vote_policy(OWNER, vote_policy2).unwrap();

    assert_eq!(add(&mut c, PolicyType::Relative, 20 * 60 * 60, 24 * 60 * 60, now), 0);
    assert_eq!(add(&mut c, PolicyType::Absolute, 20 * 60 * 60, 24 * 60 * 60, now), 1);

    c.ft_on_transfer(TOKEN, VOTE_USER1, to_yocto(30), b"1".to_vec(), now)
        .unwrap();
    c.ft_on_transfer(TOKEN, VOTE_USER2, to_yocto(30), b"2".to_vec(), now)
        .unwrap();
    assert_eq!(c.contract_metadata(now).cur_total_ballot, to_yocto(90));

    let now = genesis + 21 * 3600 * 1_000_000_000;

    // 30 of 90 misses the 1/2 quorum.
    let (accepted, paid) = c.act_proposal(VOTE_USER1, 0, Action::VoteApprove, now).unwrap();
    assert_eq!(accepted, to_yocto(30));
    assert_eq!(paid, None);
    let info = c.get_proposal_info(0, now).unwrap();
    assert_eq!(info.status, ProposalStatus::InProgress);
    assert_eq!(info.lock_amount, to_yocto(10));
    assert_eq!(
        (info.vote_counts.approve, info.vote_counts.total),
        (to_yocto(30), to_yocto(90)),
    );

    // Appending 30 re-applies the standing approve with the delta: approve
    // goes to 60 of 120, quorum 60/120 met, threshold 60/60 passes.
    let (_, payouts) = c
        .ft_on_transfer(TOKEN, VOTE_USER1, to_yocto(30), b"".to_vec(), now)
        .unwrap();
    assert_eq!(payouts, vec![Payout { to: PROPOSAL_USER, amount: to_yocto(10) }]);
    let info = c.get_proposal_info(0, now).unwrap();
    assert_eq!(info.status, ProposalStatus::Approved);
    assert_eq!(info.lock_amount, 0);
    assert_eq!(
        (info.vote_counts.approve, info.vote_counts.total),
        (to_yocto(60), to_yocto(120)),
    );

    // An append by someone who voted on nothing moves no tallies.
    c.ft_on_transfer(TOKEN, VOTE_USER2, to_yocto(10), b"".to_vec(), now)
        .unwrap();
    assert_eq!(c.contract_metadata(now).cur_total_ballot, to_yocto(140));

    let (accepted, paid) = c.act_proposal(VOTE_USER1, 1, Action::VoteReject, now).unwrap();
    assert_eq!(accepted, to_yocto(60));
    assert_eq!(paid, None);
    let info = c.get_proposal_info(1, now).unwrap();
    assert_eq!(info.status, ProposalStatus::InProgress);
    assert_eq!(info.lock_amount, to_yocto(10));
    assert_eq!(
        (info.vote_counts.reject, info.vote_counts.total),
        (to_yocto(60), to_yocto(140)),
    );

    // Another append of 30: reject goes to 90 of 170, fail 90/170 >= 1/2.
    let (_, payouts) = c
        .ft_on_transfer(TOKEN, VOTE_USER1, to_yocto(30), b"".to_vec(), now)
        .unwrap();
    assert_eq!(payouts, vec![Payout { to: PROPOSAL_USER, amount: to_yocto(10) }]);
    let info = c.get_proposal_info(1, now).unwrap();
    assert_eq!(info.status, ProposalStatus::Rejected);
    assert_eq!(info.lock_amount, 0);
    assert_eq!(
        (info.vote_counts.reject, info.vote_counts.total),
        (to_yocto(90), to_yocto(170)),
    );
}

#[test]
fn test_vote_append_mutli() {
    let (mut c, genesis, now) = init_env();
    let vote_policy1 = VotePolicy::Relative(
        Rational { numerator: 1, denominator: 2 },
        Rational { numerator: 1, denominator: 2 },
    );
    let vote_policy2 = VotePolicy::Absolute(
        Rational { numerator: 1, denominator: 2 },
        Rational { numerator: 1, denominator: 2 },
    );
    c.modify_vote_policy(OWNER, vote_policy1).unwrap();
    c.modify_vote_policy(OWNER, vote_policy2).unwrap();

    assert_eq!(add(&mut c, PolicyType::Relative, 20 * 60 * 60, 24 * 60 * 60, now), 0);
    assert_eq!(add(&mut c, PolicyType::Absolute, 20 * 60 * 60, 24 * 60 * 60, now), 1);

    c.ft_on_transfer(TOKEN, VOTE_USER1, to_yocto(30), b"1".to_vec(), now)
        .unwrap();
    c.ft_on_transfer(TOKEN, VOTE_USER2, to_yocto(30), b"2".to_vec(), now)
        .unwrap();
    assert_eq!(c.contract_metadata(now).cur_total_ballot, to_yocto(90));

    let now = genesis + 21 * 3600 * 1_000_000_000;
    assert_eq!(c.get_proposal_ids_in_session(0), vec![0, 1]);

    c.act_proposal(VOTE_USER1, 0, Action::VoteApprove, now).unwrap();
    c.act_proposal(VOTE_USER1, 1, Action::VoteReject, now).unwrap();

    // One append of 30 propagates to both standing votes, in bucket order,
    // releasing both bonds: exactly one payout per proposal.
    let (_, payouts) = c
        .ft_on_transfer(TOKEN, VOTE_USER1, to_yocto(30), b"".to_vec(), now)
        .unwrap();
    assert_eq!(
        payouts,
        vec![
            Payout { to: PROPOSAL_USER, amount: to_yocto(10) },
            Payout { to: PROPOSAL_USER, amount: to_yocto(10) },
        ],
    );

    let info = c.get_proposal_info(0, now).unwrap();
    assert_eq!(info.status, ProposalStatus::Approved);
    assert_eq!(info.lock_amount, 0);
    assert_eq!(
        (info.vote_counts.approve, info.vote_counts.total),
        (to_yocto(60), to_yocto(120)),
    );

    let info = c.get_proposal_info(1, now).unwrap();
    assert_eq!(info.status, ProposalStatus::Rejected);
    assert_eq!(info.lock_amount, 0);
    assert_eq!(
        (info.vote_counts.reject, info.vote_counts.total),
        (to_yocto(60), to_yocto(120)),
    );

    // The account's recorded weights grew by exactly the accepted deltas.
    let votes = c.get_account_proposals_in_session(VOTE_USER1, 0);
    assert_eq!(votes.len(), 2);
    assert_eq!(votes[0].proposal_id, 0);
    assert_eq!(votes[0].amount, to_yocto(60));
    assert_eq!(votes[1].proposal_id, 1);
    assert_eq!(votes[1].amount, to_yocto(60));
}

#[test]
fn test_vote_no_proposal() {
    let (mut c, genesis, now) = init_env();
    add(&mut c, PolicyType::Relative, 24 * 60 * 60, 24 * 60 * 60, now);
    c.ft_on_transfer(TOKEN, VOTE_USER1, to_yocto(30), b"1".to_vec(), now)
        .unwrap();
    let now = genesis + NANOS_PER_DAY + 1_000_000_000;
    let r = c.act_proposal(VOTE_USER1, 1, Action::VoteApprove, now);
    assert_eq!(r.unwrap_err(), ErrorCode::NoProposal);
}

#[test]
fn test_vote_not_votable() {
    let (mut c, _genesis, now) = init_env();
    add(&mut c, PolicyType::Relative, 24 * 60 * 60, 24 * 60 * 60, now);
    c.ft_on_transfer(TOKEN, VOTE_USER1, to_yocto(30), b"1".to_vec(), now)
        .unwrap();
    c.ft_on_transfer(TOKEN, VOTE_USER2, to_yocto(30), b"5".to_vec(), now)
        .unwrap();
    // Still warming up: voting has not started.
    let r = c.act_proposal(VOTE_USER1, 0, Action::VoteApprove, now);
    assert_eq!(r.unwrap_err(), ErrorCode::NotVotable);
}

#[test]
fn test_vote_already_vote() {
    let (mut c, genesis, now) = init_env();
    add(&mut c, PolicyType::Relative, 24 * 60 * 60, 24 * 60 * 60, now);
    c.ft_on_transfer(TOKEN, VOTE_USER1, to_yocto(30), b"1".to_vec(), now)
        .unwrap();
    c.ft_on_transfer(TOKEN, VOTE_USER2, to_yocto(30), b"5".to_vec(), now)
        .unwrap();
    let now = genesis + NANOS_PER_DAY + 1_000_000_000;
    let (accepted, _) = c.act_proposal(VOTE_USER1, 0, Action::VoteApprove, now).unwrap();
    assert_eq!(accepted, to_yocto(30));
    let r = c.act_proposal(VOTE_USER1, 0, Action::VoteApprove, now);
    assert_eq!(r.unwrap_err(), ErrorCode::AlreadyVoted);
}

#[test]
fn test_vote_no_ballots() {
    let (mut c, genesis, now) = init_env();
    add(&mut c, PolicyType::Relative, 24 * 60 * 60, 24 * 60 * 60, now);
    c.ft_on_transfer(TOKEN, VOTE_USER2, to_yocto(30), b"5".to_vec(), now)
        .unwrap();
    let now = genesis + NANOS_PER_DAY + 1_000_000_000;
    let r = c.act_proposal(VOTE_USER1, 0, Action::VoteApprove, now);
    assert_eq!(r.unwrap_err(), ErrorCode::NoBallots);
}
