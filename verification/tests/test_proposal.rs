//! Proposal lifecycle: creation, removal, redemption, and id buckets.

use referendum::proposals::{PolicyType, ProposalKind, ProposalStatus, VotePolicy};
use referendum::utils::{ErrorCode, Payout, Rational, NANOS_PER_DAY, STORAGE_BALANCE_MIN_BOUND};
use referendum::Contract;

const OWNER: u64 = 1;
const USER: u64 = 2;
const PROPOSAL_USER: u64 = 3;
const TOKEN: u64 = 100;

fn to_yocto(n: u128) -> u128 {
    n * 1_000_000_000_000_000_000_000_000
}

fn init_env() -> (Contract, u64, u64) {
    let mut c = Contract::new(OWNER, TOKEN, 0);
    let genesis = c.data.genesis_timestamp;
    let now = genesis + 24_000_000_000;
    c.storage_deposit(USER, STORAGE_BALANCE_MIN_BOUND, now)
        .unwrap();
    c.storage_deposit(PROPOSAL_USER, STORAGE_BALANCE_MIN_BOUND, now)
        .unwrap();
    (c, genesis, now)
}

#[test]
fn test_add_proposal() {
    let (mut c, _genesis, now) = init_env();
    let vote_policy = VotePolicy::Relative(
        Rational { numerator: 1, denominator: 2 },
        Rational { numerator: 1, denominator: 2 },
    );
    c.modify_vote_policy(OWNER, vote_policy).unwrap();

    let (id, refund) = c
        .add_proposal(
            PROPOSAL_USER,
            to_yocto(10),
            b"test proposal".to_vec(),
            ProposalKind::Vote,
            PolicyType::Relative,
            1,
            1000,
            100000,
            now,
        )
        .unwrap();
    assert_eq!(id, 0);
    assert_eq!(refund, 0);

    let info = c.get_proposal_info(0, now).unwrap();
    assert_eq!(info.proposer, PROPOSAL_USER);
    assert_eq!(info.lock_amount, to_yocto(10));
    assert_eq!(info.description, b"test proposal".to_vec());
    assert_eq!(info.vote_policy, vote_policy);
    assert_eq!(info.kind, ProposalKind::Vote);
    assert_eq!(info.status, ProposalStatus::WarmUp);
    assert_eq!(info.vote_counts.approve, 0);
    assert_eq!(info.vote_counts.reject, 0);
    assert_eq!(info.vote_counts.nonsense, 0);
    assert_eq!(info.vote_counts.total, 0);
    assert_eq!(info.session_id, 1);
    assert_eq!(info.start_offset_sec, 1000);
    assert_eq!(info.lasts_sec, 100000);

    let md = c.contract_metadata(now);
    assert_eq!(md.last_proposal_id, 1);

    assert_eq!(c.get_proposal_ids_in_session(1), vec![0]);
}

#[test]
fn test_add_proposal_not_enough_lock_near() {
    let (mut c, _genesis, now) = init_env();
    let r = c.add_proposal(
        PROPOSAL_USER,
        1,
        b"test proposal".to_vec(),
        ProposalKind::Vote,
        PolicyType::Relative,
        1,
        1000,
        100000,
        now,
    );
    assert_eq!(r.unwrap_err(), ErrorCode::NotEnoughBond);
}

#[test]
fn test_add_proposal_refund() {
    let (mut c, _genesis, now) = init_env();
    let (id, refund) = c
        .add_proposal(
            PROPOSAL_USER,
            to_yocto(20),
            b"test proposal".to_vec(),
            ProposalKind::Vote,
            PolicyType::Relative,
            1,
            1000,
            100000,
            now,
        )
        .unwrap();
    assert_eq!(id, 0);
    assert_eq!(refund, to_yocto(10));
}

#[test]
fn test_add_proposal_start_time_lt_current_time() {
    let (mut c, _genesis, now) = init_env();
    let r = c.add_proposal(
        PROPOSAL_USER,
        to_yocto(10),
        b"test proposal".to_vec(),
        ProposalKind::Vote,
        PolicyType::Relative,
        0,
        1,
        7 * 60 * 60,
        now,
    );
    assert_eq!(r.unwrap_err(), ErrorCode::StartTimeNotFuture);
}

#[test]
fn test_add_proposal_end_time_gt_next_session_begin_time() {
    let (mut c, _genesis, now) = init_env();
    let r = c.add_proposal(
        PROPOSAL_USER,
        to_yocto(10),
        b"test proposal".to_vec(),
        ProposalKind::Vote,
        PolicyType::Relative,
        0,
        60 * 60,
        30 * 24 * 60 * 60,
        now,
    );
    assert_eq!(r.unwrap_err(), ErrorCode::EndTimePastSession);
}

#[test]
fn test_add_proposal_session_id_before_current_session() {
    let (mut c, genesis, _now) = init_env();
    let later = genesis + 31 * NANOS_PER_DAY;
    let r = c.add_proposal(
        PROPOSAL_USER,
        to_yocto(10),
        b"test proposal".to_vec(),
        ProposalKind::Vote,
        PolicyType::Relative,
        0,
        60 * 60,
        24 * 60 * 60,
        later,
    );
    assert_eq!(r.unwrap_err(), ErrorCode::SessionIdTooSmall);
}

#[test]
fn test_add_proposal_session_id_beyond_ring() {
    let (mut c, _genesis, now) = init_env();
    let r = c.add_proposal(
        PROPOSAL_USER,
        to_yocto(10),
        b"test proposal".to_vec(),
        ProposalKind::Vote,
        PolicyType::Relative,
        24,
        1000,
        100000,
        now,
    );
    assert_eq!(r.unwrap_err(), ErrorCode::SessionIdTooLarge);
}

#[test]
fn test_remove_proposal_during_warm_up() {
    let (mut c, _genesis, now) = init_env();
    c.add_proposal(
        PROPOSAL_USER,
        to_yocto(10),
        b"test proposal".to_vec(),
        ProposalKind::Vote,
        PolicyType::Relative,
        1,
        1000,
        100000,
        now,
    )
    .unwrap();

    let (removed, paid) = c.remove_proposal(PROPOSAL_USER, 0, now).unwrap();
    assert!(removed);
    assert_eq!(
        paid,
        Some(Payout { to: PROPOSAL_USER, amount: to_yocto(10) })
    );
    assert!(c.get_proposal_info(0, now).is_none());
    assert_eq!(c.get_proposal_ids_in_session(1), Vec::<u32>::new());
}

#[test]
fn test_remove_proposal_during_in_progress() {
    let (mut c, _genesis, now) = init_env();
    c.add_proposal(
        PROPOSAL_USER,
        to_yocto(10),
        b"test proposal".to_vec(),
        ProposalKind::Vote,
        PolicyType::Relative,
        0,
        60 * 60,
        7 * 60 * 60,
        now,
    )
    .unwrap();

    let later = now + NANOS_PER_DAY;
    let (removed, paid) = c.remove_proposal(PROPOSAL_USER, 0, later).unwrap();
    assert!(!removed);
    assert_eq!(paid, None);
}

#[test]
fn test_remove_proposal_no_proposal() {
    let (mut c, _genesis, now) = init_env();
    c.add_proposal(
        PROPOSAL_USER,
        to_yocto(10),
        b"test proposal".to_vec(),
        ProposalKind::Vote,
        PolicyType::Relative,
        0,
        60 * 60,
        7 * 60 * 60,
        now,
    )
    .unwrap();
    let r = c.remove_proposal(PROPOSAL_USER, 1, now);
    assert_eq!(r.unwrap_err(), ErrorCode::NoProposal);
}

#[test]
fn test_remove_proposal_not_allow() {
    let (mut c, _genesis, now) = init_env();
    c.add_proposal(
        PROPOSAL_USER,
        to_yocto(10),
        b"test proposal".to_vec(),
        ProposalKind::Vote,
        PolicyType::Relative,
        0,
        60 * 60,
        7 * 60 * 60,
        now,
    )
    .unwrap();
    let r = c.remove_proposal(USER, 0, now);
    assert_eq!(r.unwrap_err(), ErrorCode::NotProposer);
}

#[test]
fn test_redeem() {
    let (mut c, genesis, now) = init_env();
    c.add_proposal(
        PROPOSAL_USER,
        to_yocto(10),
        b"test proposal".to_vec(),
        ProposalKind::Vote,
        PolicyType::Relative,
        0,
        1000,
        100000,
        now,
    )
    .unwrap();

    let (redeemed, paid) = c
        .redeem_near_in_expired_proposal(PROPOSAL_USER, 0, now)
        .unwrap();
    assert!(!redeemed);
    assert_eq!(paid, None);

    let later = genesis + 31 * NANOS_PER_DAY;
    let (redeemed, paid) = c
        .redeem_near_in_expired_proposal(PROPOSAL_USER, 0, later)
        .unwrap();
    assert!(redeemed);
    assert_eq!(
        paid,
        Some(Payout { to: PROPOSAL_USER, amount: to_yocto(10) })
    );

    let info = c.get_proposal_info(0, later).unwrap();
    assert_eq!(info.status, ProposalStatus::Expired);
    assert_eq!(info.lock_amount, 0);

    // Redeeming again finds nothing: the bond moves at most once.
    let (redeemed, paid) = c
        .redeem_near_in_expired_proposal(PROPOSAL_USER, 0, later)
        .unwrap();
    assert!(!redeemed);
    assert_eq!(paid, None);
}

#[test]
fn test_redeem_no_proposal() {
    let (mut c, genesis, now) = init_env();
    c.add_proposal(
        PROPOSAL_USER,
        to_yocto(10),
        b"test proposal".to_vec(),
        ProposalKind::Vote,
        PolicyType::Relative,
        0,
        1000,
        100000,
        now,
    )
    .unwrap();
    let later = genesis + 31 * NANOS_PER_DAY;
    let r = c.redeem_near_in_expired_proposal(PROPOSAL_USER, 1, later);
    assert_eq!(r.unwrap_err(), ErrorCode::NoProposal);
}

#[test]
fn test_redeem_not_allow() {
    let (mut c, genesis, now) = init_env();
    c.add_proposal(
        PROPOSAL_USER,
        to_yocto(10),
        b"test proposal".to_vec(),
        ProposalKind::Vote,
        PolicyType::Relative,
        0,
        1000,
        100000,
        now,
    )
    .unwrap();
    let later = genesis + 31 * NANOS_PER_DAY;
    let r = c.redeem_near_in_expired_proposal(USER, 0, later);
    assert_eq!(r.unwrap_err(), ErrorCode::NotProposer);
}

#[test]
fn test_proposal_ids_in_session() {
    let (mut c, _genesis, now) = init_env();
    let add = |c: &mut Contract, session_id: u32| {
        c.add_proposal(
            PROPOSAL_USER,
            to_yocto(10),
            b"test proposal".to_vec(),
            ProposalKind::Vote,
            PolicyType::Relative,
            session_id,
            1000,
            100000,
            now,
        )
        .unwrap()
        .0
    };
    assert_eq!(add(&mut c, 1), 0);
    assert_eq!(c.get_proposal_ids_in_session(1), vec![0]);
    assert_eq!(add(&mut c, 0), 1);
    assert_eq!(c.get_proposal_ids_in_session(0), vec![1]);
    assert_eq!(add(&mut c, 1), 2);
    assert_eq!(c.get_proposal_ids_in_session(1), vec![0, 2]);
    assert_eq!(add(&mut c, 10), 3);
    assert_eq!(c.get_proposal_ids_in_session(10), vec![3]);

    let (removed, _) = c.remove_proposal(PROPOSAL_USER, 2, now).unwrap();
    assert!(removed);
    assert_eq!(c.get_proposal_ids_in_session(1), vec![0]);
}
