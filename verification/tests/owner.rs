//! Owner administration.

use referendum::proposals::VotePolicy;
use referendum::utils::{ErrorCode, Rational};
use referendum::Contract;

const OWNER: u64 = 1;
const USER: u64 = 2;
const TOKEN: u64 = 100;

fn to_yocto(n: u128) -> u128 {
    n * 1_000_000_000_000_000_000_000_000
}

#[test]
fn test_owner() {
    let mut c = Contract::new(OWNER, TOKEN, 0);
    let now = 1_000_000_000u64;

    c.set_owner(OWNER, USER).unwrap();
    let r = c.set_owner(OWNER, USER);
    assert_eq!(r.unwrap_err(), ErrorCode::NotOwner);
    assert_eq!(c.get_owner(), USER);

    // The new owner moves the launch time, still before the old one passed.
    c.modify_genesis_timestamp(USER, 10, now).unwrap();
    let md = c.contract_metadata(now);
    assert_eq!(md.genesis_timestamp_sec, 10);

    assert_eq!(md.lock_amount_per_proposal, to_yocto(10));
    c.modify_endorsement_amount(USER, to_yocto(20)).unwrap();
    let md = c.contract_metadata(now);
    assert_eq!(md.lock_amount_per_proposal, to_yocto(20));
}

#[test]
fn test_modify_genesis_timestamp_errors() {
    let mut c = Contract::new(OWNER, TOKEN, 0);
    // Only into the future.
    let r = c.modify_genesis_timestamp(OWNER, 1, 5_000_000_000);
    assert_eq!(r.unwrap_err(), ErrorCode::IllegalGenesisTime);
    // Not once launch has happened.
    let launched = c.data.genesis_timestamp + 1;
    let r = c.modify_genesis_timestamp(OWNER, u32::MAX, launched);
    assert_eq!(r.unwrap_err(), ErrorCode::HasLaunched);
}

#[test]
fn test_modify_endorsement_amount_zero() {
    let mut c = Contract::new(OWNER, TOKEN, 0);
    let r = c.modify_endorsement_amount(OWNER, 0);
    assert_eq!(r.unwrap_err(), ErrorCode::ZeroEndorsement);
}

#[test]
fn test_modify_nonsense_threshold() {
    let mut c = Contract::new(OWNER, TOKEN, 0);
    let r = c.modify_nonsense_threshold(OWNER, Rational { numerator: 0, denominator: 2 });
    assert_eq!(r.unwrap_err(), ErrorCode::IllegalThreshold);
    let r = c.modify_nonsense_threshold(OWNER, Rational { numerator: 3, denominator: 2 });
    assert_eq!(r.unwrap_err(), ErrorCode::IllegalThreshold);
    c.modify_nonsense_threshold(OWNER, Rational { numerator: 2, denominator: 3 })
        .unwrap();
    assert_eq!(
        c.data.nonsense_threshold,
        Rational { numerator: 2, denominator: 3 },
    );
}

#[test]
fn test_modify_vote_policy_slots() {
    let mut c = Contract::new(OWNER, TOKEN, 0);
    let relative = VotePolicy::Relative(
        Rational { numerator: 1, denominator: 3 },
        Rational { numerator: 2, denominator: 3 },
    );
    let absolute = VotePolicy::Absolute(
        Rational { numerator: 1, denominator: 2 },
        Rational { numerator: 1, denominator: 4 },
    );
    c.modify_vote_policy(OWNER, relative).unwrap();
    c.modify_vote_policy(OWNER, absolute).unwrap();
    let md = c.contract_metadata(0);
    assert_eq!(md.vote_policy[0], relative);
    assert_eq!(md.vote_policy[1], absolute);

    let invalid = VotePolicy::Relative(
        Rational { numerator: 0, denominator: 3 },
        Rational { numerator: 2, denominator: 3 },
    );
    let r = c.modify_vote_policy(OWNER, invalid);
    assert_eq!(r.unwrap_err(), ErrorCode::IllegalThreshold);
    let r = c.modify_vote_policy(USER, relative);
    assert_eq!(r.unwrap_err(), ErrorCode::NotOwner);
}
