//! Locking: new locks, appends, partial-window credit, and their errors.

use referendum::utils::{ErrorCode, NANOS_PER_DAY, STORAGE_BALANCE_MIN_BOUND};
use referendum::Contract;

const OWNER: u64 = 1;
const USER: u64 = 2;
const TOKEN: u64 = 100;

fn to_yocto(n: u128) -> u128 {
    n * 1_000_000_000_000_000_000_000_000
}

/// A contract just after launch, with `USER` registered; returns it with the
/// genesis timestamp and a time 24 seconds into window 0.
fn init_env() -> (Contract, u64, u64) {
    let mut c = Contract::new(OWNER, TOKEN, 0);
    let genesis = c.data.genesis_timestamp;
    let now = genesis + 24_000_000_000;
    c.storage_deposit(USER, STORAGE_BALANCE_MIN_BOUND, now)
        .unwrap();
    (c, genesis, now)
}

#[test]
fn test_lock_user_not_register() {
    let (mut c, _genesis, now) = init_env();
    let r = c.ft_on_transfer(TOKEN, 77, to_yocto(10), b"10".to_vec(), now);
    assert_eq!(r.unwrap_err(), ErrorCode::NotRegistered);
}

#[test]
fn test_lock_new_lasts1() {
    let (mut c, _genesis, now) = init_env();
    let (unused, payouts) = c
        .ft_on_transfer(TOKEN, USER, to_yocto(10), b"1".to_vec(), now)
        .unwrap();
    assert_eq!(unused, 0);
    assert!(payouts.is_empty());

    let md = c.contract_metadata(now);
    assert_eq!(md.cur_session_id, 0);
    assert_eq!(md.cur_total_ballot, to_yocto(10));
    assert_eq!(md.cur_lock_amount, to_yocto(10));

    let info = c.get_account_info(USER, now).unwrap();
    assert_eq!(info.locking_amount, to_yocto(10));
    assert_eq!(info.ballot_amount, to_yocto(10));
    assert_eq!(info.unlocking_session_id, 1);

    let slot = c.get_session_state(0);
    assert_eq!(slot.session_id, 0);
    assert_eq!(slot.expire_amount, to_yocto(10));
}

#[test]
fn test_lock_new_lasts10() {
    let (mut c, _genesis, now) = init_env();
    c.ft_on_transfer(TOKEN, USER, to_yocto(10), b"10".to_vec(), now)
        .unwrap();

    let md = c.contract_metadata(now);
    assert_eq!(md.cur_session_id, 0);
    assert_eq!(md.cur_total_ballot, to_yocto(10) * 10);

    let info = c.get_account_info(USER, now).unwrap();
    assert_eq!(info.locking_amount, to_yocto(10));
    assert_eq!(info.ballot_amount, to_yocto(10) * 10);
    assert_eq!(info.unlocking_session_id, 10);

    let slot = c.get_session_state(9);
    assert_eq!(slot.session_id, 9);
    assert_eq!(slot.expire_amount, to_yocto(10) * 10);
}

#[test]
fn test_lock_new_when_session_last_day() {
    let (mut c, genesis, _now) = init_env();
    let now = genesis + 29 * NANOS_PER_DAY;
    c.ft_on_transfer(TOKEN, USER, to_yocto(30), b"1".to_vec(), now)
        .unwrap();

    let md = c.contract_metadata(now);
    assert_eq!(md.cur_session_id, 0);
    assert_eq!(md.cur_total_ballot, to_yocto(1));

    let info = c.get_account_info(USER, now).unwrap();
    assert_eq!(info.locking_amount, to_yocto(30));
    assert_eq!(info.ballot_amount, to_yocto(1));
    assert_eq!(info.unlocking_session_id, 1);

    let slot = c.get_session_state(0);
    assert_eq!(slot.session_id, 0);
    assert_eq!(slot.expire_amount, to_yocto(1));
}

#[test]
fn test_lock_new_expire() {
    let (mut c, genesis, now) = init_env();
    c.ft_on_transfer(TOKEN, USER, to_yocto(10), b"1".to_vec(), now)
        .unwrap();

    let info = c.get_account_info(USER, now).unwrap();
    assert_eq!(info.locking_amount, to_yocto(10));
    assert_eq!(info.ballot_amount, to_yocto(10));
    assert_eq!(info.unlocking_session_id, 1);

    // One window later the old ballots have expired: a fully expired lock,
    // even with its principal never withdrawn, is eligible for a new lock.
    let later = genesis + 31 * NANOS_PER_DAY;
    c.ft_on_transfer(TOKEN, USER, to_yocto(10), b"1".to_vec(), later)
        .unwrap();

    let info = c.get_account_info(USER, later).unwrap();
    assert_eq!(info.locking_amount, to_yocto(20));
    // (10 + 10 expired principal) * 0 full windows + 10 * 29/30 partial:
    // day 1 of window 1 leaves 29 days.
    assert_eq!(
        info.ballot_amount,
        to_yocto(10) * 29 / 30 + to_yocto(20) * 0
    );
    assert_eq!(info.unlocking_session_id, 2);
}

#[test]
fn test_lock_append_expire() {
    let (mut c, genesis, now) = init_env();
    c.ft_on_transfer(TOKEN, USER, to_yocto(10), b"1".to_vec(), now)
        .unwrap();

    let later = genesis + 31 * NANOS_PER_DAY;
    let r = c.ft_on_transfer(TOKEN, USER, to_yocto(10), b"".to_vec(), later);
    assert_eq!(r.unwrap_err(), ErrorCode::NoActiveLock);
}

#[test]
fn test_lock_append() {
    let (mut c, _genesis, now) = init_env();
    c.ft_on_transfer(TOKEN, USER, to_yocto(10), b"10".to_vec(), now)
        .unwrap();
    c.ft_on_transfer(TOKEN, USER, to_yocto(10), b"".to_vec(), now)
        .unwrap();

    let md = c.contract_metadata(now);
    assert_eq!(md.cur_session_id, 0);
    assert_eq!(md.cur_total_ballot, to_yocto(20) * 10);

    let info = c.get_account_info(USER, now).unwrap();
    assert_eq!(info.locking_amount, to_yocto(20));
    assert_eq!(info.ballot_amount, to_yocto(20) * 10);
    assert_eq!(info.unlocking_session_id, 10);

    let slot = c.get_session_state(9);
    assert_eq!(slot.session_id, 9);
    assert_eq!(slot.expire_amount, to_yocto(20) * 10);
}

#[test]
fn test_lock_append_add_msg() {
    let (mut c, _genesis, now) = init_env();
    c.ft_on_transfer(TOKEN, USER, to_yocto(10), b"10".to_vec(), now)
        .unwrap();
    let r = c.ft_on_transfer(TOKEN, USER, to_yocto(10), b"10".to_vec(), now);
    assert_eq!(r.unwrap_err(), ErrorCode::ActiveLockExists);
}

#[test]
fn test_lock_append_when_no_lock() {
    let (mut c, _genesis, now) = init_env();
    let r = c.ft_on_transfer(TOKEN, USER, to_yocto(10), b"".to_vec(), now);
    assert_eq!(r.unwrap_err(), ErrorCode::NoActiveLock);
}

#[test]
fn test_lock_append_illegal_msg() {
    let (mut c, _genesis, now) = init_env();
    let r = c.ft_on_transfer(TOKEN, USER, to_yocto(10), b"0".to_vec(), now);
    assert_eq!(r.unwrap_err(), ErrorCode::IllegalMsg);
    let r = c.ft_on_transfer(TOKEN, USER, to_yocto(10), b"25".to_vec(), now);
    assert_eq!(r.unwrap_err(), ErrorCode::IllegalMsg);
    let r = c.ft_on_transfer(TOKEN, USER, to_yocto(10), b"ten".to_vec(), now);
    assert_eq!(r.unwrap_err(), ErrorCode::IllegalMsg);
}

#[test]
fn test_lock_wrong_token() {
    let (mut c, _genesis, now) = init_env();
    let r = c.ft_on_transfer(101, USER, to_yocto(10), b"1".to_vec(), now);
    assert_eq!(r.unwrap_err(), ErrorCode::IllegalToken);
}

#[test]
fn test_lock_overflowing_amount() {
    let (mut c, _genesis, now) = init_env();
    // The granted ballots would not fit in 128 bits: refused, nothing moves.
    let r = c.ft_on_transfer(TOKEN, USER, u128::MAX, b"24".to_vec(), now);
    assert_eq!(r.unwrap_err(), ErrorCode::MathOverflow);
    let info = c.get_account_info(USER, now).unwrap();
    assert_eq!(info.locking_amount, 0);
    assert_eq!(c.contract_metadata(now).cur_total_ballot, 0);
}

#[test]
fn test_lock_before_launch() {
    let mut c = Contract::new(OWNER, TOKEN, 0);
    let r = c.ft_on_transfer(TOKEN, USER, to_yocto(10), b"1".to_vec(), 5);
    assert_eq!(r.unwrap_err(), ErrorCode::NotLaunched);
}
