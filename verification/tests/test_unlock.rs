//! Withdrawing unlocked tokens, and reconciling failed transfers.

use referendum::utils::{ErrorCode, TokenTransfer, NANOS_PER_DAY, STORAGE_BALANCE_MIN_BOUND};
use referendum::Contract;

const OWNER: u64 = 1;
const USER: u64 = 2;
const TOKEN: u64 = 100;

fn to_yocto(n: u128) -> u128 {
    n * 1_000_000_000_000_000_000_000_000
}

fn init_env() -> (Contract, u64, u64) {
    let mut c = Contract::new(OWNER, TOKEN, 0);
    let genesis = c.data.genesis_timestamp;
    let now = genesis + 24_000_000_000;
    c.storage_deposit(USER, STORAGE_BALANCE_MIN_BOUND, now)
        .unwrap();
    (c, genesis, now)
}

#[test]
fn test_unlock() {
    let (mut c, genesis, now) = init_env();
    c.ft_on_transfer(TOKEN, USER, to_yocto(10), b"1".to_vec(), now)
        .unwrap();

    let md = c.contract_metadata(now);
    assert_eq!(md.cur_session_id, 0);
    assert_eq!(md.cur_total_ballot, to_yocto(10));

    let info = c.get_account_info(USER, now).unwrap();
    assert_eq!(info.locking_amount, to_yocto(10));
    assert_eq!(info.ballot_amount, to_yocto(10));
    assert_eq!(info.unlocking_session_id, 1);

    let slot = c.get_session_state(0);
    assert_eq!(slot.session_id, 0);
    assert_eq!(slot.expire_amount, to_yocto(10));

    // One day into the next window the ballots have expired; withdrawing
    // hands the principal back.
    let later = genesis + 31 * NANOS_PER_DAY;
    let transfer = c.withdraw(USER, later).unwrap();
    assert_eq!(transfer, TokenTransfer { to: USER, amount: to_yocto(10) });

    let md = c.contract_metadata(later);
    assert_eq!(md.cur_session_id, 1);
    assert_eq!(md.cur_total_ballot, 0);
    assert_eq!(md.cur_lock_amount, 0);

    let info = c.get_account_info(USER, later).unwrap();
    assert_eq!(info.locking_amount, 0);
    assert_eq!(info.ballot_amount, 0);

    // The passed window's slot was recycled a whole ring ahead.
    let slot = c.get_session_state(0);
    assert_eq!(slot.session_id, 24);
    assert_eq!(slot.expire_amount, 0);

    // A fresh lock works again: one day of window 1 is gone, so 30 tokens
    // for one window earn 29/30 of their amount.
    c.ft_on_transfer(TOKEN, USER, to_yocto(30), b"1".to_vec(), later)
        .unwrap();
    let md = c.contract_metadata(later);
    assert_eq!(md.cur_session_id, 1);
    assert_eq!(md.cur_total_ballot, to_yocto(29));

    let info = c.get_account_info(USER, later).unwrap();
    assert_eq!(info.locking_amount, to_yocto(30));
    assert_eq!(info.ballot_amount, to_yocto(29));
    assert_eq!(info.unlocking_session_id, 2);

    let slot = c.get_session_state(1);
    assert_eq!(slot.session_id, 1);
    assert_eq!(slot.expire_amount, to_yocto(29));
}

#[test]
fn test_unlock_ahead() {
    let (mut c, _genesis, now) = init_env();
    c.ft_on_transfer(TOKEN, USER, to_yocto(10), b"1".to_vec(), now)
        .unwrap();
    // The lock is still live: nothing can be withdrawn yet.
    let r = c.withdraw(USER, now);
    assert_eq!(r.unwrap_err(), ErrorCode::NothingToWithdraw);
    let info = c.get_account_info(USER, now).unwrap();
    assert_eq!(info.locking_amount, to_yocto(10));
}

#[test]
fn test_unlock_not_registered() {
    let (mut c, _genesis, now) = init_env();
    let r = c.withdraw(77, now);
    assert_eq!(r.unwrap_err(), ErrorCode::NotRegistered);
}

#[test]
fn test_withdraw_rollback_on_failed_transfer() {
    let (mut c, genesis, now) = init_env();
    c.ft_on_transfer(TOKEN, USER, to_yocto(10), b"1".to_vec(), now)
        .unwrap();
    let later = genesis + 31 * NANOS_PER_DAY;
    let transfer = c.withdraw(USER, later).unwrap();
    assert_eq!(transfer.amount, to_yocto(10));
    assert_eq!(c.contract_metadata(later).cur_lock_amount, 0);

    // The transfer failed: the compensating update restores the account's
    // principal and the global locked counter.
    let reverted = c.callback_post_withdraw(USER, transfer.amount, false).unwrap();
    assert!(reverted);
    let info = c.get_account_info(USER, later).unwrap();
    assert_eq!(info.locking_amount, to_yocto(10));
    assert_eq!(c.contract_metadata(later).cur_lock_amount, to_yocto(10));
}

#[test]
fn test_withdraw_settles_on_successful_transfer() {
    let (mut c, genesis, now) = init_env();
    c.ft_on_transfer(TOKEN, USER, to_yocto(10), b"1".to_vec(), now)
        .unwrap();
    let later = genesis + 31 * NANOS_PER_DAY;
    let transfer = c.withdraw(USER, later).unwrap();

    let reverted = c.callback_post_withdraw(USER, transfer.amount, true).unwrap();
    assert!(!reverted);
    let info = c.get_account_info(USER, later).unwrap();
    assert_eq!(info.locking_amount, 0);
    assert_eq!(c.contract_metadata(later).cur_lock_amount, 0);
}

#[test]
fn test_withdraw_rollback_after_unregister() {
    let (mut c, genesis, now) = init_env();
    c.ft_on_transfer(TOKEN, USER, to_yocto(10), b"1".to_vec(), now)
        .unwrap();
    let later = genesis + 31 * NANOS_PER_DAY;
    let transfer = c.withdraw(USER, later).unwrap();
    c.storage_unregister(USER, later).unwrap();

    // The account left in the meantime: the tokens stay with the contract.
    let reverted = c.callback_post_withdraw(USER, transfer.amount, false).unwrap();
    assert!(!reverted);
    assert!(c.get_account_info(USER, later).is_none());
    assert_eq!(c.contract_metadata(later).cur_lock_amount, 0);
}
