//! Shared constants, time conversions, error codes, transfer requests, and
//! the wide-integer rational comparator.

use vstd::prelude::*;

verus! {

use vstd::arithmetic::div_mod::{
    lemma_div_is_ordered,
    lemma_fundamental_div_mod,
    lemma_fundamental_div_mod_converse,
};
use vstd::arithmetic::mul::{lemma_mul_inequality, lemma_mul_is_distributive_add_other_way};

/// Ring capacity: how many windows the ring covers, and the longest lock.
pub const NUM_SESSIONS: usize = 24;

/// Each session window lasts 30 days, in nanoseconds.
pub const SESSION_INTERVAL: u64 = 3600 * 24 * 30 * 1_000_000_000;

/// One day in nanoseconds.
pub const NANOS_PER_DAY: u64 = 3600 * 24 * 1_000_000_000;

/// Days per session window.
pub const DAYS_PER_SESSION: u64 = 30;

/// The default launch time is one window after contract creation.
pub const DEFAULT_GENESIS_OFFSET: u64 = SESSION_INTERVAL;

/// No window index can exceed this: it is `u64::MAX / SESSION_INTERVAL`, the
/// window of the largest representable timestamp.
pub const MAX_SESSION_ID: u32 = 7116;

/// Storage deposit required to register an account.
pub const STORAGE_BALANCE_MIN_BOUND: u128 = 10_000_000_000_000_000_000_000;

/// Default bond for endorsing a proposal.
pub const DEFAULT_LOCK_NEAR_AMOUNT_FOR_PROPOSAL: u128 = 10_000_000_000_000_000_000_000_000;

/// `2^64`, the base used to split a 160-bit product into two limbs.
pub const TWO_POW_64: u128 = 0x1_0000_0000_0000_0000;

/// Error codes for refused calls. A refused call leaves the ledger —
/// accounts, proposals, totals — unchanged; the ring may still have been
/// refreshed up to `now`, which moves no live value. The one exception is an
/// arithmetic overflow during vote propagation, where the lock itself has
/// already been applied; each function's contract states what holds then.
#[derive(Clone, Copy, Debug, PartialEq, Eq, Structural)]
pub enum ErrorCode {
    /// The caller has not registered an account.
    NotRegistered,
    /// The contract has not launched yet.
    NotLaunched,
    /// Append-lock requires a live, unexpired lock.
    NoActiveLock,
    /// New-lock requires that no live lock exists.
    ActiveLockExists,
    /// The lock message is not a window count between 1 and `NUM_SESSIONS`.
    IllegalMsg,
    /// Tokens of this kind are not accepted for locking.
    IllegalToken,
    /// Nothing is unlocked, or nothing is left to withdraw.
    NothingToWithdraw,
    /// No proposal has this id.
    NoProposal,
    /// Only the proposer may do this.
    NotProposer,
    /// The proposal does not accept votes now.
    NotVotable,
    /// The caller holds no live ballots.
    NoBallots,
    /// The caller already voted on this proposal.
    AlreadyVoted,
    /// The attached bond is below the configured endorsement amount.
    NotEnoughBond,
    /// The proposal's session would start before the current window.
    SessionIdTooSmall,
    /// The proposal's session is beyond the windows the ring covers.
    SessionIdTooLarge,
    /// The proposal's voting would start in the past.
    StartTimeNotFuture,
    /// The proposal's voting would end after its session does.
    EndTimePastSession,
    /// Only the owner may do this.
    NotOwner,
    /// The genesis timestamp cannot move once launch has happened.
    HasLaunched,
    /// The new genesis timestamp must lie in the future.
    IllegalGenesisTime,
    /// The endorsement amount must be positive.
    ZeroEndorsement,
    /// The rational threshold must satisfy `0 < numerator <= denominator`.
    IllegalThreshold,
    /// The storage deposit is below the registration minimum.
    StorageDepositTooSmall,
    /// Unregistering requires all locked tokens to be withdrawn first.
    AccountStillLocked,
    /// Storage deposits are fixed: nothing can be withdrawn from them.
    NoStorageCanWithdraw,
    /// A counter left the machine-representable range.
    MathOverflow,
}

/// A native-coin transfer the host must perform on the engine's behalf.
#[derive(Clone, Copy, Debug, PartialEq, Eq, Structural)]
pub struct Payout {
    /// Receiving account handle.
    pub to: u64,
    /// Amount to transfer.
    pub amount: u128,
}

/// A locked-token transfer the host must perform, reporting the outcome back
/// through `callback_post_withdraw`.
#[derive(Clone, Copy, Debug, PartialEq, Eq, Structural)]
pub struct TokenTransfer {
    /// Receiving account handle.
    pub to: u64,
    /// Amount of the locked token to transfer.
    pub amount: u128,
}

/// Truncate a nanosecond timestamp to whole seconds.
pub fn nano_to_sec(nano: u64) -> (r: u32)
    ensures
        r == (nano / 1_000_000_000) as u32,
{
    (nano / 1_000_000_000) as u32
}

/// Whole seconds to nanoseconds.
pub fn sec_to_nano(sec: u32) -> (r: u64)
    ensures
        r == sec as u64 * 1_000_000_000,
{
    sec as u64 * 1_000_000_000
}

/// Whole days contained in a nanosecond duration.
pub fn nano_to_day(nano: u64) -> (r: u64)
    ensures
        r == nano / NANOS_PER_DAY,
{
    nano / NANOS_PER_DAY
}

/// Any in-range duration divided by the window length stays within
/// `MAX_SESSION_ID`, so window ids never overflow a `u32`.
pub proof fn lemma_window_bound(genesis: u64, now: u64)
    requires
        now > genesis,
    ensures
        0 <= (now - genesis) as int / SESSION_INTERVAL as int <= MAX_SESSION_ID as int,
{
    let d = SESSION_INTERVAL as int;
    let x = (now - genesis) as int;
    lemma_div_is_ordered(0, x, d);
    lemma_div_is_ordered(x, u64::MAX as int, d);
    assert(u64::MAX as int == MAX_SESSION_ID as int * d + 2072073709551615);
    lemma_fundamental_div_mod_converse(u64::MAX as int, d, MAX_SESSION_ID as int, 2072073709551615);
}

/// A fraction `numerator / denominator`, compared against ratios of two
/// 128-bit magnitudes by cross-multiplication in 160-bit arithmetic.
#[derive(Clone, Copy, Debug, PartialEq, Eq, Structural)]
pub struct Rational {
    pub numerator: u32,
    pub denominator: u32,
}

/// Split the 160-bit product `a * b` into limbs `(hi, lo)` with
/// `a * b == hi * 2^64 + lo`.
fn mul_u128_u32(a: u128, b: u32) -> (r: (u128, u64))
    ensures
        r.0 * TWO_POW_64 + r.1 == a * b,
{
    let t64: u128 = TWO_POW_64;
    let ah: u128 = a / t64;
    let al: u128 = a % t64;
    let bw: u128 = b as u128;
    proof {
        lemma_fundamental_div_mod(a as int, t64 as int);
        assert(ah <= 0xffff_ffff_ffff_ffff) by {
            lemma_div_is_ordered(a as int, u128::MAX as int, t64 as int);
            lemma_fundamental_div_mod_converse(
                u128::MAX as int,
                t64 as int,
                0xffff_ffff_ffff_ffffint,
                0xffff_ffff_ffff_ffffint,
            );
        }
        lemma_mul_inequality(ah as int, 0xffff_ffff_ffff_ffffint, bw as int);
        lemma_mul_inequality(al as int, 0xffff_ffff_ffff_ffffint, bw as int);
        assert(0xffff_ffff_ffff_ffffint * bw as int <= 0xffff_ffff_ffff_ffffint * 0xffff_ffffint)
            by (nonlinear_arith)
            requires bw <= 0xffff_ffffu128;
    }
    let low_prod: u128 = al * bw;
    let carry: u128 = low_prod / t64;
    let lo: u64 = (low_prod % t64) as u64;
    let hi: u128 = ah * bw + carry;
    proof {
        lemma_fundamental_div_mod(low_prod as int, t64 as int);
        // a * b == (ah * 2^64 + al) * b == ah * b * 2^64 + al * b
        assert((ah * t64 + al) * bw == ah * bw * t64 + al * bw) by (nonlinear_arith);
        lemma_mul_is_distributive_add_other_way(t64 as int, ah as int * bw as int, carry as int);
    }
    (hi, lo)
}

/// `hi1 * 2^64 + lo1 >= hi2 * 2^64 + lo2`, given both `lo` limbs below `2^64`.
fn limbs_ge(hi1: u128, lo1: u64, hi2: u128, lo2: u64) -> (r: bool)
    ensures
        r == (hi1 * TWO_POW_64 + lo1 >= hi2 * TWO_POW_64 + lo2),
{
    proof {
        if hi1 > hi2 {
            lemma_mul_inequality(hi2 as int + 1, hi1 as int, TWO_POW_64 as int);
        }
        if hi2 > hi1 {
            lemma_mul_inequality(hi1 as int + 1, hi2 as int, TWO_POW_64 as int);
        }
    }
    hi1 > hi2 || (hi1 == hi2 && lo1 >= lo2)
}

impl Rational {
    /// `a / b >= numerator / denominator`, by cross-multiplication:
    /// `a * denominator >= numerator * b`, exact for all 128-bit magnitudes.
    pub open spec fn pass_spec(self, num: u128, denom: u128) -> bool {
        num * self.denominator >= self.numerator * denom
    }

    /// Does the ratio `num / denom` reach this fraction?
    pub fn pass(&self, num: u128, denom: u128) -> (r: bool)
        ensures
            r == self.pass_spec(num, denom),
    {
        let (lhi, llo) = mul_u128_u32(num, self.denominator);
        let (rhi, rlo) = mul_u128_u32(denom, self.numerator);
        limbs_ge(lhi, llo, rhi, rlo)
    }

    /// A fraction is accepted only if `0 < numerator <= denominator`.
    pub fn is_valid(&self) -> (r: bool)
        ensures
            r == self.valid(),
    {
        self.numerator > 0 && self.denominator >= self.numerator
    }

    /// Validity predicate for configured fractions.
    pub open spec fn valid(self) -> bool {
        self.numerator > 0 && self.denominator >= self.numerator
    }
}

/// All bytes are ASCII decimal digits.
pub open spec fn is_digits(s: Seq<u8>) -> bool {
    forall|i: int| 0 <= i < s.len() ==> 0x30 <= #[trigger] s[i] <= 0x39
}

/// The number an ASCII digit string denotes.
pub open spec fn dec_value(s: Seq<u8>) -> int
    decreases s.len(),
{
    if s.len() == 0 {
        0
    } else {
        dec_value(s.drop_last()) * 10 + (s.last() - 0x30)
    }
}

/// Digit strings denote nonnegative numbers.
pub proof fn lemma_dec_value_nonneg(s: Seq<u8>)
    requires
        is_digits(s),
    ensures
        dec_value(s) >= 0,
    decreases s.len(),
{
    if s.len() > 0 {
        lemma_dec_value_nonneg(s.drop_last());
    }
}

/// A digit string denotes at least as much as any of its prefixes.
pub proof fn lemma_dec_value_take_le(s: Seq<u8>, i: int)
    requires
        is_digits(s),
        0 <= i <= s.len(),
    ensures
        dec_value(s.take(i)) <= dec_value(s),
    decreases s.len() - i,
{
    if i == s.len() {
        assert(s.take(i) =~= s);
    } else {
        assert(s.take(i + 1).drop_last() =~= s.take(i));
        assert(is_digits(s.take(i + 1)));
        lemma_dec_value_nonneg(s.take(i));
        lemma_dec_value_take_le(s, i + 1);
    }
}

/// What a lock message means: a window count, written in decimal digits.
/// Empty, non-digit, and out-of-range messages mean nothing.
pub open spec fn parse_windows_spec(s: Seq<u8>) -> Option<u32> {
    if s.len() > 0 && is_digits(s) && dec_value(s) <= u32::MAX {
        Some(dec_value(s) as u32)
    } else {
        None
    }
}

/// Parse a lock message as a decimal window count.
pub fn parse_windows(msg: &Vec<u8>) -> (r: Option<u32>)
    ensures
        r == parse_windows_spec(msg@),
{
    if msg.len() == 0 {
        return None;
    }
    let mut acc: u32 = 0;
    let mut i: usize = 0;
    while i < msg.len()
        invariant
            0 < msg@.len(),
            i <= msg@.len(),
            is_digits(msg@.take(i as int)),
            acc == dec_value(msg@.take(i as int)),
        decreases msg@.len() - i,
    {
        let b = msg[i];
        proof {
            assert(msg@.take(i as int + 1).drop_last() =~= msg@.take(i as int));
            assert(msg@.take(i as int + 1).last() == msg@[i as int]);
        }
        if b < 0x30 || b > 0x39 {
            proof {
                assert(!is_digits(msg@));
            }
            return None;
        }
        let d: u32 = (b - 0x30) as u32;
        let acc10 = match acc.checked_mul(10) {
            Some(v) => v,
            None => {
                proof {
                    assert(dec_value(msg@.take(i as int + 1)) > u32::MAX);
                    if is_digits(msg@) {
                        lemma_dec_value_take_le(msg@, i as int + 1);
                    }
                }
                return None;
            },
        };
        acc = match acc10.checked_add(d) {
            Some(v) => v,
            None => {
                proof {
                    assert(dec_value(msg@.take(i as int + 1)) > u32::MAX);
                    if is_digits(msg@) {
                        lemma_dec_value_take_le(msg@, i as int + 1);
                    }
                }
                return None;
            },
        };
        i += 1;
    }
    proof {
        assert(msg@.take(msg@.len() as int) =~= msg@);
    }
    Some(acc)
}

/// Copy a vector of proposal ids.
pub fn copy_ids(v: &Vec<u32>) -> (r: Vec<u32>)
    ensures
        r@ == v@,
{
    let mut r: Vec<u32> = Vec::new();
    let mut i: usize = 0;
    while i < v.len()
        invariant
            i <= v@.len(),
            r@ == v@.take(i as int),
        decreases v@.len() - i,
    {
        r.push(v[i]);
        proof {
            assert(v@.take(i as int + 1) =~= v@.take(i as int).push(v@[i as int]));
        }
        i += 1;
    }
    proof {
        assert(v@.take(v@.len() as int) =~= v@);
    }
    r
}

/// Copy a byte string.
pub fn copy_bytes(v: &Vec<u8>) -> (r: Vec<u8>)
    ensures
        r@ == v@,
{
    let mut r: Vec<u8> = Vec::new();
    let mut i: usize = 0;
    while i < v.len()
        invariant
            i <= v@.len(),
            r@ == v@.take(i as int),
        decreases v@.len() - i,
    {
        r.push(v[i]);
        proof {
            assert(v@.take(i as int + 1) =~= v@.take(i as int).push(v@[i as int]));
        }
        i += 1;
    }
    proof {
        assert(v@.take(v@.len() as int) =~= v@);
    }
    r
}

/// The ids of `v` with every occurrence of `id` removed, in order.
pub fn ids_without(v: &Vec<u32>, id: u32) -> (r: Vec<u32>)
    ensures
        r@ == v@.filter(|x: u32| x != id),
        forall|k: int| 0 <= k < r@.len() ==> v@.contains(#[trigger] r@[k]),
{
    let ghost pred = |x: u32| x != id;
    let mut r: Vec<u32> = Vec::new();
    let mut i: usize = 0;
    while i < v.len()
        invariant
            i <= v@.len(),
            r@ == v@.take(i as int).filter(pred),
            pred == (|x: u32| x != id),
            forall|k: int| 0 <= k < r@.len() ==> v@.contains(#[trigger] r@[k]),
        decreases v@.len() - i,
    {
        let x = v[i];
        proof {
            reveal(Seq::filter);
            assert(v@.take(i as int + 1).drop_last() =~= v@.take(i as int));
            assert(v@.take(i as int + 1).last() == v@[i as int]);
        }
        if x != id {
            r.push(x);
            proof {
                assert(v@.contains(v@[i as int]));
            }
        }
        i += 1;
    }
    proof {
        assert(v@.take(v@.len() as int) =~= v@);
    }
    r
}

/// Default nonsense threshold: half of all ballots.
pub open spec fn spec_default_nonsense_threshold() -> Rational {
    Rational { numerator: 1, denominator: 2 }
}

/// Build the default nonsense threshold.
#[verifier::when_used_as_spec(spec_default_nonsense_threshold)]
pub fn default_nonsense_threshold() -> (r: Rational)
    ensures
        r == spec_default_nonsense_threshold(),
{
    Rational { numerator: 1, denominator: 2 }
}

} // verus!
