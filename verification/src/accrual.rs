//! The mathematics of coin-day accrual: rolling a record forward in time,
//! folding pending epochs into a reward, removing a proportional share on
//! an outbound balance change, and the geometric decay of emissions.

use vstd::prelude::*;
use vstd::arithmetic::div_mod::{
    lemma_div_is_ordered, lemma_div_pos_is_pos, lemma_fundamental_div_mod,
    lemma_div_multiples_vanish, lemma_mod_bound, lemma_hoist_over_denominator,
};
use vstd::arithmetic::mul::lemma_mul_inequality;
use crate::records::{Award, Coinday, RATIO_SCALE, MANUAL_EPOCH_LIMIT};

verus! {

/// Time elapsed from `since` to `t`; an instant before the checkpoint
/// contributes nothing.
pub open spec fn time_gap(t: u128, since: u128) -> int {
    if t >= since {
        t - since
    } else {
        0
    }
}

/// The coin-days a record holds at instant `t`, extending the recorded
/// amount with the balance held constant since the record's checkpoint.
pub open spec fn coinday_at(rec: Coinday, balance: u128, t: u128) -> int {
    rec.amount + balance * time_gap(t, rec.timestamp)
}

/// The reward one epoch owes the record: the account's coin-days at the
/// epoch's sealing instant, times the emitted amount, divided (truncating)
/// by the aggregate coin-day total observed at sealing.
pub open spec fn epoch_reward(rec: Coinday, balance: u128, a: Award) -> int {
    coinday_at(rec, balance, a.timestamp) * a.amount / a.total_coinday as int
}

/// Total reward owed by the epochs `[lo, hi)` of the ledger.
pub open spec fn settle_reward(
    awards: Seq<Award>,
    rec: Coinday,
    balance: u128,
    lo: int,
    hi: int,
) -> int
    decreases hi - lo,
{
    if lo >= hi {
        0
    } else {
        epoch_reward(rec, balance, awards[lo]) + settle_reward(awards, rec, balance, lo + 1, hi)
    }
}

/// Every intermediate value of folding the epochs `[lo, hi)` fits in a
/// `u128`, and no epoch in the range has a zero coin-day total.
pub open spec fn settle_fits(
    awards: Seq<Award>,
    rec: Coinday,
    balance: u128,
    lo: int,
    hi: int,
) -> bool {
    &&& forall|i: int|
        lo <= i < hi ==> (#[trigger] awards[i]).total_coinday > 0
    &&& forall|i: int|
        lo <= i < hi ==> coinday_at(rec, balance, (#[trigger] awards[i]).timestamp) <= u128::MAX
    &&& forall|i: int|
        lo <= i < hi ==> coinday_at(rec, balance, (#[trigger] awards[i]).timestamp)
            * awards[i].amount <= u128::MAX
    &&& settle_reward(awards, rec, balance, lo, hi) <= u128::MAX
}

/// Folding one more epoch at the back adds that epoch's reward.
pub proof fn lemma_settle_snoc(awards: Seq<Award>, rec: Coinday, balance: u128, lo: int, hi: int)
    requires
        lo <= hi,
    ensures
        settle_reward(awards, rec, balance, lo, hi + 1) == settle_reward(
            awards,
            rec,
            balance,
            lo,
            hi,
        ) + epoch_reward(rec, balance, awards[hi]),
    decreases hi - lo,
{
    if lo < hi {
        lemma_settle_snoc(awards, rec, balance, lo + 1, hi);
    } else {
        assert(settle_reward(awards, rec, balance, lo + 1, hi + 1) == 0);
    }
}

/// A fold over epochs with positive coin-day totals is non-negative.
pub proof fn lemma_settle_nonneg(awards: Seq<Award>, rec: Coinday, balance: u128, lo: int, hi: int)
    requires
        forall|i: int| lo <= i < hi ==> (#[trigger] awards[i]).total_coinday > 0,
    ensures
        settle_reward(awards, rec, balance, lo, hi) >= 0,
    decreases hi - lo,
{
    if lo < hi {
        assert(coinday_at(rec, balance, awards[lo].timestamp) >= 0) by {
            lemma_mul_inequality(0, balance as int, time_gap(awards[lo].timestamp, rec.timestamp));
        }
        assert(epoch_reward(rec, balance, awards[lo]) >= 0) by {
            lemma_mul_inequality(
                0,
                coinday_at(rec, balance, awards[lo].timestamp),
                awards[lo].amount as int,
            );
            lemma_div_pos_is_pos(
                coinday_at(rec, balance, awards[lo].timestamp) * awards[lo].amount,
                awards[lo].total_coinday as int,
            );
        }
        lemma_settle_nonneg(awards, rec, balance, lo + 1, hi);
    }
}

/// The fold splits at any midpoint.
pub proof fn lemma_settle_split(
    awards: Seq<Award>,
    rec: Coinday,
    balance: u128,
    lo: int,
    mid: int,
    hi: int,
)
    requires
        lo <= mid <= hi,
    ensures
        settle_reward(awards, rec, balance, lo, hi) == settle_reward(awards, rec, balance, lo, mid)
            + settle_reward(awards, rec, balance, mid, hi),
    decreases mid - lo,
{
    if lo < mid {
        lemma_settle_split(awards, rec, balance, lo + 1, mid, hi);
    }
}

/// A prefix of the fold never exceeds the whole fold.
pub proof fn lemma_settle_prefix_le(
    awards: Seq<Award>,
    rec: Coinday,
    balance: u128,
    lo: int,
    mid: int,
    hi: int,
)
    requires
        lo <= mid <= hi,
        forall|i: int| lo <= i < hi ==> (#[trigger] awards[i]).total_coinday > 0,
    ensures
        settle_reward(awards, rec, balance, lo, mid) <= settle_reward(awards, rec, balance, lo, hi),
{
    lemma_settle_split(awards, rec, balance, lo, mid, hi);
    lemma_settle_nonneg(awards, rec, balance, mid, hi);
}

/// The fixed-point ratio of an outbound `value` to the balance it leaves.
pub open spec fn share_ratio(value: u128, balance: u128) -> int {
    value * RATIO_SCALE / balance as int
}

/// The coin-days removed when `value` of `balance` tokens leave an account
/// holding `cur` coin-days: a proportional share, truncating at the
/// fixed-point scale.
pub open spec fn removed_coinday(cur: int, value: u128, balance: u128) -> int {
    cur * share_ratio(value, balance) / RATIO_SCALE as int
}

/// The proportional share removed is between zero and the whole amount.
pub proof fn lemma_removed_within(cur: int, value: u128, balance: u128)
    requires
        0 < balance,
        value <= balance,
        0 <= cur,
    ensures
        0 <= removed_coinday(cur, value, balance) <= cur,
{
    let ratio = share_ratio(value, balance);
    assert(value * RATIO_SCALE <= balance * RATIO_SCALE) by {
        lemma_mul_inequality(value as int, balance as int, RATIO_SCALE as int);
    }
    assert(ratio <= balance * RATIO_SCALE / balance as int) by {
        lemma_div_is_ordered(value * RATIO_SCALE, balance * RATIO_SCALE, balance as int);
    }
    assert(balance * RATIO_SCALE / balance as int == RATIO_SCALE) by {
        lemma_div_multiples_vanish(RATIO_SCALE as int, balance as int);
    }
    assert(0 <= ratio) by {
        lemma_mul_inequality(0, value as int, RATIO_SCALE as int);
        lemma_div_pos_is_pos(value * RATIO_SCALE, balance as int);
    }
    assert(cur * ratio <= cur * RATIO_SCALE) by {
        lemma_mul_inequality(ratio, RATIO_SCALE as int, cur);
        vstd::arithmetic::mul::lemma_mul_is_commutative(ratio, cur);
        vstd::arithmetic::mul::lemma_mul_is_commutative(RATIO_SCALE as int, cur);
    }
    assert(removed_coinday(cur, value, balance) <= cur * RATIO_SCALE / RATIO_SCALE as int) by {
        lemma_div_is_ordered(cur * ratio, cur * RATIO_SCALE, RATIO_SCALE as int);
    }
    assert(cur * RATIO_SCALE / RATIO_SCALE as int == cur) by {
        lemma_div_multiples_vanish(cur, RATIO_SCALE as int);
        vstd::arithmetic::mul::lemma_mul_is_commutative(RATIO_SCALE as int, cur);
    }
    assert(0 <= removed_coinday(cur, value, balance)) by {
        lemma_mul_inequality(0, cur, ratio);
        vstd::arithmetic::mul::lemma_mul_is_commutative(cur, ratio);
        lemma_div_pos_is_pos(cur * ratio, RATIO_SCALE as int);
    }
}

/// The emission amount left after `k` periods of one-percent truncating
/// decay.
pub open spec fn decayed_award(d: int, k: nat) -> int
    decreases k,
{
    if k == 0 {
        d
    } else {
        decayed_award(d * 99 / 100, (k - 1) as nat)
    }
}

/// Total emitted over `k` periods that start at amount `d` and decay one
/// percent (truncating) after each period.
pub open spec fn period_total(d: int, k: nat) -> int
    decreases k,
{
    if k == 0 {
        0
    } else {
        d + period_total(d * 99 / 100, (k - 1) as nat)
    }
}

/// The decayed amount stays within `[0, d]`, and the total emitted over
/// any number of periods stays under one hundred times the first amount.
pub proof fn lemma_period_total_bound(d: int, k: nat)
    requires
        0 <= d,
    ensures
        0 <= decayed_award(d, k) <= d,
        0 <= period_total(d, k),
        period_total(d, k) + 100 * decayed_award(d, k) <= 100 * d,
    decreases k,
{
    if k > 0 {
        let d2 = d * 99 / 100;
        assert(0 <= d2) by {
            lemma_div_pos_is_pos(d * 99, 100);
        }
        assert(100 * d2 <= 99 * d) by {
            lemma_fundamental_div_mod(d * 99, 100);
            lemma_mod_bound(d * 99, 100);
        }
        assert(d2 <= d);
        lemma_period_total_bound(d2, (k - 1) as nat);
    }
}

/// Calls needed to clear a backlog of `b` epochs when each call folds at
/// most `MANUAL_EPOCH_LIMIT` of them.
pub open spec fn calls_needed(b: int) -> int {
    (b + MANUAL_EPOCH_LIMIT - 1) / MANUAL_EPOCH_LIMIT as int
}

/// A dividend smaller than the divisor yields a zero quotient.
proof fn lemma_small_div_zero(x: int, d: int)
    requires
        0 <= x < d,
    ensures
        x / d == 0,
{
    lemma_div_pos_is_pos(x, d);
    lemma_fundamental_div_mod(x, d);
    lemma_mod_bound(x, d);
    if x / d >= 1 {
        assert(1 * d <= (x / d) * d) by {
            lemma_mul_inequality(1, x / d, d);
        }
        assert((x / d) * d == d * (x / d)) by {
            vstd::arithmetic::mul::lemma_mul_is_commutative(x / d, d);
        }
    }
}

/// One manual liquidation call brings the count of calls still needed
/// down by exactly one.
pub proof fn lemma_calls_needed_step(b: int)
    requires
        0 < b,
    ensures
        calls_needed(
            if b > MANUAL_EPOCH_LIMIT {
                b - MANUAL_EPOCH_LIMIT
            } else {
                0
            },
        ) == calls_needed(b) - 1,
        b <= MANUAL_EPOCH_LIMIT ==> calls_needed(b) == 1,
{
    let m = MANUAL_EPOCH_LIMIT as int;
    if b > m {
        assert((b - 1) / m + 1 == (b - 1 + 1 * m) / m) by {
            lemma_hoist_over_denominator(b - 1, 1, m as nat);
        }
    } else {
        lemma_small_div_zero(m - 1, m);
        lemma_small_div_zero(b - 1, m);
        assert((b - 1) / m + 1 == (b - 1 + 1 * m) / m) by {
            lemma_hoist_over_denominator(b - 1, 1, m as nat);
        }
    }
}

} // verus!
