//! The accrual engine: the algorithm layer that folds pending epochs into
//! an account's claimable reward, rebases coin-day balances on every
//! balance-changing event, keeps the aggregate tracker current, runs the
//! bounded manual catch-up, and seals new emission epochs.
//!
//! Every function here takes the ledger it drives as an explicit
//! parameter and the caller's identity; a caller other than the ledger's
//! owner is turned away before anything is written.

use vstd::prelude::*;
use crate::accrual::{
    coinday_at, epoch_reward, settle_reward, settle_fits, time_gap, removed_coinday, share_ratio,
    period_total, decayed_award, lemma_settle_snoc, lemma_settle_nonneg, lemma_settle_prefix_le,
    lemma_removed_within, lemma_period_total_bound,
};
use crate::errors::Error;
use crate::ledger::{LedgerView, Reward};
use crate::records::{
    Award, Coinday, EPOCH_INTERVAL, INLINE_EPOCH_LIMIT, MANUAL_EPOCH_LIMIT, RATIO_SCALE,
};
use vstd::arithmetic::div_mod::{lemma_fundamental_div_mod, lemma_mod_bound};

verus! {

/// The reward owed to `user` by all epochs its record has not folded yet.
pub open spec fn settle_amount(v: LedgerView, user: u64, balance: u128, now: u128) -> int {
    let info = v.coinday_info_at(user, now);
    settle_reward(v.awards, info, balance, info.last_index as int, v.awards.len() as int)
}

/// The inline settle path refuses to fold a backlog above
/// [`INLINE_EPOCH_LIMIT`] for an account that holds a balance.
pub open spec fn needs_liquidation(v: LedgerView, user: u64, balance: u128, now: u128) -> bool {
    v.backlog_of(user, now) > INLINE_EPOCH_LIMIT && balance != 0
}

/// The ledger after the pending reward of `user` was settled: the reward,
/// when positive, is credited on top of what the account already holds.
pub open spec fn after_settle(v: LedgerView, user: u64, balance: u128, now: u128) -> LedgerView {
    let r = settle_amount(v, user, balance, now);
    if r > 0 {
        LedgerView { rewards: v.rewards.insert(user, (v.reward_of(user) + r) as u128), ..v }
    } else {
        v
    }
}

/// Every intermediate value of settling `user` fits in a `u128`.
pub open spec fn settle_stream_fits(v: LedgerView, user: u64, balance: u128, now: u128) -> bool {
    let info = v.coinday_info_at(user, now);
    &&& settle_fits(v.awards, info, balance, info.last_index as int, v.awards.len() as int)
    &&& v.reward_of(user) + settle_amount(v, user, balance, now) <= u128::MAX
}

/// Settles the pending reward of `user` across its catch-up epochs.
///
/// Fails with `NeedLiquidateIncreaseReward` when the backlog exceeds the
/// inline bound and the account holds a balance; the bounded manual path
/// must run first.  On success returns the settle instant, the epoch
/// count it caught up to, and the reward credited.
pub fn settle_stream(
    ledger: &mut Reward,
    caller: u64,
    user: u64,
    balance: u128,
    now: u128,
) -> (r: Result<(u128, u32, u128), Error>)
    requires
        old(ledger)@.wf(),
        old(ledger)@.coinday_info_at(user, now).last_index <= old(ledger)@.awards.len(),
        caller == old(ledger)@.owner && !needs_liquidation(old(ledger)@, user, balance, now)
            ==> settle_stream_fits(old(ledger)@, user, balance, now),
    ensures
        caller != old(ledger)@.owner ==> r == Err::<(u128, u32, u128), Error>(
            Error::OnlyOwnerAccess,
        ) && final(ledger)@ == old(ledger)@,
        caller == old(ledger)@.owner && needs_liquidation(old(ledger)@, user, balance, now) ==> r
            == Err::<(u128, u32, u128), Error>(Error::NeedLiquidateIncreaseReward)
            && final(ledger)@ == old(ledger)@,
        caller == old(ledger)@.owner && !needs_liquidation(old(ledger)@, user, balance, now) ==> r
            == Ok::<(u128, u32, u128), Error>(
            (
                now,
                old(ledger)@.awards.len() as u32,
                settle_amount(old(ledger)@, user, balance, now) as u128,
            ),
        ) && final(ledger)@ == after_settle(old(ledger)@, user, balance, now) && 0
            <= settle_amount(old(ledger)@, user, balance, now),
{
    ledger.only_owner(caller)?;
    let n = ledger.awards_length();
    let info = ledger.get_coinday_info(user, now);
    let index = info.last_index;
    if n - index > INLINE_EPOCH_LIMIT && balance != 0 {
        return Err(Error::NeedLiquidateIncreaseReward);
    }
    proof {
        lemma_settle_nonneg(
            ledger@.awards,
            info,
            balance,
            index as int,
            ledger@.awards.len() as int,
        );
    }
    let reward = accumulate_reward(&ledger.awards, info, balance, index as usize, n as usize);
    if reward > 0 {
        let old_reward = ledger.reward_of(user);
        ledger.update_rewards(caller, user, old_reward + reward)?;
    }
    Ok((now, n, reward))
}

/// Folds the epochs `[lo, hi)` of the award ledger into one reward sum.
fn accumulate_reward(
    awards: &Vec<Award>,
    info: Coinday,
    balance: u128,
    lo: usize,
    hi: usize,
) -> (r: u128)
    requires
        lo <= hi <= awards@.len(),
        settle_fits(awards@, info, balance, lo as int, hi as int),
    ensures
        r == settle_reward(awards@, info, balance, lo as int, hi as int),
{
    let mut acc: u128 = 0;
    let mut i: usize = lo;
    while i < hi
        invariant
            lo <= i <= hi <= awards@.len(),
            settle_fits(awards@, info, balance, lo as int, hi as int),
            acc == settle_reward(awards@, info, balance, lo as int, i as int),
        decreases hi - i,
    {
        let a = awards[i];
        let dt = if a.timestamp >= info.timestamp {
            a.timestamp - info.timestamp
        } else {
            0
        };
        proof {
            assert(dt == time_gap(a.timestamp, info.timestamp));
            assert(coinday_at(info, balance, a.timestamp) <= u128::MAX);
            assert(coinday_at(info, balance, a.timestamp) * a.amount <= u128::MAX);
            lemma_settle_nonneg(awards@, info, balance, lo as int, i as int);
        }
        let coinday_i = info.amount + balance * dt;
        let term = coinday_i * a.amount / a.total_coinday;
        proof {
            assert(term == epoch_reward(info, balance, a));
            lemma_settle_snoc(awards@, info, balance, lo as int, i as int);
            lemma_settle_prefix_le(awards@, info, balance, lo as int, i + 1, hi as int);
        }
        acc = acc + term;
        i = i + 1;
    }
    acc
}

/// The record of `user` rolled forward to `now` with its balance held
/// constant, checkpointing the catch-up at epoch `index`.
pub open spec fn after_increase(
    v: LedgerView,
    user: u64,
    balance: u128,
    now: u128,
    index: u32,
) -> LedgerView {
    let info = v.coinday_info_at(user, now);
    LedgerView {
        coindays: v.coindays.insert(
            user,
            Coinday {
                amount: coinday_at(info, balance, now) as u128,
                timestamp: now,
                last_index: index,
            },
        ),
        ..v
    }
}

/// Rolls the coin-day record of `user` forward to `now` using the balance
/// it held, before an inbound balance change is applied.
pub fn increase_coinday(
    ledger: &mut Reward,
    caller: u64,
    user: u64,
    balance: u128,
    now: u128,
    index: u32,
) -> (r: Result<(), Error>)
    requires
        coinday_at(old(ledger)@.coinday_info_at(user, now), balance, now) <= u128::MAX,
    ensures
        caller != old(ledger)@.owner ==> r == Err::<(), Error>(Error::OnlyOwnerAccess)
            && final(ledger)@ == old(ledger)@,
        caller == old(ledger)@.owner ==> r == Ok::<(), Error>(()) && final(ledger)@
            == after_increase(old(ledger)@, user, balance, now, index),
{
    let info = ledger.get_coinday_info(user, now);
    let dt = if now >= info.timestamp {
        now - info.timestamp
    } else {
        0
    };
    let new_coinday = info.amount + balance * dt;
    ledger.update_coindays(caller, user, new_coinday, now, index)?;
    Ok(())
}

/// The coin-days removed from `user` when `value` of its `balance` tokens
/// leave at `now`.
pub open spec fn decrease_amount(
    v: LedgerView,
    user: u64,
    balance: u128,
    value: u128,
    now: u128,
) -> int {
    removed_coinday(coinday_at(v.coinday_info_at(user, now), balance, now), value, balance)
}

/// The record of `user` rolled forward to `now` and stripped of the
/// proportional coin-day share that `value` outbound tokens carry away.
pub open spec fn after_decrease(
    v: LedgerView,
    user: u64,
    balance: u128,
    value: u128,
    now: u128,
    index: u32,
) -> LedgerView {
    let info = v.coinday_info_at(user, now);
    let cur = coinday_at(info, balance, now);
    LedgerView {
        coindays: v.coindays.insert(
            user,
            Coinday {
                amount: (cur - removed_coinday(cur, value, balance)) as u128,
                timestamp: now,
                last_index: index,
            },
        ),
        ..v
    }
}

/// Every intermediate value of the proportional removal fits in a
/// `u128`, and the ratio is sound: a positive balance covering `value`.
pub open spec fn decrease_fits(
    v: LedgerView,
    user: u64,
    balance: u128,
    value: u128,
    now: u128,
) -> bool {
    let cur = coinday_at(v.coinday_info_at(user, now), balance, now);
    &&& 0 < balance
    &&& value <= balance
    &&& cur <= u128::MAX
    &&& value * RATIO_SCALE <= u128::MAX
    &&& cur * share_ratio(value, balance) <= u128::MAX
}

/// Rolls the coin-day record of `user` forward to `now`, removes the
/// proportional share carried away by `value` outbound tokens, and
/// returns that share so the aggregate tracker can be kept consistent.
pub fn decrease_coinday(
    ledger: &mut Reward,
    caller: u64,
    user: u64,
    balance: u128,
    value: u128,
    now: u128,
    index: u32,
) -> (r: Result<u128, Error>)
    requires
        decrease_fits(old(ledger)@, user, balance, value, now),
    ensures
        caller != old(ledger)@.owner ==> r == Err::<u128, Error>(Error::OnlyOwnerAccess)
            && final(ledger)@ == old(ledger)@,
        caller == old(ledger)@.owner ==> r == Ok::<u128, Error>(
            decrease_amount(old(ledger)@, user, balance, value, now) as u128,
        ) && final(ledger)@ == after_decrease(old(ledger)@, user, balance, value, now, index) && 0
            <= decrease_amount(old(ledger)@, user, balance, value, now),
{
    let info = ledger.get_coinday_info(user, now);
    let dt = if now >= info.timestamp {
        now - info.timestamp
    } else {
        0
    };
    let cur_coinday = info.amount + balance * dt;
    proof {
        lemma_removed_within(cur_coinday as int, value, balance);
    }
    let ratio = value * RATIO_SCALE / balance;
    let removed = cur_coinday * ratio / RATIO_SCALE;
    let new_coinday = cur_coinday - removed;
    ledger.update_coindays(caller, user, new_coinday, now, index)?;
    Ok(removed)
}

/// The aggregate coin-day total rolled forward to `t` with the whole
/// supply held constant since its last update.
pub open spec fn rolled_total(v: LedgerView, total_supply: u128, t: u128) -> int {
    v.total_coinday.0 + total_supply * time_gap(t, v.total_coinday.1)
}

/// The rolled aggregate total never goes negative.
pub proof fn lemma_rolled_total_nonneg(v: LedgerView, total_supply: u128, t: u128)
    ensures
        rolled_total(v, total_supply, t) >= 0,
{
    vstd::arithmetic::mul::lemma_mul_inequality(
        0,
        total_supply as int,
        time_gap(t, v.total_coinday.1),
    );
}

/// The tracker brought current to `t`: the whole supply accrues since the
/// last update, less what a proportional removal reported.
pub open spec fn after_total_update(
    v: LedgerView,
    total_supply: u128,
    t: u128,
    decrease: u128,
) -> LedgerView {
    LedgerView {
        total_coinday: ((rolled_total(v, total_supply, t) - decrease) as u128, t),
        ..v
    }
}

/// Brings the aggregate coin-day tracker current to `timestamp`,
/// subtracting what an outbound proportional removal reported.
pub fn update_total(
    ledger: &mut Reward,
    caller: u64,
    total_supply: u128,
    timestamp: u128,
    decrease: u128,
) -> (r: Result<(), Error>)
    requires
        rolled_total(old(ledger)@, total_supply, timestamp) <= u128::MAX,
        decrease <= rolled_total(old(ledger)@, total_supply, timestamp),
    ensures
        caller != old(ledger)@.owner ==> r == Err::<(), Error>(Error::OnlyOwnerAccess)
            && final(ledger)@ == old(ledger)@,
        caller == old(ledger)@.owner ==> r == Ok::<(), Error>(()) && final(ledger)@
            == after_total_update(old(ledger)@, total_supply, timestamp, decrease),
{
    let total_info = ledger.total_coinday();
    let dt = if timestamp >= total_info.1 {
        timestamp - total_info.1
    } else {
        0
    };
    let increase_coinday = total_supply * dt;
    let new_total_coinday = total_info.0 + increase_coinday - decrease;
    ledger.update_total_coinday(caller, (new_total_coinday, timestamp))?;
    Ok(())
}

/// The epoch index one manual liquidation call catches up to: the whole
/// backlog, capped at [`MANUAL_EPOCH_LIMIT`] epochs.
pub open spec fn liquidate_end(v: LedgerView, user: u64, now: u128) -> int {
    let info = v.coinday_info_at(user, now);
    if info.last_index + MANUAL_EPOCH_LIMIT < v.awards.len() {
        info.last_index + MANUAL_EPOCH_LIMIT
    } else {
        v.awards.len() as int
    }
}

/// The ledger after one manual liquidation call for `user`: the reward of
/// the folded epochs is credited when positive, and the record is rolled
/// to the last folded epoch's sealing instant with its catch-up index
/// advanced to [`liquidate_end`].
pub open spec fn after_liquidate(
    v: LedgerView,
    user: u64,
    balance: u128,
    now: u128,
) -> LedgerView {
    let info = v.coinday_info_at(user, now);
    let end = liquidate_end(v, user, now);
    let r = settle_reward(v.awards, info, balance, info.last_index as int, end);
    let ts_end = v.awards[end - 1].timestamp;
    let rewarded = if r > 0 {
        LedgerView { rewards: v.rewards.insert(user, (v.reward_of(user) + r) as u128), ..v }
    } else {
        v
    };
    LedgerView {
        coindays: rewarded.coindays.insert(
            user,
            Coinday {
                amount: coinday_at(info, balance, ts_end) as u128,
                timestamp: ts_end,
                last_index: end as u32,
            },
        ),
        ..rewarded
    }
}

/// Every intermediate value of one manual liquidation call fits in a
/// `u128`.
pub open spec fn liquidate_fits(v: LedgerView, user: u64, balance: u128, now: u128) -> bool {
    let info = v.coinday_info_at(user, now);
    let end = liquidate_end(v, user, now);
    &&& settle_fits(v.awards, info, balance, info.last_index as int, end)
    &&& v.reward_of(user) + settle_reward(v.awards, info, balance, info.last_index as int, end)
        <= u128::MAX
    &&& (end >= 1 ==> coinday_at(info, balance, v.awards[end - 1].timestamp) <= u128::MAX)
}

/// One bounded manual catch-up call for `user`: folds at most
/// [`MANUAL_EPOCH_LIMIT`] backlog epochs, credits their reward, and
/// advances the record's checkpoint.  Fails with `OutOfRange` when there
/// is no backlog.
pub fn liquidate_stream(
    ledger: &mut Reward,
    caller: u64,
    user: u64,
    balance: u128,
    now: u128,
) -> (r: Result<(), Error>)
    requires
        old(ledger)@.wf(),
        old(ledger)@.coinday_info_at(user, now).last_index <= old(ledger)@.awards.len(),
        caller == old(ledger)@.owner && old(ledger)@.backlog_of(user, now) > 0 ==> liquidate_fits(
            old(ledger)@,
            user,
            balance,
            now,
        ),
    ensures
        caller != old(ledger)@.owner ==> r == Err::<(), Error>(Error::OnlyOwnerAccess)
            && final(ledger)@ == old(ledger)@,
        caller == old(ledger)@.owner && old(ledger)@.backlog_of(user, now) == 0 ==> r == Err::<
            (),
            Error,
        >(Error::OutOfRange) && final(ledger)@ == old(ledger)@,
        caller == old(ledger)@.owner && old(ledger)@.backlog_of(user, now) > 0 ==> r == Ok::<
            (),
            Error,
        >(()) && final(ledger)@ == after_liquidate(old(ledger)@, user, balance, now),
{
    ledger.only_owner(caller)?;
    let n = ledger.awards_length();
    let info = ledger.get_coinday_info(user, now);
    let index = info.last_index;
    if index >= n {
        return Err(Error::OutOfRange);
    }
    let end = if n - index > MANUAL_EPOCH_LIMIT {
        index + MANUAL_EPOCH_LIMIT
    } else {
        n
    };
    let reward = accumulate_reward(&ledger.awards, info, balance, index as usize, end as usize);
    if reward > 0 {
        let old_reward = ledger.reward_of(user);
        ledger.update_rewards(caller, user, old_reward + reward)?;
    }
    let last_folded = ledger.awards[(end - 1) as usize];
    let dt = if last_folded.timestamp >= info.timestamp {
        last_folded.timestamp - info.timestamp
    } else {
        0
    };
    let new_coinday = info.amount + balance * dt;
    ledger.update_coindays(caller, user, new_coinday, last_folded.timestamp, end)?;
    Ok(())
}

/// How many whole emission periods elapsed since the period grid's start.
pub open spec fn elapsed_epochs(v: LedgerView, now: u128) -> int {
    time_gap(now, v.daily_award.1) / EPOCH_INTERVAL as int
}

/// The ledger after one seal: the elapsed periods' geometrically decayed
/// amounts are summed into one epoch, the grid advances by whole periods,
/// the aggregate tracker rolls to `now`, and the epoch is appended
/// capturing the period reward, the new aggregate total, and `now`.
pub open spec fn after_seal(v: LedgerView, total_supply: u128, now: u128) -> LedgerView {
    let k = elapsed_epochs(v, now) as nat;
    let period = period_total(v.daily_award.0 as int, k);
    let new_daily = decayed_award(v.daily_award.0 as int, k);
    let new_ts = v.daily_award.1 + k * EPOCH_INTERVAL;
    let new_total = rolled_total(v, total_supply, now);
    LedgerView {
        daily_award: (new_daily as u128, new_ts as u128),
        total_reward: (v.total_reward + period) as u128,
        total_coinday: (new_total as u128, now),
        awards: v.awards.push(
            Award { amount: period as u128, total_coinday: new_total as u128, timestamp: now },
        ),
        ..v
    }
}

/// Every intermediate value of one seal fits in a `u128` and the ledger
/// can take one more epoch.
pub open spec fn seal_fits(v: LedgerView, total_supply: u128, now: u128) -> bool {
    &&& v.awards.len() < u32::MAX
    &&& 100 * v.daily_award.0 <= u128::MAX
    &&& v.total_reward + period_total(v.daily_award.0 as int, elapsed_epochs(v, now) as nat)
        <= u128::MAX
    &&& rolled_total(v, total_supply, now) <= u128::MAX
}

/// Seals the elapsed emission periods into one new epoch.
///
/// Fails with `IntervalTooShort` before a whole period elapsed, and with
/// `DivisionByZero` when the rolled aggregate coin-day total would be
/// zero (the epoch could never be settled); either failure leaves the
/// ledger unchanged.
pub fn seal_stream(ledger: &mut Reward, caller: u64, total_supply: u128, now: u128) -> (r: Result<
    (),
    Error,
>)
    requires
        caller == old(ledger)@.owner && elapsed_epochs(old(ledger)@, now) > 0 ==> seal_fits(
            old(ledger)@,
            total_supply,
            now,
        ),
    ensures
        caller != old(ledger)@.owner ==> r == Err::<(), Error>(Error::OnlyOwnerAccess)
            && final(ledger)@ == old(ledger)@,
        caller == old(ledger)@.owner && elapsed_epochs(old(ledger)@, now) == 0 ==> r == Err::<
            (),
            Error,
        >(Error::IntervalTooShort) && final(ledger)@ == old(ledger)@,
        caller == old(ledger)@.owner && elapsed_epochs(old(ledger)@, now) > 0 && rolled_total(
            old(ledger)@,
            total_supply,
            now,
        ) == 0 ==> r == Err::<(), Error>(Error::DivisionByZero) && final(ledger)@ == old(ledger)@,
        caller == old(ledger)@.owner && elapsed_epochs(old(ledger)@, now) > 0 && rolled_total(
            old(ledger)@,
            total_supply,
            now,
        ) > 0 ==> r == Ok::<(), Error>(()) && final(ledger)@ == after_seal(
            old(ledger)@,
            total_supply,
            now,
        ),
{
    ledger.only_owner(caller)?;
    let daily = ledger.daily_award();
    let dt = if now >= daily.1 {
        now - daily.1
    } else {
        0
    };
    let epochs = dt / EPOCH_INTERVAL;
    if epochs == 0 {
        return Err(Error::IntervalTooShort);
    }
    proof {
        assert(epochs * EPOCH_INTERVAL <= dt) by {
            lemma_fundamental_div_mod(dt as int, EPOCH_INTERVAL as int);
            lemma_mod_bound(dt as int, EPOCH_INTERVAL as int);
        }
    }
    let new_timestamp = daily.1 + epochs * EPOCH_INTERVAL;

    let ghost d0 = daily.0 as int;
    let mut new_daily_amount = daily.0;
    let mut period_award: u128 = 0;
    let mut k: u128 = epochs;
    proof {
        lemma_period_total_bound(d0, epochs as nat);
    }
    while k > 0
        invariant
            k <= epochs,
            100 * d0 <= u128::MAX,
            d0 == old(ledger)@.daily_award.0,
            new_daily_amount == decayed_award(d0, (epochs - k) as nat),
            period_award == period_total(d0, (epochs - k) as nat),
        decreases k,
    {
        proof {
            lemma_period_total_bound(d0, (epochs - k) as nat);
            lemma_period_total_bound(d0, (epochs - k + 1) as nat);
            lemma_period_total_snoc(d0, (epochs - k) as nat);
        }
        period_award = period_award + new_daily_amount;
        new_daily_amount = new_daily_amount * 99 / 100;
        k = k - 1;
    }

    let total_info = ledger.total_coinday();
    let dt2 = if now >= total_info.1 {
        now - total_info.1
    } else {
        0
    };
    let increase_coinday = total_supply * dt2;
    let new_total_coinday = total_info.0 + increase_coinday;
    if new_total_coinday == 0 {
        return Err(Error::DivisionByZero);
    }
    ledger.update_daily_award(caller, (new_daily_amount, new_timestamp))?;
    let old_total_reward = ledger.total_reward();
    ledger.update_total_reward(caller, period_award + old_total_reward)?;
    ledger.update_total_coinday(caller, (new_total_coinday, now))?;
    ledger.update_awards(caller, period_award, new_total_coinday, now)?;
    Ok(())
}

/// Extending the emission run by one period adds the current decayed
/// amount.
proof fn lemma_period_total_snoc(d: int, k: nat)
    ensures
        period_total(d, k + 1) == period_total(d, k) + decayed_award(d, k),
        decayed_award(d, k + 1) == decayed_award(d, k) * 99 / 100,
    decreases k,
{
    if k > 0 {
        lemma_period_total_snoc(d * 99 / 100, (k - 1) as nat);
    } else {
        assert(period_total(d, 1) == d + period_total(d * 99 / 100, 0));
        assert(decayed_award(d, 1) == decayed_award(d * 99 / 100, 0));
    }
}

} // verus!
