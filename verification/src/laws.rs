//! Laws of the accrual engine, stated and proved over the same spec
//! functions the executable functions' contracts use.

use vstd::prelude::*;
use crate::accrual::{calls_needed, coinday_at, lemma_calls_needed_step, lemma_removed_within};
use crate::engine::{
    after_decrease, after_increase, after_liquidate, after_settle, after_total_update,
    decrease_amount, decrease_fits, liquidate_end, needs_liquidation, rolled_total,
    settle_amount,
};
use crate::ledger::LedgerView;
use crate::records::MANUAL_EPOCH_LIMIT;

verus! {

/// Catch-up is idempotent: once a record's catch-up index equals the
/// ledger's length there is nothing left to fold, so settling yields
/// zero additional reward and leaves the ledger unchanged.
pub proof fn lemma_settle_idempotent(v: LedgerView, user: u64, balance: u128, now: u128)
    requires
        v.coinday_info_at(user, now).last_index == v.awards.len(),
    ensures
        settle_amount(v, user, balance, now) == 0,
        after_settle(v, user, balance, now) == v,
{
}

/// A completed settle-and-rebase leaves the account caught up: settling
/// again, at any later instant and with any balance, yields zero
/// additional reward and changes nothing.
pub proof fn lemma_settle_twice_yields_nothing(
    v: LedgerView,
    user: u64,
    balance: u128,
    now: u128,
    balance2: u128,
    now2: u128,
)
    requires
        v.wf(),
    ensures
        ({
            let v1 = after_increase(
                after_settle(v, user, balance, now),
                user,
                balance,
                now,
                v.awards.len() as u32,
            );
            &&& settle_amount(v1, user, balance2, now2) == 0
            &&& after_settle(v1, user, balance2, now2) == v1
        }),
{
    let v1 = after_increase(
        after_settle(v, user, balance, now),
        user,
        balance,
        now,
        v.awards.len() as u32,
    );
    assert(v1.coinday_info_at(user, now2).last_index == v.awards.len());
    lemma_settle_idempotent(v1, user, balance2, now2);
}

/// Each manual liquidation call folds the backlog's next
/// `MANUAL_EPOCH_LIMIT` epochs at most: the record's checkpoint advances
/// exactly that far, the count of calls still needed to clear a backlog
/// of `b` epochs — `ceil(b / MANUAL_EPOCH_LIMIT)` — drops by exactly
/// one, and the call that folds the rest leaves the checkpoint at the
/// ledger's length.
pub proof fn lemma_liquidation_progress(v: LedgerView, user: u64, balance: u128, now: u128)
    requires
        v.wf(),
        v.backlog_of(user, now) > 0,
    ensures
        ({
            let v1 = after_liquidate(v, user, balance, now);
            let b = v.backlog_of(user, now);
            &&& v1.coinday_info_at(user, now).last_index == liquidate_end(v, user, now)
            &&& v1.backlog_of(user, now) == if b > MANUAL_EPOCH_LIMIT {
                b - MANUAL_EPOCH_LIMIT
            } else {
                0
            }
            &&& calls_needed(v1.backlog_of(user, now)) == calls_needed(b) - 1
            &&& (b <= MANUAL_EPOCH_LIMIT ==> v1.coinday_info_at(user, now).last_index
                == v.awards.len())
        }),
{
    lemma_calls_needed_step(v.backlog_of(user, now));
}

/// The inline settle path never demands manual liquidation of a
/// zero-balance account, however large its backlog; it fires exactly
/// when the backlog exceeds the inline bound and the account holds a
/// balance.
pub proof fn lemma_zero_balance_never_liquidates(v: LedgerView, user: u64, now: u128)
    ensures
        !needs_liquidation(v, user, 0, now),
{
}

/// A balance decrease is subtracted consistently: the account's rolled
/// record and the aggregate tracker lose exactly the same truncated
/// coin-day share, so the sum of rolled per-account records keeps
/// tracking the aggregate total, the truncation hitting both sides
/// alike.
pub proof fn lemma_decrease_conserves_aggregate(
    l: LedgerView,
    user: u64,
    balance: u128,
    value: u128,
    now: u128,
    index: u32,
    total_supply: u128,
)
    requires
        decrease_fits(l, user, balance, value, now),
        decrease_amount(l, user, balance, value, now) <= rolled_total(l, total_supply, now),
        rolled_total(l, total_supply, now) <= u128::MAX,
    ensures
        ({
            let removed = decrease_amount(l, user, balance, value, now);
            let l1 = after_total_update(
                after_decrease(l, user, balance, value, now, index),
                total_supply,
                now,
                removed as u128,
            );
            &&& l1.coindays[user].amount == coinday_at(l.coinday_info_at(user, now), balance, now)
                - removed
            &&& l1.total_coinday.0 == rolled_total(l, total_supply, now) - removed
        }),
{
    lemma_removed_within(coinday_at(l.coinday_info_at(user, now), balance, now), value, balance);
}

} // verus!
