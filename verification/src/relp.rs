//! The risk-reserve token: balance bookkeeping wired to the coin-day
//! accrual engine.  Every balance mutation settles the account's pending
//! rewards on both streams and rebases its coin-day records before the
//! balance itself changes; emission seals append epochs to the owned
//! ledgers.
//!
//! The token owns its collaborators: the block-reward ledger, the
//! increase-reward ledger, and the paired stable token, each created with
//! the token's own account identifier as owner, so the engine's gated
//! calls into them succeed.

use vstd::prelude::*;
use std::collections::HashMap;
use crate::accrual::{coinday_at, time_gap};
use vstd::arithmetic::div_mod::{
    lemma_div_pos_is_pos, lemma_fundamental_div_mod, lemma_mod_bound,
};
use crate::elc::{allowance_key, ELC, ElcView};
use crate::engine::{
    after_decrease, after_increase, after_liquidate, after_seal, after_settle, after_total_update,
    decrease_amount, decrease_fits, decrease_coinday, elapsed_epochs, increase_coinday,
    lemma_rolled_total_nonneg, liquidate_fits, liquidate_stream, needs_liquidation, rolled_total,
    seal_fits, seal_stream, settle_amount, settle_stream, settle_stream_fits, update_total,
};
use crate::errors::Error;
use crate::ledger::{LedgerView, Reward};
use crate::records::{Award, Coinday, EPOCH_INTERVAL, INLINE_EPOCH_LIMIT};

verus! {

broadcast use vstd::std_specs::hash::group_hash_axioms;

/// A reward-ledger state the engine can always drive safely: epochs are
/// sealed in timestamp order with positive coin-day totals, the aggregate
/// tracker is at least as current as every sealed epoch, the emission
/// grid, and every account's record, and no record's catch-up index runs
/// past the ledger.
pub open spec fn coherent_stream(l: LedgerView) -> bool {
    &&& l.wf()
    &&& forall|i: int, j: int|
        0 <= i <= j < l.awards.len() ==> (#[trigger] l.awards[i]).timestamp
            <= (#[trigger] l.awards[j]).timestamp
    &&& forall|i: int| 0 <= i < l.awards.len() ==> (#[trigger] l.awards[i]).total_coinday > 0
    &&& (l.awards.len() > 0 ==> l.awards[l.awards.len() - 1].timestamp <= l.total_coinday.1)
    &&& l.daily_award.1 <= l.total_coinday.1
    &&& forall|u: u64|
        #[trigger] l.coindays.contains_key(u) ==> {
            let rec = l.coindays[u];
            &&& rec.last_index <= l.awards.len()
            &&& rec.timestamp <= l.total_coinday.1
            &&& forall|i: int|
                rec.last_index <= i < l.awards.len() ==> (#[trigger] l.awards[i]).timestamp
                    >= rec.timestamp
        }
}

/// The block-reward stream restarted when the first tokens are minted:
/// while the supply was zero and no seal has moved the grid yet, the
/// grid's start is pulled up to `now`.
pub open spec fn reward_reset(l: LedgerView, total_supply: u128, now: u128) -> LedgerView {
    if total_supply == 0 && l.deploy_time == l.daily_award.1 {
        LedgerView { daily_award: (l.daily_award.0, now), ..l }
    } else {
        l
    }
}

/// The state a freshly created reward ledger owned by `owner` holds at
/// `now`.
pub open spec fn fresh_ledger(owner: u64, now: u128) -> LedgerView {
    LedgerView {
        total_reward: 0,
        rewards: Map::<u64, u128>::empty(),
        total_coinday: (0, now),
        coindays: Map::<u64, Coinday>::empty().insert(owner, Coinday::spec_default_at(now)),
        awards: Seq::<Award>::empty(),
        daily_award: (crate::records::INITIAL_DAILY_AWARD, now),
        deploy_time: now,
        owner,
    }
}

/// The mathematical content of a [`RELP`] token.
pub struct RelpView {
    /// Total token supply.
    pub total_supply: u128,
    /// Balance per account.
    pub balances: Map<u64, u128>,
    /// Per-account lock: the block at which it was taken and the locked
    /// amount, which the free-balance checks subtract.
    pub lock_infos: Map<u64, (u32, u128)>,
    /// Allowances, keyed by [`allowance_key`].
    pub allowances: Map<u128, u128>,
    /// The paired stable token paying the increase-reward stream.
    pub elc: ElcView,
    /// The block-reward stream's ledger.
    pub reward: LedgerView,
    /// The increase-reward stream's ledger.
    pub add: LedgerView,
    /// The administrator allowed to mint, burn and seal.
    pub owner: u64,
    /// The token's own account identifier; the owned collaborators are
    /// gated to it.
    pub id: u64,
}

impl RelpView {
    /// The balance of `account`, zero when absent.
    pub open spec fn balance_of(self, account: u64) -> u128 {
        if self.balances.contains_key(account) {
            self.balances[account]
        } else {
            0
        }
    }

    /// The lock taken on `account`, `(0, 0)` when absent.
    pub open spec fn lock_info_of(self, account: u64) -> (u32, u128) {
        if self.lock_infos.contains_key(account) {
            self.lock_infos[account]
        } else {
            (0, 0)
        }
    }

    /// The allowance from `owner` to `spender`, zero when absent.
    pub open spec fn allowance_of(self, owner: u64, spender: u64) -> u128 {
        if self.allowances.contains_key(allowance_key(owner, spender)) {
            self.allowances[allowance_key(owner, spender)]
        } else {
            0
        }
    }

    /// The token is wired and coherent: it owns its collaborators and
    /// both stream ledgers can be driven safely.
    pub open spec fn wf(self) -> bool {
        &&& self.add.owner == self.id
        &&& self.reward.owner == self.id
        &&& self.elc.owner == self.id
        &&& coherent_stream(self.add)
        &&& coherent_stream(self.reward)
    }
}

/// Touching accounts at `now` and rolling the tracker to `now` keeps a
/// stream coherent: every record is either untouched or checkpointed at
/// `now` with the whole ledger caught up.
proof fn lemma_coherent_rebased(l0: LedgerView, l1: LedgerView, now: u128)
    requires
        coherent_stream(l0),
        now >= l0.total_coinday.1,
        l1.awards == l0.awards,
        l1.total_coinday.1 == now,
        l1.daily_award.1 == l0.daily_award.1 || l1.daily_award.1 == now,
        forall|u: u64|
            #[trigger] l1.coindays.contains_key(u) ==> (l0.coindays.contains_key(u)
                && l1.coindays[u] == l0.coindays[u]) || (l1.coindays[u].timestamp == now
                && l1.coindays[u].last_index == l0.awards.len()),
    ensures
        coherent_stream(l1),
{
    assert forall|u: u64| #[trigger] l1.coindays.contains_key(u) implies {
        let rec = l1.coindays[u];
        &&& rec.last_index <= l1.awards.len()
        &&& rec.timestamp <= l1.total_coinday.1
        &&& forall|i: int|
            rec.last_index <= i < l1.awards.len() ==> (#[trigger] l1.awards[i]).timestamp
                >= rec.timestamp
    } by {
        let rec = l1.coindays[u];
        if l0.coindays.contains_key(u) && l1.coindays[u] == l0.coindays[u] {
            assert(rec.timestamp <= l0.total_coinday.1);
        } else {
            assert(rec.timestamp == now);
            assert(rec.last_index == l0.awards.len());
        }
    }
}

/// One manual liquidation call keeps a stream coherent: the record moves
/// to a sealed epoch's instant with its index advanced no further than
/// the ledger's length.
proof fn lemma_coherent_liquidated(l0: LedgerView, l1: LedgerView, user: u64, end: int)
    requires
        coherent_stream(l0),
        0 < end <= l0.awards.len(),
        l1.awards == l0.awards,
        l1.total_coinday == l0.total_coinday,
        l1.daily_award == l0.daily_award,
        forall|u: u64|
            #[trigger] l1.coindays.contains_key(u) ==> (u != user ==> l0.coindays.contains_key(u)
                && l1.coindays[u] == l0.coindays[u]),
        l1.coindays.contains_key(user),
        l1.coindays[user].timestamp == l0.awards[end - 1].timestamp,
        l1.coindays[user].last_index == end,
    ensures
        coherent_stream(l1),
{
    assert forall|u: u64| #[trigger] l1.coindays.contains_key(u) implies {
        let rec = l1.coindays[u];
        &&& rec.last_index <= l1.awards.len()
        &&& rec.timestamp <= l1.total_coinday.1
        &&& forall|i: int|
            rec.last_index <= i < l1.awards.len() ==> (#[trigger] l1.awards[i]).timestamp
                >= rec.timestamp
    } by {
        let rec = l1.coindays[u];
        if u == user {
            assert(l0.awards[end - 1].timestamp <= l0.awards[l0.awards.len() - 1].timestamp);
            assert forall|i: int|
                rec.last_index <= i < l1.awards.len() implies (#[trigger] l1.awards[i]).timestamp
                >= rec.timestamp by {
                assert(l0.awards[end - 1].timestamp <= l0.awards[i].timestamp);
            }
        }
    }
}

/// Appending one epoch sealed at the tracker's new instant keeps a
/// stream coherent.
proof fn lemma_coherent_sealed(l0: LedgerView, l1: LedgerView, now: u128)
    requires
        coherent_stream(l0),
        now >= l0.total_coinday.1,
        l0.awards.len() < u32::MAX,
        l1.awards.len() == l0.awards.len() + 1,
        forall|i: int| 0 <= i < l0.awards.len() ==> l1.awards[i] == l0.awards[i],
        l1.awards[l0.awards.len() as int].timestamp == now,
        l1.awards[l0.awards.len() as int].total_coinday > 0,
        l1.coindays == l0.coindays,
        l1.total_coinday.1 == now,
        l1.daily_award.1 <= now,
    ensures
        coherent_stream(l1),
{
    let n = l0.awards.len() as int;
    assert forall|i: int, j: int| 0 <= i <= j < l1.awards.len() implies (
    #[trigger] l1.awards[i]).timestamp <= (#[trigger] l1.awards[j]).timestamp by {
        if j < n {
        } else {
            if i < n {
                assert(l0.awards[i].timestamp <= l0.total_coinday.1) by {
                    assert(l0.awards[i].timestamp <= l0.awards[n - 1].timestamp);
                }
            }
        }
    }
    assert forall|u: u64| #[trigger] l1.coindays.contains_key(u) implies {
        let rec = l1.coindays[u];
        &&& rec.last_index <= l1.awards.len()
        &&& rec.timestamp <= l1.total_coinday.1
        &&& forall|i: int|
            rec.last_index <= i < l1.awards.len() ==> (#[trigger] l1.awards[i]).timestamp
                >= rec.timestamp
    } by {
        let rec = l1.coindays[u];
        assert(l0.coindays.contains_key(u));
        let rec0 = l0.coindays[u];
        assert(rec == rec0);
        assert forall|i: int|
            rec.last_index <= i < l1.awards.len() implies (#[trigger] l1.awards[i]).timestamp
            >= rec.timestamp by {
            if i < n {
                assert(l0.awards[i].timestamp >= rec0.timestamp);
            } else {
                assert(rec0.timestamp <= l0.total_coinday.1);
            }
        }
    }
}

/// The inline settle of `user` on one of the two streams would refuse
/// for excess backlog.
pub open spec fn settle_blocked(v: RelpView, user: u64, balance: u128, now: u128) -> bool {
    needs_liquidation(v.add, user, balance, now) || needs_liquidation(
        v.reward,
        user,
        balance,
        now,
    )
}

/// The token after a mint of `amount` to `user` at `now`: both streams
/// settled and rolled forward with the balance held before, the settled
/// increase-stream reward paid in the paired token, the balance and the
/// supply grown, and both aggregate trackers brought current to `now`.
pub open spec fn after_mint_state(v: RelpView, user: u64, amount: u128, now: u128) -> RelpView {
    let bal = v.balance_of(user);
    let r_a = settle_amount(v.add, user, bal, now);
    let add1 = after_increase(
        after_settle(v.add, user, bal, now),
        user,
        bal,
        now,
        v.add.awards.len() as u32,
    );
    let rew0 = reward_reset(v.reward, v.total_supply, now);
    let rew1 = after_increase(
        after_settle(rew0, user, bal, now),
        user,
        bal,
        now,
        v.reward.awards.len() as u32,
    );
    RelpView {
        balances: v.balances.insert(user, (bal + amount) as u128),
        total_supply: (v.total_supply + amount) as u128,
        elc: if r_a > 0 {
            v.elc.after_mint(user, r_a as u128)
        } else {
            v.elc
        },
        add: after_total_update(add1, v.total_supply, now, 0),
        reward: after_total_update(rew1, v.total_supply, now, 0),
        ..v
    }
}

/// Every intermediate value of a mint fits in a `u128`.
pub open spec fn mint_fits(v: RelpView, user: u64, amount: u128, now: u128) -> bool {
    let bal = v.balance_of(user);
    &&& settle_stream_fits(v.add, user, bal, now)
    &&& settle_stream_fits(v.reward, user, bal, now)
    &&& v.elc.total_supply + settle_amount(v.add, user, bal, now) <= u128::MAX
    &&& coinday_at(v.add.coinday_info_at(user, now), bal, now) <= u128::MAX
    &&& coinday_at(v.reward.coinday_info_at(user, now), bal, now) <= u128::MAX
    &&& bal + amount <= u128::MAX
    &&& v.total_supply + amount <= u128::MAX
    &&& rolled_total(v.add, v.total_supply, now) <= u128::MAX
    &&& rolled_total(v.reward, v.total_supply, now) <= u128::MAX
}

/// The token after a burn of `amount` from `user` at `now`: both streams
/// settled with the balance held before, the settled increase-stream
/// reward paid in the paired token, a proportional coin-day share
/// removed on each stream, the balance and the supply shrunk, and both
/// aggregate trackers brought current to `now` less the removed shares.
pub open spec fn after_burn_state(v: RelpView, user: u64, amount: u128, now: u128) -> RelpView {
    let bal = v.balance_of(user);
    let r_a = settle_amount(v.add, user, bal, now);
    let dec_a = decrease_amount(v.add, user, bal, amount, now);
    let dec_r = decrease_amount(v.reward, user, bal, amount, now);
    let add1 = after_decrease(
        after_settle(v.add, user, bal, now),
        user,
        bal,
        amount,
        now,
        v.add.awards.len() as u32,
    );
    let rew0 = reward_reset(v.reward, v.total_supply, now);
    let rew1 = after_decrease(
        after_settle(rew0, user, bal, now),
        user,
        bal,
        amount,
        now,
        v.reward.awards.len() as u32,
    );
    RelpView {
        balances: v.balances.insert(user, (bal - amount) as u128),
        total_supply: (v.total_supply - amount) as u128,
        elc: if r_a > 0 {
            v.elc.after_mint(user, r_a as u128)
        } else {
            v.elc
        },
        add: after_total_update(add1, v.total_supply, now, dec_a as u128),
        reward: after_total_update(rew1, v.total_supply, now, dec_r as u128),
        ..v
    }
}

/// Every intermediate value of a burn fits in a `u128` and the removed
/// shares stay within the rolled aggregate totals.
pub open spec fn burn_fits(v: RelpView, user: u64, amount: u128, now: u128) -> bool {
    let bal = v.balance_of(user);
    &&& settle_stream_fits(v.add, user, bal, now)
    &&& settle_stream_fits(v.reward, user, bal, now)
    &&& v.elc.total_supply + settle_amount(v.add, user, bal, now) <= u128::MAX
    &&& decrease_fits(v.add, user, bal, amount, now)
    &&& decrease_fits(v.reward, user, bal, amount, now)
    &&& decrease_amount(v.add, user, bal, amount, now) <= rolled_total(v.add, v.total_supply, now)
    &&& decrease_amount(v.reward, user, bal, amount, now) <= rolled_total(
        v.reward,
        v.total_supply,
        now,
    )
    &&& rolled_total(v.add, v.total_supply, now) <= u128::MAX
    &&& rolled_total(v.reward, v.total_supply, now) <= u128::MAX
}

/// A transfer's backlog conditions, judged before anything is written:
/// the sender with its current balance, and, for a distinct receiver,
/// the receiver with the balance it holds (the debit does not change
/// it).  A receiver who is the sender ends the sender's rebase fully
/// caught up, so no second check is needed.
pub open spec fn transfer_needs_liq(
    v: RelpView,
    from: u64,
    to: u64,
    value: u128,
    now: u128,
) -> bool {
    let bf = v.balance_of(from);
    ||| needs_liquidation(v.add, from, bf, now)
    ||| needs_liquidation(v.reward, from, bf, now)
    ||| (to != from && needs_liquidation(v.add, to, v.balance_of(to), now))
    ||| (to != from && needs_liquidation(v.reward, to, v.balance_of(to), now))
}

/// The token midway through a transfer: the sender settled on both
/// streams, its proportional coin-day share removed, its settled
/// increase-stream reward paid, and its balance debited.
pub open spec fn transfer_mid(v: RelpView, from: u64, value: u128, now: u128) -> RelpView {
    let bf = v.balance_of(from);
    let r_af = settle_amount(v.add, from, bf, now);
    let rew0 = reward_reset(v.reward, v.total_supply, now);
    RelpView {
        add: after_decrease(
            after_settle(v.add, from, bf, now),
            from,
            bf,
            value,
            now,
            v.add.awards.len() as u32,
        ),
        elc: if r_af > 0 {
            v.elc.after_mint(from, r_af as u128)
        } else {
            v.elc
        },
        reward: after_decrease(
            after_settle(rew0, from, bf, now),
            from,
            bf,
            value,
            now,
            v.reward.awards.len() as u32,
        ),
        balances: v.balances.insert(from, (bf - value) as u128),
        ..v
    }
}

/// The receiving half of a transfer: the receiver settled on both
/// streams with the balance it holds, its settled increase-stream reward
/// paid, its records rolled forward, and its balance credited.
pub open spec fn credit_side(v: RelpView, to: u64, value: u128, now: u128) -> RelpView {
    let bt = v.balance_of(to);
    let r_at = settle_amount(v.add, to, bt, now);
    RelpView {
        add: after_increase(
            after_settle(v.add, to, bt, now),
            to,
            bt,
            now,
            v.add.awards.len() as u32,
        ),
        elc: if r_at > 0 {
            v.elc.after_mint(to, r_at as u128)
        } else {
            v.elc
        },
        reward: after_increase(
            after_settle(reward_reset(v.reward, v.total_supply, now), to, bt, now),
            to,
            bt,
            now,
            v.reward.awards.len() as u32,
        ),
        balances: v.balances.insert(to, (bt + value) as u128),
        ..v
    }
}

/// The token after `value` moved from `from` to `to` at `now`: the
/// sender's side of [`transfer_mid`], then the receiver's side of
/// [`credit_side`], and both aggregate trackers brought current to `now`
/// less the sender's removed shares.
pub open spec fn after_transfer_state(
    v: RelpView,
    from: u64,
    to: u64,
    value: u128,
    now: u128,
) -> RelpView {
    let credited = credit_side(transfer_mid(v, from, value, now), to, value, now);
    let dec_a = decrease_amount(v.add, from, v.balance_of(from), value, now);
    let dec_r = decrease_amount(v.reward, from, v.balance_of(from), value, now);
    RelpView {
        add: after_total_update(credited.add, v.total_supply, now, dec_a as u128),
        reward: after_total_update(credited.reward, v.total_supply, now, dec_r as u128),
        ..credited
    }
}

/// Every intermediate value of a transfer fits in a `u128` and the
/// sender's removed shares stay within the rolled aggregate totals.
pub open spec fn transfer_fits(v: RelpView, from: u64, to: u64, value: u128, now: u128) -> bool {
    let bf = v.balance_of(from);
    let mid = transfer_mid(v, from, value, now);
    let bt = mid.balance_of(to);
    &&& settle_stream_fits(v.add, from, bf, now)
    &&& settle_stream_fits(v.reward, from, bf, now)
    &&& v.elc.total_supply + settle_amount(v.add, from, bf, now) <= u128::MAX
    &&& decrease_fits(v.add, from, bf, value, now)
    &&& decrease_fits(v.reward, from, bf, value, now)
    &&& settle_stream_fits(mid.add, to, bt, now)
    &&& settle_stream_fits(mid.reward, to, bt, now)
    &&& mid.elc.total_supply + settle_amount(mid.add, to, bt, now) <= u128::MAX
    &&& coinday_at(mid.add.coinday_info_at(to, now), bt, now) <= u128::MAX
    &&& coinday_at(mid.reward.coinday_info_at(to, now), bt, now) <= u128::MAX
    &&& bt + value <= u128::MAX
    &&& decrease_amount(v.add, from, bf, value, now) <= rolled_total(v.add, v.total_supply, now)
    &&& decrease_amount(v.reward, from, bf, value, now) <= rolled_total(
        v.reward,
        v.total_supply,
        now,
    )
    &&& rolled_total(v.add, v.total_supply, now) <= u128::MAX
    &&& rolled_total(v.reward, v.total_supply, now) <= u128::MAX
}

/// The increase-reward stream after one emission of `elc_amount` at
/// `now`: the running total-reward counter grows, the aggregate tracker
/// rolls to `now`, and one epoch capturing the emission, the rolled
/// total and `now` is appended.
pub open spec fn after_increase_awards(
    l: LedgerView,
    total_supply: u128,
    elc_amount: u128,
    now: u128,
) -> LedgerView {
    let new_total = rolled_total(l, total_supply, now);
    LedgerView {
        total_reward: (elc_amount + l.total_reward) as u128,
        total_coinday: (new_total as u128, now),
        awards: l.awards.push(
            Award { amount: elc_amount, total_coinday: new_total as u128, timestamp: now },
        ),
        ..l
    }
}

/// The risk-reserve token and the accrual state it owns.
pub struct RELP {
    /// Total token supply.
    pub total_supply: u128,
    /// Balance per account.
    pub balances: HashMap<u64, u128>,
    /// Per-account lock taken by governance.
    pub lock_infos: HashMap<u64, (u32, u128)>,
    /// Allowances, keyed by [`allowance_key`].
    pub allowances: HashMap<u128, u128>,
    /// The paired stable token paying the increase-reward stream.
    pub elc_contract: ELC,
    /// The block-reward stream's ledger.
    pub reward_contract: Reward,
    /// The increase-reward stream's ledger.
    pub add_contract: Reward,
    /// The administrator allowed to mint, burn and seal.
    pub owner: u64,
    /// The token's own account identifier.
    pub id: u64,
}

impl View for RELP {
    type V = RelpView;

    open spec fn view(&self) -> RelpView {
        RelpView {
            total_supply: self.total_supply,
            balances: self.balances@,
            lock_infos: self.lock_infos@,
            allowances: self.allowances@,
            elc: self.elc_contract@,
            reward: self.reward_contract@,
            add: self.add_contract@,
            owner: self.owner,
            id: self.id,
        }
    }
}

/// Packs an allowance's two account identifiers into its storage key.
fn relp_allowance_key(owner: u64, spender: u64) -> (r: u128)
    ensures
        r == allowance_key(owner, spender),
{
    (owner as u128) * 0x10000000000000000u128 + (spender as u128)
}

impl RELP {
    /// Creates the token with an empty supply, owned by `caller`, living
    /// at account `id`, with freshly wired collaborators it owns.
    pub fn new(caller: u64, id: u64, now: u128) -> (r: RELP)
        ensures
            r@ == (RelpView {
                total_supply: 0,
                balances: Map::<u64, u128>::empty(),
                lock_infos: Map::<u64, (u32, u128)>::empty(),
                allowances: Map::<u128, u128>::empty(),
                elc: ElcView {
                    total_supply: 0,
                    balances: Map::<u64, u128>::empty(),
                    allowances: Map::<u128, u128>::empty(),
                    events: Seq::<crate::elc::TokenEvent>::empty(),
                    owner: id,
                },
                reward: fresh_ledger(id, now),
                add: fresh_ledger(id, now),
                owner: caller,
                id,
            }),
            r@.wf(),
            r@.reward.daily_award.1 == now,
            r@.reward.deploy_time == now,
            r@.add.total_coinday == (0u128, now),
            r@.reward.total_coinday == (0u128, now),
    {
        let relp = RELP {
            total_supply: 0,
            balances: HashMap::new(),
            lock_infos: HashMap::new(),
            allowances: HashMap::new(),
            elc_contract: ELC::new(id),
            reward_contract: Reward::new(id, now),
            add_contract: Reward::new(id, now),
            owner: caller,
            id,
        };
        proof {
            assert(relp@.add.coindays.contains_key(id));
            assert(forall|u: u64|
                #[trigger] relp@.add.coindays.contains_key(u) ==> u == id);
            assert(forall|u: u64|
                #[trigger] relp@.reward.coindays.contains_key(u) ==> u == id);
        }
        relp
    }

    /// The token name.
    pub fn token_name(&self) -> (r: Option<String>)
        ensures
            r matches Some(s) && s@ == "Risk Reserve of ELP"@,
    {
        Some("Risk Reserve of ELP".to_owned())
    }

    /// The token symbol.
    pub fn token_symbol(&self) -> (r: Option<String>)
        ensures
            r matches Some(s) && s@ == "rELP"@,
    {
        Some("rELP".to_owned())
    }

    /// The token decimals.
    pub fn token_decimals(&self) -> (r: Option<u8>)
        ensures
            r == Some(8u8),
    {
        Some(8)
    }

    /// Total token supply.
    pub fn total_supply(&self) -> (r: u128)
        ensures
            r == self@.total_supply,
    {
        self.total_supply
    }

    /// The balance of `owner`, zero for an absent account.
    pub fn balance_of(&self, owner: u64) -> (r: u128)
        ensures
            r == self@.balance_of(owner),
    {
        match self.balances.get(&owner) {
            Some(v) => *v,
            None => 0,
        }
    }

    /// The lock taken on `user`, `(0, 0)` when absent.
    pub fn lock_info_of(&self, user: u64) -> (r: (u32, u128))
        ensures
            r == self@.lock_info_of(user),
    {
        match self.lock_infos.get(&user) {
            Some(v) => *v,
            None => (0, 0),
        }
    }

    /// Overwrites the lock taken on `user`; only the owner may.
    pub fn update_lock_infos(&mut self, caller: u64, user: u64, lock_info: (u32, u128)) -> (r:
        Result<(), Error>)
        ensures
            caller != old(self)@.owner ==> r == Err::<(), Error>(Error::OnlyOwnerAccess)
                && final(self)@ == old(self)@,
            caller == old(self)@.owner ==> r == Ok::<(), Error>(()) && final(self)@
                == (RelpView {
                lock_infos: old(self)@.lock_infos.insert(user, lock_info),
                ..old(self)@
            }),
    {
        if caller != self.owner {
            return Err(Error::OnlyOwnerAccess);
        }
        self.lock_infos.insert(user, lock_info);
        Ok(())
    }

    /// The amount `spender` may still withdraw from `owner`.
    pub fn allowance(&self, owner: u64, spender: u64) -> (r: u128)
        ensures
            r == self@.allowance_of(owner, spender),
    {
        let key = relp_allowance_key(owner, spender);
        match self.allowances.get(&key) {
            Some(v) => *v,
            None => 0,
        }
    }

    /// Lets `spender` withdraw up to `value` from the caller's account,
    /// overwriting any earlier allowance.
    pub fn approve(&mut self, caller: u64, spender: u64, value: u128) -> (r: Result<(), Error>)
        ensures
            r == Ok::<(), Error>(()),
            final(self)@ == (RelpView {
                allowances: old(self)@.allowances.insert(allowance_key(caller, spender), value),
                ..old(self)@
            }),
    {
        let key = relp_allowance_key(caller, spender);
        self.allowances.insert(key, value);
        Ok(())
    }

    /// The administrator allowed to mint, burn and seal.
    pub fn owner(&self) -> (r: u64)
        ensures
            r == self@.owner,
    {
        self.owner
    }

    /// Mints `amount` new tokens to `user` at `now`, settling the
    /// account's pending rewards on both streams and rolling its
    /// coin-day records forward with the balance it held before.  Only
    /// the owner may mint, the amount must be positive, and an account
    /// with excess backlog must liquidate manually first; every failure
    /// leaves the token unchanged.
    pub fn mint(&mut self, caller: u64, now: u128, user: u64, amount: u128) -> (r: Result<
        (),
        Error,
    >)
        requires
            old(self)@.wf(),
            user != 0,
            now >= old(self)@.add.total_coinday.1,
            now >= old(self)@.reward.total_coinday.1,
            caller == old(self)@.owner && amount > 0 && !settle_blocked(
                old(self)@,
                user,
                old(self)@.balance_of(user),
                now,
            ) ==> mint_fits(old(self)@, user, amount, now),
        ensures
            caller != old(self)@.owner ==> r == Err::<(), Error>(Error::OnlyOwnerAccess)
                && final(self)@ == old(self)@,
            caller == old(self)@.owner && amount == 0 ==> r == Err::<(), Error>(
                Error::InvalidAmount,
            ) && final(self)@ == old(self)@,
            caller == old(self)@.owner && amount > 0 && settle_blocked(
                old(self)@,
                user,
                old(self)@.balance_of(user),
                now,
            ) ==> r == Err::<(), Error>(Error::NeedLiquidateIncreaseReward) && final(self)@ == old(
                self,
            )@,
            caller == old(self)@.owner && amount > 0 && !settle_blocked(
                old(self)@,
                user,
                old(self)@.balance_of(user),
                now,
            ) ==> r == Ok::<(), Error>(()) && final(self)@ == after_mint_state(
                old(self)@,
                user,
                amount,
                now,
            ) && final(self)@.wf(),
    {
        if caller != self.owner {
            return Err(Error::OnlyOwnerAccess);
        }
        if amount == 0 {
            return Err(Error::InvalidAmount);
        }
        let id = self.id;
        let user_balance = self.balance_of(user);

        // both backlog checks run before anything is written, so a
        // refused call leaves every ledger untouched
        let n_add = self.add_contract.awards_length();
        let info_add = self.add_contract.get_coinday_info(user, now);
        if n_add - info_add.last_index > INLINE_EPOCH_LIMIT && user_balance != 0 {
            return Err(Error::NeedLiquidateIncreaseReward);
        }
        let n_rew = self.reward_contract.awards_length();
        let info_rew = self.reward_contract.get_coinday_info(user, now);
        if n_rew - info_rew.last_index > INLINE_EPOCH_LIMIT && user_balance != 0 {
            return Err(Error::NeedLiquidateIncreaseReward);
        }

        // settle and rebase the increase-reward stream, paying the
        // pending reward in the paired token
        let settled = settle_stream(&mut self.add_contract, id, user, user_balance, now)?;
        if settled.2 > 0 {
            self.elc_contract.mint(id, user, settled.2)?;
        }
        increase_coinday(&mut self.add_contract, id, user, user_balance, settled.0, settled.1)?;

        // settle and rebase the block-reward stream
        let total_supply = self.total_supply;
        let deploy_time = self.reward_contract.deploy_time();
        let daily_award = self.reward_contract.daily_award();
        if total_supply == 0 && deploy_time == daily_award.1 {
            self.reward_contract.update_daily_award(id, (daily_award.0, now))?;
        }
        let settled_elp = settle_stream(&mut self.reward_contract, id, user, user_balance, now)?;
        increase_coinday(&mut self.reward_contract, id, user, user_balance, now, settled_elp.1)?;

        self.balances.insert(user, user_balance + amount);

        proof {
            lemma_rolled_total_nonneg(self@.add, total_supply, now);
            lemma_rolled_total_nonneg(self@.reward, total_supply, now);
        }
        update_total(&mut self.add_contract, id, total_supply, now, 0)?;
        update_total(&mut self.reward_contract, id, total_supply, now, 0)?;
        self.total_supply = self.total_supply + amount;

        proof {
            let v0 = old(self)@;
            lemma_coherent_rebased(v0.add, self@.add, now);
            lemma_coherent_rebased(v0.reward, self@.reward, now);
        }
        Ok(())
    }

    /// Burns `amount` tokens from `user` at `now`, settling the
    /// account's pending rewards on both streams and removing the
    /// proportional coin-day share the burned tokens carry.  Only the
    /// owner may burn; the supply and the unlocked part of the balance
    /// must cover the amount; an account with excess backlog must
    /// liquidate manually first.  Every failure leaves the token
    /// unchanged.
    pub fn burn(&mut self, caller: u64, now: u128, user: u64, amount: u128) -> (r: Result<
        (),
        Error,
    >)
        requires
            old(self)@.wf(),
            user != 0,
            now >= old(self)@.add.total_coinday.1,
            now >= old(self)@.reward.total_coinday.1,
            old(self)@.lock_info_of(user).1 <= old(self)@.balance_of(user),
            old(self)@.balance_of(user) == 0 ==> amount > 0,
            caller == old(self)@.owner && old(self)@.total_supply >= amount && old(
                self,
            )@.balance_of(user) - old(self)@.lock_info_of(user).1 >= amount && !settle_blocked(
                old(self)@,
                user,
                old(self)@.balance_of(user),
                now,
            ) ==> burn_fits(old(self)@, user, amount, now),
        ensures
            caller != old(self)@.owner ==> r == Err::<(), Error>(Error::OnlyOwnerAccess)
                && final(self)@ == old(self)@,
            caller == old(self)@.owner && old(self)@.total_supply < amount ==> r == Err::<
                (),
                Error,
            >(Error::InsufficientSupply) && final(self)@ == old(self)@,
            caller == old(self)@.owner && old(self)@.total_supply >= amount && old(
                self,
            )@.balance_of(user) - old(self)@.lock_info_of(user).1 < amount ==> r == Err::<
                (),
                Error,
            >(Error::InsufficientFreeBalance) && final(self)@ == old(self)@,
            caller == old(self)@.owner && old(self)@.total_supply >= amount && old(
                self,
            )@.balance_of(user) - old(self)@.lock_info_of(user).1 >= amount && settle_blocked(
                old(self)@,
                user,
                old(self)@.balance_of(user),
                now,
            ) ==> r == Err::<(), Error>(Error::NeedLiquidateIncreaseReward) && final(self)@ == old(
                self,
            )@,
            caller == old(self)@.owner && old(self)@.total_supply >= amount && old(
                self,
            )@.balance_of(user) - old(self)@.lock_info_of(user).1 >= amount && !settle_blocked(
                old(self)@,
                user,
                old(self)@.balance_of(user),
                now,
            ) ==> r == Ok::<(), Error>(()) && final(self)@ == after_burn_state(
                old(self)@,
                user,
                amount,
                now,
            ) && final(self)@.wf(),
    {
        if caller != self.owner {
            return Err(Error::OnlyOwnerAccess);
        }
        if self.total_supply < amount {
            return Err(Error::InsufficientSupply);
        }
        let id = self.id;
        let user_balance = self.balance_of(user);
        let lock_info = self.lock_info_of(user);
        if user_balance - lock_info.1 < amount {
            return Err(Error::InsufficientFreeBalance);
        }

        // both backlog checks run before anything is written, so a
        // refused call leaves every ledger untouched
        let n_add = self.add_contract.awards_length();
        let info_add = self.add_contract.get_coinday_info(user, now);
        if n_add - info_add.last_index > INLINE_EPOCH_LIMIT && user_balance != 0 {
            return Err(Error::NeedLiquidateIncreaseReward);
        }
        let n_rew = self.reward_contract.awards_length();
        let info_rew = self.reward_contract.get_coinday_info(user, now);
        if n_rew - info_rew.last_index > INLINE_EPOCH_LIMIT && user_balance != 0 {
            return Err(Error::NeedLiquidateIncreaseReward);
        }

        // settle the increase-reward stream, pay its reward in the
        // paired token, and remove the share the burned tokens carry
        let settled = settle_stream(&mut self.add_contract, id, user, user_balance, now)?;
        if settled.2 > 0 {
            self.elc_contract.mint(id, user, settled.2)?;
        }
        let decrease = decrease_coinday(
            &mut self.add_contract,
            id,
            user,
            user_balance,
            amount,
            settled.0,
            settled.1,
        )?;

        // the same on the block-reward stream
        let total_supply = self.total_supply;
        let deploy_time = self.reward_contract.deploy_time();
        let daily_award = self.reward_contract.daily_award();
        if total_supply == 0 && deploy_time == daily_award.1 {
            self.reward_contract.update_daily_award(id, (daily_award.0, now))?;
        }
        let settled_elp = settle_stream(&mut self.reward_contract, id, user, user_balance, now)?;
        let decrease_elp = decrease_coinday(
            &mut self.reward_contract,
            id,
            user,
            user_balance,
            amount,
            now,
            settled_elp.1,
        )?;

        self.balances.insert(user, user_balance - amount);

        update_total(&mut self.add_contract, id, total_supply, now, decrease)?;
        update_total(&mut self.reward_contract, id, total_supply, now, decrease_elp)?;
        self.total_supply = self.total_supply - amount;

        proof {
            let v0 = old(self)@;
            lemma_coherent_rebased(v0.add, self@.add, now);
            lemma_coherent_rebased(v0.reward, self@.reward, now);
        }
        Ok(())
    }

    /// Moves `value` tokens from `from` to `to` at `now`: the sender is
    /// settled on both streams and gives up a proportional coin-day
    /// share, the receiver is settled and rolled forward, and only then
    /// do the balances move.  The unlocked part of the sender's balance
    /// must cover the value, and an account with excess backlog must
    /// liquidate manually first; every failure leaves the token
    /// unchanged.
    fn transfer_from_to(&mut self, from: u64, to: u64, value: u128, now: u128) -> (r: Result<
        (),
        Error,
    >)
        requires
            old(self)@.wf(),
            from != 0,
            to != 0,
            now >= old(self)@.add.total_coinday.1,
            now >= old(self)@.reward.total_coinday.1,
            old(self)@.lock_info_of(from).1 <= old(self)@.balance_of(from),
            old(self)@.balance_of(from) == 0 ==> value > 0,
            old(self)@.balance_of(from) - old(self)@.lock_info_of(from).1 >= value
                && !transfer_needs_liq(old(self)@, from, to, value, now) ==> transfer_fits(
                old(self)@,
                from,
                to,
                value,
                now,
            ),
        ensures
            old(self)@.balance_of(from) - old(self)@.lock_info_of(from).1 < value ==> r == Err::<
                (),
                Error,
            >(Error::InsufficientFreeBalance) && final(self)@ == old(self)@,
            old(self)@.balance_of(from) - old(self)@.lock_info_of(from).1 >= value
                && transfer_needs_liq(old(self)@, from, to, value, now) ==> r == Err::<(), Error>(
                Error::NeedLiquidateIncreaseReward,
            ) && final(self)@ == old(self)@,
            old(self)@.balance_of(from) - old(self)@.lock_info_of(from).1 >= value
                && !transfer_needs_liq(old(self)@, from, to, value, now) ==> r == Ok::<(), Error>(
                (),
            ) && final(self)@ == after_transfer_state(old(self)@, from, to, value, now)
                && final(self)@.wf(),
    {
        let id = self.id;
        let from_balance = self.balance_of(from);
        let lock_info = self.lock_info_of(from);
        if from_balance - lock_info.1 < value {
            return Err(Error::InsufficientFreeBalance);
        }

        // all four backlog checks run before anything is written, so a
        // refused call leaves every ledger untouched
        let n_add = self.add_contract.awards_length();
        let info_add_from = self.add_contract.get_coinday_info(from, now);
        if n_add - info_add_from.last_index > INLINE_EPOCH_LIMIT && from_balance != 0 {
            return Err(Error::NeedLiquidateIncreaseReward);
        }
        let n_rew = self.reward_contract.awards_length();
        let info_rew_from = self.reward_contract.get_coinday_info(from, now);
        if n_rew - info_rew_from.last_index > INLINE_EPOCH_LIMIT && from_balance != 0 {
            return Err(Error::NeedLiquidateIncreaseReward);
        }
        if to != from {
            let to_balance_pre = self.balance_of(to);
            let info_add_to = self.add_contract.get_coinday_info(to, now);
            if n_add - info_add_to.last_index > INLINE_EPOCH_LIMIT && to_balance_pre != 0 {
                return Err(Error::NeedLiquidateIncreaseReward);
            }
            let info_rew_to = self.reward_contract.get_coinday_info(to, now);
            if n_rew - info_rew_to.last_index > INLINE_EPOCH_LIMIT && to_balance_pre != 0 {
                return Err(Error::NeedLiquidateIncreaseReward);
            }
        }

        let total_supply = self.total_supply;
        let removed = self.rebase_out(from, value, now)?;
        proof {
            if to != from {
                assert(self@.add.coindays == old(self)@.add.coindays.insert(
                    from,
                    self@.add.coindays[from],
                ));
                assert(self@.reward.coindays == old(self)@.reward.coindays.insert(
                    from,
                    self@.reward.coindays[from],
                ));
            }
        }
        self.rebase_in(to, value, now)?;
        update_total(&mut self.add_contract, id, total_supply, now, removed.0)?;
        update_total(&mut self.reward_contract, id, total_supply, now, removed.1)?;

        proof {
            let v0 = old(self)@;
            lemma_coherent_rebased(v0.add, self@.add, now);
            lemma_coherent_rebased(v0.reward, self@.reward, now);
        }
        Ok(())
    }

    /// The sending half of a transfer: settles `from` on both streams,
    /// pays its settled increase-stream reward, removes the proportional
    /// coin-day share `value` carries away, and debits the balance.
    /// Returns the removed shares of the two streams.
    fn rebase_out(&mut self, from: u64, value: u128, now: u128) -> (r: Result<(u128, u128), Error>)
        requires
            old(self)@.wf(),
            from != 0,
            !needs_liquidation(old(self)@.add, from, old(self)@.balance_of(from), now),
            !needs_liquidation(old(self)@.reward, from, old(self)@.balance_of(from), now),
            settle_stream_fits(old(self)@.add, from, old(self)@.balance_of(from), now),
            settle_stream_fits(old(self)@.reward, from, old(self)@.balance_of(from), now),
            old(self)@.elc.total_supply + settle_amount(
                old(self)@.add,
                from,
                old(self)@.balance_of(from),
                now,
            ) <= u128::MAX,
            decrease_fits(old(self)@.add, from, old(self)@.balance_of(from), value, now),
            decrease_fits(old(self)@.reward, from, old(self)@.balance_of(from), value, now),
        ensures
            r == Ok::<(u128, u128), Error>(
                (
                    decrease_amount(
                        old(self)@.add,
                        from,
                        old(self)@.balance_of(from),
                        value,
                        now,
                    ) as u128,
                    decrease_amount(
                        old(self)@.reward,
                        from,
                        old(self)@.balance_of(from),
                        value,
                        now,
                    ) as u128,
                ),
            ),
            final(self)@ == transfer_mid(old(self)@, from, value, now),
    {
        let id = self.id;
        let from_balance = self.balance_of(from);
        let settled = settle_stream(&mut self.add_contract, id, from, from_balance, now)?;
        if settled.2 > 0 {
            self.elc_contract.mint(id, from, settled.2)?;
        }
        let decrease = decrease_coinday(
            &mut self.add_contract,
            id,
            from,
            from_balance,
            value,
            settled.0,
            settled.1,
        )?;
        let total_supply = self.total_supply;
        let deploy_time = self.reward_contract.deploy_time();
        let daily_award = self.reward_contract.daily_award();
        if total_supply == 0 && deploy_time == daily_award.1 {
            self.reward_contract.update_daily_award(id, (daily_award.0, now))?;
        }
        let settled_elp = settle_stream(&mut self.reward_contract, id, from, from_balance, now)?;
        let decrease_elp = decrease_coinday(
            &mut self.reward_contract,
            id,
            from,
            from_balance,
            value,
            now,
            settled_elp.1,
        )?;
        self.balances.insert(from, from_balance - value);
        Ok((decrease, decrease_elp))
    }

    /// The receiving half of a transfer: settles `to` on both streams
    /// with the balance it holds, pays its settled increase-stream
    /// reward, rolls its records forward, and credits the balance.
    fn rebase_in(&mut self, to: u64, value: u128, now: u128) -> (r: Result<(), Error>)
        requires
            old(self)@.add.owner == old(self)@.id,
            old(self)@.reward.owner == old(self)@.id,
            old(self)@.elc.owner == old(self)@.id,
            old(self)@.add.wf(),
            old(self)@.reward.wf(),
            to != 0,
            old(self)@.add.coinday_info_at(to, now).last_index <= old(self)@.add.awards.len(),
            old(self)@.reward.coinday_info_at(to, now).last_index <= old(
                self,
            )@.reward.awards.len(),
            !needs_liquidation(old(self)@.add, to, old(self)@.balance_of(to), now),
            !needs_liquidation(old(self)@.reward, to, old(self)@.balance_of(to), now),
            settle_stream_fits(old(self)@.add, to, old(self)@.balance_of(to), now),
            settle_stream_fits(old(self)@.reward, to, old(self)@.balance_of(to), now),
            old(self)@.elc.total_supply + settle_amount(
                old(self)@.add,
                to,
                old(self)@.balance_of(to),
                now,
            ) <= u128::MAX,
            coinday_at(
                old(self)@.add.coinday_info_at(to, now),
                old(self)@.balance_of(to),
                now,
            ) <= u128::MAX,
            coinday_at(
                old(self)@.reward.coinday_info_at(to, now),
                old(self)@.balance_of(to),
                now,
            ) <= u128::MAX,
            old(self)@.balance_of(to) + value <= u128::MAX,
        ensures
            r == Ok::<(), Error>(()),
            final(self)@ == credit_side(old(self)@, to, value, now),
    {
        let id = self.id;
        let total_supply = self.total_supply;
        let to_balance = self.balance_of(to);
        let settled_to = settle_stream(&mut self.add_contract, id, to, to_balance, now)?;
        if settled_to.2 > 0 {
            self.elc_contract.mint(id, to, settled_to.2)?;
        }
        increase_coinday(&mut self.add_contract, id, to, to_balance, settled_to.0, settled_to.1)?;
        let deploy_time = self.reward_contract.deploy_time();
        let daily_award = self.reward_contract.daily_award();
        if total_supply == 0 && deploy_time == daily_award.1 {
            self.reward_contract.update_daily_award(id, (daily_award.0, now))?;
        }
        let settled_to_elp = settle_stream(&mut self.reward_contract, id, to, to_balance, now)?;
        increase_coinday(&mut self.reward_contract, id, to, to_balance, now, settled_to_elp.1)?;
        self.balances.insert(to, to_balance + value);
        Ok(())
    }

    /// Moves `value` tokens from the caller's account to `to` at `now`.
    pub fn transfer(&mut self, caller: u64, now: u128, to: u64, value: u128) -> (r: Result<
        (),
        Error,
    >)
        requires
            old(self)@.wf(),
            caller != 0,
            to != 0,
            now >= old(self)@.add.total_coinday.1,
            now >= old(self)@.reward.total_coinday.1,
            old(self)@.lock_info_of(caller).1 <= old(self)@.balance_of(caller),
            old(self)@.balance_of(caller) == 0 ==> value > 0,
            old(self)@.balance_of(caller) - old(self)@.lock_info_of(caller).1 >= value
                && !transfer_needs_liq(old(self)@, caller, to, value, now) ==> transfer_fits(
                old(self)@,
                caller,
                to,
                value,
                now,
            ),
        ensures
            old(self)@.balance_of(caller) - old(self)@.lock_info_of(caller).1 < value ==> r
                == Err::<(), Error>(Error::InsufficientFreeBalance) && final(self)@ == old(self)@,
            old(self)@.balance_of(caller) - old(self)@.lock_info_of(caller).1 >= value
                && transfer_needs_liq(old(self)@, caller, to, value, now) ==> r == Err::<
                (),
                Error,
            >(Error::NeedLiquidateIncreaseReward) && final(self)@ == old(self)@,
            old(self)@.balance_of(caller) - old(self)@.lock_info_of(caller).1 >= value
                && !transfer_needs_liq(old(self)@, caller, to, value, now) ==> r == Ok::<
                (),
                Error,
            >(()) && final(self)@ == after_transfer_state(old(self)@, caller, to, value, now)
                && final(self)@.wf(),
    {
        self.transfer_from_to(caller, to, value, now)
    }

    /// Moves `value` tokens from `from` to `to` at `now` on the
    /// caller's allowance, which must cover the value and is reduced by
    /// it on success.
    pub fn transfer_from(
        &mut self,
        caller: u64,
        now: u128,
        from: u64,
        to: u64,
        value: u128,
    ) -> (r: Result<(), Error>)
        requires
            old(self)@.wf(),
            from != 0,
            to != 0,
            now >= old(self)@.add.total_coinday.1,
            now >= old(self)@.reward.total_coinday.1,
            old(self)@.lock_info_of(from).1 <= old(self)@.balance_of(from),
            old(self)@.balance_of(from) == 0 ==> value > 0,
            old(self)@.balance_of(from) - old(self)@.lock_info_of(from).1 >= value
                && !transfer_needs_liq(old(self)@, from, to, value, now) ==> transfer_fits(
                old(self)@,
                from,
                to,
                value,
                now,
            ),
        ensures
            old(self)@.allowance_of(from, caller) < value ==> r == Err::<(), Error>(
                Error::InsufficientAllowance,
            ) && final(self)@ == old(self)@,
            old(self)@.allowance_of(from, caller) >= value && old(self)@.balance_of(from) - old(
                self,
            )@.lock_info_of(from).1 < value ==> r == Err::<(), Error>(
                Error::InsufficientFreeBalance,
            ) && final(self)@ == old(self)@,
            old(self)@.allowance_of(from, caller) >= value && old(self)@.balance_of(from) - old(
                self,
            )@.lock_info_of(from).1 >= value && transfer_needs_liq(
                old(self)@,
                from,
                to,
                value,
                now,
            ) ==> r == Err::<(), Error>(Error::NeedLiquidateIncreaseReward) && final(self)@ == old(
                self,
            )@,
            old(self)@.allowance_of(from, caller) >= value && old(self)@.balance_of(from) - old(
                self,
            )@.lock_info_of(from).1 >= value && !transfer_needs_liq(
                old(self)@,
                from,
                to,
                value,
                now,
            ) ==> r == Ok::<(), Error>(()) && final(self)@ == (RelpView {
                allowances: after_transfer_state(
                    old(self)@,
                    from,
                    to,
                    value,
                    now,
                ).allowances.insert(
                    allowance_key(from, caller),
                    (old(self)@.allowance_of(from, caller) - value) as u128,
                ),
                ..after_transfer_state(old(self)@, from, to, value, now)
            }) && final(self)@.wf(),
    {
        let allowance = self.allowance(from, caller);
        if allowance < value {
            return Err(Error::InsufficientAllowance);
        }
        self.transfer_from_to(from, to, value, now)?;
        let key = relp_allowance_key(from, caller);
        self.allowances.insert(key, allowance - value);
        Ok(())
    }

    /// One bounded manual catch-up call for `user` on the
    /// increase-reward stream: folds at most fifty backlog epochs,
    /// credits their reward, and advances the record's checkpoint.
    /// Fails with `OutOfRange` when there is no backlog.
    pub fn liquidate_increase_reward(&mut self, user: u64, now: u128) -> (r: Result<(), Error>)
        requires
            old(self)@.wf(),
            old(self)@.add.backlog_of(user, now) > 0 ==> liquidate_fits(
                old(self)@.add,
                user,
                old(self)@.balance_of(user),
                now,
            ),
        ensures
            old(self)@.add.backlog_of(user, now) == 0 ==> r == Err::<(), Error>(Error::OutOfRange)
                && final(self)@ == old(self)@,
            old(self)@.add.backlog_of(user, now) > 0 ==> r == Ok::<(), Error>(()) && final(self)@
                == (RelpView {
                add: after_liquidate(
                    old(self)@.add,
                    user,
                    old(self)@.balance_of(user),
                    now,
                ),
                ..old(self)@
            }) && final(self)@.wf(),
    {
        let id = self.id;
        let balance = self.balance_of(user);
        liquidate_stream(&mut self.add_contract, id, user, balance, now)?;
        proof {
            if old(self)@.add.backlog_of(user, now) > 0 {
                lemma_coherent_liquidated(
                    old(self)@.add,
                    self@.add,
                    user,
                    crate::engine::liquidate_end(old(self)@.add, user, now),
                );
            }
        }
        Ok(())
    }

    /// One bounded manual catch-up call for `user` on the block-reward
    /// stream, the same way as on the increase-reward stream.
    pub fn liquidate_block_reward(&mut self, user: u64, now: u128) -> (r: Result<(), Error>)
        requires
            old(self)@.wf(),
            old(self)@.reward.backlog_of(user, now) > 0 ==> liquidate_fits(
                old(self)@.reward,
                user,
                old(self)@.balance_of(user),
                now,
            ),
        ensures
            old(self)@.reward.backlog_of(user, now) == 0 ==> r == Err::<(), Error>(
                Error::OutOfRange,
            ) && final(self)@ == old(self)@,
            old(self)@.reward.backlog_of(user, now) > 0 ==> r == Ok::<(), Error>(())
                && final(self)@ == (RelpView {
                reward: after_liquidate(
                    old(self)@.reward,
                    user,
                    old(self)@.balance_of(user),
                    now,
                ),
                ..old(self)@
            }) && final(self)@.wf(),
    {
        let id = self.id;
        let balance = self.balance_of(user);
        liquidate_stream(&mut self.reward_contract, id, user, balance, now)?;
        proof {
            if old(self)@.reward.backlog_of(user, now) > 0 {
                lemma_coherent_liquidated(
                    old(self)@.reward,
                    self@.reward,
                    user,
                    crate::engine::liquidate_end(old(self)@.reward, user, now),
                );
            }
        }
        Ok(())
    }

    /// Seals the elapsed emission periods of the block-reward stream
    /// into one new epoch.  Only the owner may seal, the supply must be
    /// positive, at least one whole period must have elapsed, and the
    /// rolled aggregate total must be positive; every failure leaves the
    /// token unchanged.
    pub fn update_block_awards(&mut self, caller: u64, now: u128) -> (r: Result<(), Error>)
        requires
            old(self)@.wf(),
            old(self)@.total_supply > 0,
            now >= old(self)@.reward.total_coinday.1,
            caller == old(self)@.owner && elapsed_epochs(old(self)@.reward, now) > 0 ==> seal_fits(
                old(self)@.reward,
                old(self)@.total_supply,
                now,
            ),
        ensures
            caller != old(self)@.owner ==> r == Err::<(), Error>(Error::OnlyOwnerAccess)
                && final(self)@ == old(self)@,
            caller == old(self)@.owner && elapsed_epochs(old(self)@.reward, now) == 0 ==> r
                == Err::<(), Error>(Error::IntervalTooShort) && final(self)@ == old(self)@,
            caller == old(self)@.owner && elapsed_epochs(old(self)@.reward, now) > 0
                && rolled_total(old(self)@.reward, old(self)@.total_supply, now) == 0 ==> r
                == Err::<(), Error>(Error::DivisionByZero) && final(self)@ == old(self)@,
            caller == old(self)@.owner && elapsed_epochs(old(self)@.reward, now) > 0
                && rolled_total(old(self)@.reward, old(self)@.total_supply, now) > 0 ==> r
                == Ok::<(), Error>(()) && final(self)@ == (RelpView {
                reward: after_seal(old(self)@.reward, old(self)@.total_supply, now),
                ..old(self)@
            }) && final(self)@.wf(),
    {
        if caller != self.owner {
            return Err(Error::OnlyOwnerAccess);
        }
        let id = self.id;
        let total_supply = self.total_supply;
        seal_stream(&mut self.reward_contract, id, total_supply, now)?;
        proof {
            let l0 = old(self)@.reward;
            let g = time_gap(now, l0.daily_award.1);
            let k = elapsed_epochs(l0, now);
            assert(k >= 0) by {
                lemma_div_pos_is_pos(g, EPOCH_INTERVAL as int);
            }
            assert(k * EPOCH_INTERVAL <= g) by {
                lemma_fundamental_div_mod(g, EPOCH_INTERVAL as int);
                lemma_mod_bound(g, EPOCH_INTERVAL as int);
            }
            lemma_coherent_sealed(l0, self@.reward, now);
        }
        Ok(())
    }

    /// Seals one emission of `elc_amount` on the increase-reward
    /// stream: the total-reward counter grows, the aggregate tracker
    /// rolls to `now`, and one epoch is appended.  Only the owner may,
    /// and the rolled aggregate total must be positive; every failure
    /// leaves the token unchanged.
    pub fn update_increase_awards(&mut self, caller: u64, now: u128, elc_amount: u128) -> (r:
        Result<(), Error>)
        requires
            old(self)@.wf(),
            now >= old(self)@.add.total_coinday.1,
            caller == old(self)@.owner ==> {
                &&& rolled_total(old(self)@.add, old(self)@.total_supply, now) <= u128::MAX
                &&& elc_amount + old(self)@.add.total_reward <= u128::MAX
                &&& old(self)@.add.awards.len() < u32::MAX
            },
        ensures
            caller != old(self)@.owner ==> r == Err::<(), Error>(Error::OnlyOwnerAccess)
                && final(self)@ == old(self)@,
            caller == old(self)@.owner && rolled_total(
                old(self)@.add,
                old(self)@.total_supply,
                now,
            ) == 0 ==> r == Err::<(), Error>(Error::DivisionByZero) && final(self)@ == old(self)@,
            caller == old(self)@.owner && rolled_total(
                old(self)@.add,
                old(self)@.total_supply,
                now,
            ) > 0 ==> r == Ok::<(), Error>(()) && final(self)@ == (RelpView {
                add: after_increase_awards(
                    old(self)@.add,
                    old(self)@.total_supply,
                    elc_amount,
                    now,
                ),
                ..old(self)@
            }) && final(self)@.wf(),
    {
        if caller != self.owner {
            return Err(Error::OnlyOwnerAccess);
        }
        let id = self.id;
        let total_info = self.add_contract.total_coinday();
        let total_supply = self.total_supply;
        let dt = if now >= total_info.1 {
            now - total_info.1
        } else {
            0
        };
        let increase = total_supply * dt;
        let new_total_coinday = total_info.0 + increase;
        if new_total_coinday == 0 {
            return Err(Error::DivisionByZero);
        }
        let old_total_reward = self.add_contract.total_reward();
        self.add_contract.update_total_reward(id, elc_amount + old_total_reward)?;
        self.add_contract.update_total_coinday(id, (new_total_coinday, now))?;
        self.add_contract.update_awards(id, elc_amount, new_total_coinday, now)?;
        proof {
            lemma_coherent_sealed(old(self)@.add, self@.add, now);
        }
        Ok(())
    }

    /// Hands the token to a new administrator.
    pub fn transfer_ownership(&mut self, caller: u64, new_owner: u64) -> (r: Result<(), Error>)
        ensures
            caller == old(self)@.owner ==> r == Ok::<(), Error>(()) && final(self)@
                == (RelpView { owner: new_owner, ..old(self)@ }),
            caller != old(self)@.owner ==> r == Err::<(), Error>(Error::OnlyOwnerAccess)
                && final(self)@ == old(self)@,
    {
        if caller != self.owner {
            return Err(Error::OnlyOwnerAccess);
        }
        self.owner = new_owner;
        Ok(())
    }
}

} // verus!
