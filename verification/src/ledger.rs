//! The reward ledger: a keyed store holding per-account coin-day records
//! and claimable rewards, the append-only award ledger of sealed epochs,
//! the aggregate coin-day tracker, and the emission schedule state.
//!
//! The store itself is plain bookkeeping; every mutating entry point is
//! owner-gated and surfaces a typed failure to any other caller.  The
//! accrual algorithm that drives it lives in `crate::engine`.

use vstd::prelude::*;
use std::collections::HashMap;
use crate::errors::Error;
use crate::records::{Award, Coinday, INITIAL_DAILY_AWARD};

verus! {

broadcast use vstd::std_specs::hash::group_hash_axioms;

/// The mathematical content of a [`Reward`] ledger.
pub struct LedgerView {
    /// Sum of all rewards ever credited.
    pub total_reward: u128,
    /// Claimable reward units per account.
    pub rewards: Map<u64, u128>,
    /// Aggregate coin-day total and the instant it was last brought
    /// current.
    pub total_coinday: (u128, u128),
    /// Per-account coin-day records.
    pub coindays: Map<u64, Coinday>,
    /// The sealed emission epochs, append-only and index-addressed.
    pub awards: Seq<Award>,
    /// Next period's emission amount and the start of the period grid.
    pub daily_award: (u128, u128),
    /// The instant the ledger was created.
    pub deploy_time: u128,
    /// The only account allowed to mutate the ledger.
    pub owner: u64,
}

impl LedgerView {
    /// The reward credited to `user`; absent accounts hold none.
    pub open spec fn reward_of(self, user: u64) -> u128 {
        if self.rewards.contains_key(user) {
            self.rewards[user]
        } else {
            0
        }
    }

    /// The coin-day record of `user`; an absent account reads as the zero
    /// record timestamped `now`.
    pub open spec fn coinday_info_at(self, user: u64, now: u128) -> Coinday {
        if self.coindays.contains_key(user) {
            self.coindays[user]
        } else {
            Coinday::spec_default_at(now)
        }
    }

    /// Number of epochs not yet folded into the account's claimed reward.
    pub open spec fn backlog_of(self, user: u64, now: u128) -> int {
        self.awards.len() - self.coinday_info_at(user, now).last_index
    }

    /// The epoch count stays addressable by a `u32` index.
    pub open spec fn wf(self) -> bool {
        self.awards.len() <= u32::MAX
    }
}

/// A reward ledger with persistent keyed storage.
pub struct Reward {
    /// Sum of all rewards ever credited.
    pub total_reward: u128,
    /// Claimable reward units per account.
    pub rewards: HashMap<u64, u128>,
    /// Aggregate coin-day total and its last update instant.
    pub total_coinday: (u128, u128),
    /// Per-account coin-day records.
    pub coindays: HashMap<u64, Coinday>,
    /// The sealed emission epochs.
    pub awards: Vec<Award>,
    /// Next period's emission amount and the start of the period grid.
    pub daily_award: (u128, u128),
    /// The instant the ledger was created.
    pub deploy_time: u128,
    /// The only account allowed to mutate the ledger.
    pub owner: u64,
}

impl View for Reward {
    type V = LedgerView;

    open spec fn view(&self) -> LedgerView {
        LedgerView {
            total_reward: self.total_reward,
            rewards: self.rewards@,
            total_coinday: self.total_coinday,
            coindays: self.coindays@,
            awards: self.awards@,
            daily_award: self.daily_award,
            deploy_time: self.deploy_time,
            owner: self.owner,
        }
    }
}

impl Reward {
    /// Creates an empty ledger owned by `owner`: no epochs, no rewards,
    /// the owner's zero coin-day record, and the first period's emission
    /// amount scheduled from `now`.
    pub fn new(owner: u64, now: u128) -> (r: Reward)
        ensures
            r@ == (LedgerView {
                total_reward: 0,
                rewards: Map::<u64, u128>::empty(),
                total_coinday: (0, now),
                coindays: Map::<u64, Coinday>::empty().insert(
                    owner,
                    Coinday::spec_default_at(now),
                ),
                awards: Seq::<Award>::empty(),
                daily_award: (INITIAL_DAILY_AWARD, now),
                deploy_time: now,
                owner,
            }),
    {
        let mut coindays: HashMap<u64, Coinday> = HashMap::new();
        coindays.insert(owner, Coinday::default_at(now));
        Reward {
            total_reward: 0,
            rewards: HashMap::new(),
            total_coinday: (0, now),
            coindays,
            awards: Vec::new(),
            daily_award: (INITIAL_DAILY_AWARD, now),
            deploy_time: now,
            owner,
        }
    }

    /// Sum of all rewards ever credited.
    pub fn total_reward(&self) -> (r: u128)
        ensures
            r == self@.total_reward,
    {
        self.total_reward
    }

    /// The reward credited to `user`, zero for an absent account.
    pub fn reward_of(&self, user: u64) -> (r: u128)
        ensures
            r == self@.reward_of(user),
    {
        match self.rewards.get(&user) {
            Some(v) => *v,
            None => 0,
        }
    }

    /// The aggregate coin-day total and its last update instant.
    pub fn total_coinday(&self) -> (r: (u128, u128))
        ensures
            r == self@.total_coinday,
    {
        self.total_coinday
    }

    /// The epoch at `index`, or `OutOfRange` past the ledger's length.
    pub fn get_award(&self, index: u32) -> (r: Result<Award, Error>)
        ensures
            index < self@.awards.len() ==> r == Ok::<Award, Error>(self@.awards[index as int]),
            index >= self@.awards.len() ==> r == Err::<Award, Error>(Error::OutOfRange),
    {
        if (index as usize) < self.awards.len() {
            Ok(self.awards[index as usize])
        } else {
            Err(Error::OutOfRange)
        }
    }

    /// The number of sealed epochs.
    pub fn awards_length(&self) -> (r: u32)
        requires
            self@.wf(),
        ensures
            r == self@.awards.len(),
    {
        self.awards.len() as u32
    }

    /// The coin-day record of `user`; an absent account reads as the zero
    /// record timestamped `now`.
    pub fn get_coinday_info(&self, user: u64, now: u128) -> (r: Coinday)
        ensures
            r == self@.coinday_info_at(user, now),
    {
        match self.coindays.get(&user) {
            Some(v) => *v,
            None => Coinday::default_at(now),
        }
    }

    /// Next period's emission amount and the start of the period grid.
    pub fn daily_award(&self) -> (r: (u128, u128))
        ensures
            r == self@.daily_award,
    {
        self.daily_award
    }

    /// The instant the ledger was created.
    pub fn deploy_time(&self) -> (r: u128)
        ensures
            r == self@.deploy_time,
    {
        self.deploy_time
    }

    /// The only account allowed to mutate the ledger.
    pub fn owner(&self) -> (r: u64)
        ensures
            r == self@.owner,
    {
        self.owner
    }

    /// Admits the owner and turns any other caller away.
    pub fn only_owner(&self, caller: u64) -> (r: Result<(), Error>)
        ensures
            r == if caller == self@.owner {
                Ok::<(), Error>(())
            } else {
                Err::<(), Error>(Error::OnlyOwnerAccess)
            },
    {
        if caller != self.owner {
            return Err(Error::OnlyOwnerAccess);
        }
        Ok(())
    }

    /// Overwrites the total-reward counter.
    pub fn update_total_reward(&mut self, caller: u64, new_value: u128) -> (r: Result<(), Error>)
        ensures
            caller == old(self)@.owner ==> r == Ok::<(), Error>(()) && final(self)@
                == (LedgerView { total_reward: new_value, ..old(self)@ }),
            caller != old(self)@.owner ==> r == Err::<(), Error>(Error::OnlyOwnerAccess)
                && final(self)@ == old(self)@,
    {
        self.only_owner(caller)?;
        self.total_reward = new_value;
        Ok(())
    }

    /// Overwrites the reward credited to `user`.
    pub fn update_rewards(&mut self, caller: u64, user: u64, value: u128) -> (r: Result<
        (),
        Error,
    >)
        ensures
            caller == old(self)@.owner ==> r == Ok::<(), Error>(()) && final(self)@
                == (LedgerView { rewards: old(self)@.rewards.insert(user, value), ..old(self)@ }),
            caller != old(self)@.owner ==> r == Err::<(), Error>(Error::OnlyOwnerAccess)
                && final(self)@ == old(self)@,
    {
        self.only_owner(caller)?;
        self.rewards.insert(user, value);
        Ok(())
    }

    /// Overwrites the aggregate coin-day total and its update instant.
    pub fn update_total_coinday(&mut self, caller: u64, new_value: (u128, u128)) -> (r: Result<
        (),
        Error,
    >)
        ensures
            caller == old(self)@.owner ==> r == Ok::<(), Error>(()) && final(self)@
                == (LedgerView { total_coinday: new_value, ..old(self)@ }),
            caller != old(self)@.owner ==> r == Err::<(), Error>(Error::OnlyOwnerAccess)
                && final(self)@ == old(self)@,
    {
        self.only_owner(caller)?;
        self.total_coinday = new_value;
        Ok(())
    }

    /// Overwrites the coin-day record of `user`.
    pub fn update_coindays(
        &mut self,
        caller: u64,
        user: u64,
        coinday: u128,
        timestamp: u128,
        index: u32,
    ) -> (r: Result<(), Error>)
        ensures
            caller == old(self)@.owner ==> r == Ok::<(), Error>(()) && final(self)@
                == (LedgerView {
                coindays: old(self)@.coindays.insert(
                    user,
                    Coinday { amount: coinday, timestamp, last_index: index },
                ),
                ..old(self)@
            }),
            caller != old(self)@.owner ==> r == Err::<(), Error>(Error::OnlyOwnerAccess)
                && final(self)@ == old(self)@,
    {
        self.only_owner(caller)?;
        let info = Coinday { amount: coinday, timestamp, last_index: index };
        self.coindays.insert(user, info);
        Ok(())
    }

    /// Seals one immutable epoch at the next index.  An epoch whose
    /// aggregate coin-day total is zero could never be settled (the
    /// division by it must not occur), so the append is refused.
    pub fn update_awards(
        &mut self,
        caller: u64,
        amount: u128,
        total_coinday: u128,
        timestamp: u128,
    ) -> (r: Result<(), Error>)
        requires
            old(self)@.awards.len() < u32::MAX,
        ensures
            caller == old(self)@.owner && total_coinday > 0 ==> r == Ok::<(), Error>(())
                && final(self)@ == (LedgerView {
                awards: old(self)@.awards.push(Award { amount, total_coinday, timestamp }),
                ..old(self)@
            }),
            caller == old(self)@.owner && total_coinday == 0 ==> r == Err::<(), Error>(
                Error::DivisionByZero,
            ) && final(self)@ == old(self)@,
            caller != old(self)@.owner ==> r == Err::<(), Error>(Error::OnlyOwnerAccess)
                && final(self)@ == old(self)@,
    {
        self.only_owner(caller)?;
        if total_coinday == 0 {
            return Err(Error::DivisionByZero);
        }
        let new_award = Award { amount, total_coinday, timestamp };
        self.awards.push(new_award);
        Ok(())
    }

    /// Overwrites the next emission amount and the period-grid start.
    pub fn update_daily_award(&mut self, caller: u64, new_amount: (u128, u128)) -> (r: Result<
        (),
        Error,
    >)
        ensures
            caller == old(self)@.owner ==> r == Ok::<(), Error>(()) && final(self)@
                == (LedgerView { daily_award: new_amount, ..old(self)@ }),
            caller != old(self)@.owner ==> r == Err::<(), Error>(Error::OnlyOwnerAccess)
                && final(self)@ == old(self)@,
    {
        self.only_owner(caller)?;
        self.daily_award = new_amount;
        Ok(())
    }

    /// Hands the ledger to a new owner.
    pub fn transfer_ownership(&mut self, caller: u64, new_owner: u64) -> (r: Result<(), Error>)
        ensures
            caller == old(self)@.owner ==> r == Ok::<(), Error>(()) && final(self)@
                == (LedgerView { owner: new_owner, ..old(self)@ }),
            caller != old(self)@.owner ==> r == Err::<(), Error>(Error::OnlyOwnerAccess)
                && final(self)@ == old(self)@,
    {
        self.only_owner(caller)?;
        self.owner = new_owner;
        Ok(())
    }
}

} // verus!
