//! The accrual engine's arithmetic, exercised on concrete ledgers: the
//! settle formula, the proportional decrease, the geometric emission
//! decay, the interval gate, and the bounded catch-up paths.

use coinday::engine::{decrease_coinday, seal_stream, settle_stream};
use coinday::errors::Error;
use coinday::ledger::Reward;
use coinday::records::{Coinday, EPOCH_INTERVAL, INITIAL_DAILY_AWARD};
use coinday::relp::RELP;

const ALICE: u64 = 1;
const BOB: u64 = 2;
const CHARLIE: u64 = 3;
const SELF_ID: u64 = 100;

#[test]
fn settle_single_epoch_pays_the_exact_share() {
    let mut ledger = Reward::new(ALICE, 0);
    assert!(ledger.update_coindays(ALICE, BOB, 0, 0, 0).is_ok());
    assert!(ledger.update_awards(ALICE, 100, 1000, 100).is_ok());
    // 50 tokens held from 0 to the epoch's instant 100 give 5000
    // coin-days; 5000 * 100 / 1000 = 500
    let settled = settle_stream(&mut ledger, ALICE, BOB, 50, 150);
    assert_eq!(settled, Ok((150, 1, 500)));
    assert_eq!(ledger.reward_of(BOB), 500);
}

#[test]
fn settle_is_idempotent_once_caught_up() {
    let mut ledger = Reward::new(ALICE, 0);
    assert!(ledger.update_coindays(ALICE, BOB, 0, 0, 0).is_ok());
    assert!(ledger.update_awards(ALICE, 100, 1000, 100).is_ok());
    let first = settle_stream(&mut ledger, ALICE, BOB, 50, 150);
    assert_eq!(first, Ok((150, 1, 500)));
    // the caller checkpoints the account at the returned epoch count
    assert!(ledger.update_coindays(ALICE, BOB, 7500, 150, 1).is_ok());
    // settling again yields zero additional reward
    let second = settle_stream(&mut ledger, ALICE, BOB, 50, 200);
    assert_eq!(second, Ok((200, 1, 0)));
    assert_eq!(ledger.reward_of(BOB), 500);
}

#[test]
fn settle_truncates_the_dust() {
    let mut ledger = Reward::new(ALICE, 0);
    assert!(ledger.update_coindays(ALICE, BOB, 0, 0, 0).is_ok());
    // 3 tokens for 100 units: 300 coin-days of 1000; 300 * 10 / 1000
    // truncates from 3.0 exactly; with amount 7 it truncates 2.1 to 2
    assert!(ledger.update_awards(ALICE, 7, 1000, 100).is_ok());
    let settled = settle_stream(&mut ledger, ALICE, BOB, 3, 150);
    assert_eq!(settled, Ok((150, 1, 2)));
}

#[test]
fn settle_refuses_the_wrong_caller() {
    let mut ledger = Reward::new(ALICE, 0);
    assert_eq!(
        settle_stream(&mut ledger, BOB, BOB, 50, 150),
        Err(Error::OnlyOwnerAccess)
    );
}

#[test]
fn decrease_removes_the_fixed_point_share() {
    let mut ledger = Reward::new(ALICE, 0);
    assert!(ledger.update_coindays(ALICE, BOB, 5000, 40, 0).is_ok());
    // 30 of 50 tokens leave: 5000 * (30e8 / 50) / 1e8 = 3000
    let removed = decrease_coinday(&mut ledger, ALICE, BOB, 50, 30, 40, 0);
    assert_eq!(removed, Ok(3000));
    assert_eq!(
        ledger.get_coinday_info(BOB, 40),
        Coinday { amount: 2000, timestamp: 40, last_index: 0 }
    );
}

#[test]
fn seal_sums_two_decayed_periods() {
    let mut ledger = Reward::new(ALICE, 0);
    assert!(ledger.update_daily_award(ALICE, (100, 0)).is_ok());
    assert!(ledger.update_total_coinday(ALICE, (1000, 0)).is_ok());
    // two whole periods elapsed: 100 + 99 = 199 emitted, and the next
    // period's amount is 100 * 99/100 * 99/100 truncated to 98
    assert!(seal_stream(&mut ledger, ALICE, 0, 2 * EPOCH_INTERVAL).is_ok());
    assert_eq!(ledger.daily_award(), (98, 2 * EPOCH_INTERVAL));
    assert_eq!(ledger.total_reward(), 199);
    let sealed = ledger.get_award(0).unwrap();
    assert_eq!(sealed.amount, 199);
    assert_eq!(sealed.total_coinday, 1000);
    assert_eq!(sealed.timestamp, 2 * EPOCH_INTERVAL);
    assert_eq!(ledger.total_coinday(), (1000, 2 * EPOCH_INTERVAL));
}

#[test]
fn seal_rejects_a_short_interval_and_changes_nothing() {
    let mut ledger = Reward::new(ALICE, 0);
    assert!(ledger.update_daily_award(ALICE, (100, 0)).is_ok());
    assert!(ledger.update_total_coinday(ALICE, (1000, 0)).is_ok());
    assert_eq!(
        seal_stream(&mut ledger, ALICE, 5, EPOCH_INTERVAL - 1),
        Err(Error::IntervalTooShort)
    );
    assert_eq!(ledger.daily_award(), (100, 0));
    assert_eq!(ledger.total_reward(), 0);
    assert_eq!(ledger.awards_length(), 0);
    assert_eq!(ledger.total_coinday(), (1000, 0));
}

#[test]
fn seal_refuses_a_zero_aggregate_total() {
    let mut ledger = Reward::new(ALICE, 0);
    assert!(ledger.update_daily_award(ALICE, (100, 0)).is_ok());
    // no supply and no aggregate coin-days: the epoch could never be
    // settled, so the seal is refused and nothing changes
    assert_eq!(
        seal_stream(&mut ledger, ALICE, 0, EPOCH_INTERVAL),
        Err(Error::DivisionByZero)
    );
    assert_eq!(ledger.awards_length(), 0);
    assert_eq!(ledger.daily_award(), (100, 0));
}

#[test]
fn relp_update_block_awards_seals_one_epoch() {
    let mut relp = RELP::new(ALICE, SELF_ID, 0);
    assert!(relp.mint(ALICE, 0, BOB, 1000).is_ok());
    assert!(relp.update_block_awards(ALICE, EPOCH_INTERVAL).is_ok());
    let sealed = relp.reward_contract.get_award(0).unwrap();
    assert_eq!(sealed.amount, INITIAL_DAILY_AWARD);
    assert_eq!(sealed.total_coinday, 1000 * EPOCH_INTERVAL);
    assert_eq!(sealed.timestamp, EPOCH_INTERVAL);
    assert_eq!(
        relp.reward_contract.daily_award(),
        (INITIAL_DAILY_AWARD * 99 / 100, EPOCH_INTERVAL)
    );
    assert_eq!(relp.reward_contract.total_reward(), INITIAL_DAILY_AWARD);
    // the next touch settles the whole epoch to its only holder
    assert!(relp.mint(ALICE, EPOCH_INTERVAL + 1, BOB, 1).is_ok());
    assert_eq!(relp.reward_contract.reward_of(BOB), INITIAL_DAILY_AWARD);
}

#[test]
fn relp_update_block_awards_rejects_short_interval_unchanged() {
    let mut relp = RELP::new(ALICE, SELF_ID, 0);
    assert!(relp.mint(ALICE, 0, BOB, 1000).is_ok());
    assert_eq!(relp.update_block_awards(ALICE, 1000), Err(Error::IntervalTooShort));
    assert_eq!(relp.reward_contract.awards_length(), 0);
    assert_eq!(relp.reward_contract.daily_award(), (INITIAL_DAILY_AWARD, 0));
    assert_eq!(relp.reward_contract.total_coinday(), (0, 0));
    assert_eq!(relp.reward_contract.total_reward(), 0);
}

#[test]
fn relp_update_block_awards_refuses_the_wrong_caller() {
    let mut relp = RELP::new(ALICE, SELF_ID, 0);
    assert!(relp.mint(ALICE, 0, BOB, 1000).is_ok());
    assert_eq!(relp.update_block_awards(BOB, EPOCH_INTERVAL), Err(Error::OnlyOwnerAccess));
}

#[test]
fn relp_update_increase_awards_appends_an_epoch() {
    let mut relp = RELP::new(ALICE, SELF_ID, 0);
    assert!(relp.mint(ALICE, 0, BOB, 100).is_ok());
    assert!(relp.update_increase_awards(ALICE, 10, 500).is_ok());
    let sealed = relp.add_contract.get_award(0).unwrap();
    assert_eq!(sealed.amount, 500);
    assert_eq!(sealed.total_coinday, 1000);
    assert_eq!(sealed.timestamp, 10);
    assert_eq!(relp.add_contract.total_reward(), 500);
    assert_eq!(relp.add_contract.total_coinday(), (1000, 10));
}

#[test]
fn relp_update_increase_awards_refuses_zero_total_unchanged() {
    let mut relp = RELP::new(ALICE, SELF_ID, 0);
    // no supply yet: the rolled aggregate total would be zero, and the
    // epoch could never be settled
    assert_eq!(relp.update_increase_awards(ALICE, 5, 100), Err(Error::DivisionByZero));
    assert_eq!(relp.add_contract.awards_length(), 0);
    assert_eq!(relp.add_contract.total_reward(), 0);
    assert_eq!(relp.add_contract.total_coinday(), (0, 0));
}

#[test]
fn relp_update_increase_awards_refuses_the_wrong_caller() {
    let mut relp = RELP::new(ALICE, SELF_ID, 0);
    assert!(relp.mint(ALICE, 0, BOB, 100).is_ok());
    assert_eq!(relp.update_increase_awards(BOB, 5, 100), Err(Error::OnlyOwnerAccess));
}

#[test]
fn backlog_over_the_inline_bound_demands_liquidation() {
    let mut relp = RELP::new(ALICE, SELF_ID, 0);
    assert!(relp.mint(ALICE, 0, BOB, 100).is_ok());
    for t in 1..=6u128 {
        assert!(relp.update_increase_awards(ALICE, t, 50).is_ok());
    }
    // six unfolded epochs exceed the inline bound of five for a holder
    assert_eq!(relp.mint(ALICE, 10, BOB, 5), Err(Error::NeedLiquidateIncreaseReward));
    assert_eq!(relp.balance_of(BOB), 100);
    // but never for a zero-balance account, whatever the backlog
    assert!(relp.mint(ALICE, 10, CHARLIE, 5).is_ok());
    assert_eq!(relp.balance_of(CHARLIE), 5);
}

#[test]
fn manual_liquidation_clears_the_backlog() {
    let mut relp = RELP::new(ALICE, SELF_ID, 0);
    assert!(relp.mint(ALICE, 0, BOB, 100).is_ok());
    for t in 1..=6u128 {
        assert!(relp.update_increase_awards(ALICE, t, 50).is_ok());
    }
    assert!(relp.liquidate_increase_reward(BOB, 10).is_ok());
    // each epoch's aggregate equals the holder's own coin-days, so the
    // whole emission of every epoch is owed: 6 * 50
    assert_eq!(relp.add_contract.reward_of(BOB), 300);
    let info = relp.add_contract.get_coinday_info(BOB, 99);
    assert_eq!(info.last_index, 6);
    assert_eq!(info.timestamp, 6);
    assert_eq!(info.amount, 600);
    // caught up: the inline path works again
    assert!(relp.mint(ALICE, 10, BOB, 5).is_ok());
    assert_eq!(relp.balance_of(BOB), 105);
}

#[test]
fn manual_liquidation_without_backlog_is_out_of_range() {
    let mut relp = RELP::new(ALICE, SELF_ID, 0);
    assert!(relp.mint(ALICE, 0, BOB, 100).is_ok());
    assert_eq!(relp.liquidate_increase_reward(BOB, 10), Err(Error::OutOfRange));
    assert_eq!(relp.liquidate_block_reward(BOB, 10), Err(Error::OutOfRange));
}

#[test]
fn manual_liquidation_folds_at_most_fifty_epochs_per_call() {
    let mut relp = RELP::new(ALICE, SELF_ID, 0);
    assert!(relp.mint(ALICE, 0, BOB, 100).is_ok());
    for t in 1..=60u128 {
        assert!(relp.update_increase_awards(ALICE, t, 10).is_ok());
    }
    // a backlog of 60 takes ceil(60 / 50) = 2 calls
    assert!(relp.liquidate_increase_reward(BOB, 70).is_ok());
    assert_eq!(relp.add_contract.get_coinday_info(BOB, 99).last_index, 50);
    assert_eq!(relp.add_contract.reward_of(BOB), 500);
    assert!(relp.liquidate_increase_reward(BOB, 70).is_ok());
    assert_eq!(relp.add_contract.get_coinday_info(BOB, 99).last_index, 60);
    assert_eq!(relp.add_contract.reward_of(BOB), 600);
    assert_eq!(relp.add_contract.awards_length(), 60);
    // fully caught up now
    assert_eq!(relp.liquidate_increase_reward(BOB, 70), Err(Error::OutOfRange));
}

#[test]
fn liquidate_block_reward_credits_the_block_stream() {
    let mut relp = RELP::new(ALICE, SELF_ID, 0);
    assert!(relp.mint(ALICE, 0, BOB, 1000).is_ok());
    for i in 1..=6u128 {
        assert!(relp.update_block_awards(ALICE, i * EPOCH_INTERVAL).is_ok());
    }
    assert_eq!(
        relp.mint(ALICE, 7 * EPOCH_INTERVAL, BOB, 1),
        Err(Error::NeedLiquidateIncreaseReward)
    );
    assert!(relp.liquidate_block_reward(BOB, 7 * EPOCH_INTERVAL).is_ok());
    let info = relp.reward_contract.get_coinday_info(BOB, 0);
    assert_eq!(info.last_index, 6);
    // the only holder collects every sealed emission whole
    let mut expected: u128 = 0;
    let mut daily = INITIAL_DAILY_AWARD;
    for _ in 0..6 {
        expected += daily;
        daily = daily * 99 / 100;
    }
    assert_eq!(relp.reward_contract.reward_of(BOB), expected);
}
