//! The risk-reserve token: balance changes wired to the accrual engine,
//! allowances, locks, ownership, and the paired-token payout.

use coinday::errors::Error;
use coinday::records::{Coinday, INITIAL_DAILY_AWARD};
use coinday::relp::RELP;

const ALICE: u64 = 1;
const BOB: u64 = 2;
const CHARLIE: u64 = 3;
const DAVE: u64 = 4;
const SELF_ID: u64 = 100;

#[test]
fn relp_new_works() {
    let relp = RELP::new(ALICE, SELF_ID, 0);
    assert_eq!(
        relp.token_name().unwrap_or_else(|| "Error name".to_string()),
        "Risk Reserve of ELP"
    );
    assert_eq!(relp.token_symbol().unwrap_or_else(|| "Error symbol".to_string()), "rELP");
    assert_eq!(relp.token_decimals().unwrap_or(0), 8);
    assert_eq!(relp.total_supply(), 0);
    assert_eq!(relp.balance_of(ALICE), 0);
    assert_eq!(relp.lock_info_of(ALICE), (0, 0));
    assert_eq!(relp.owner(), ALICE);
}

#[test]
fn relp_allowance_works() {
    let mut relp = RELP::new(ALICE, SELF_ID, 0);
    assert_eq!(relp.allowance(ALICE, BOB), 0);
    assert!(relp.approve(ALICE, BOB, 50).is_ok());
    assert_eq!(relp.allowance(ALICE, BOB), 50);
}

#[test]
fn relp_approve_works() {
    let mut relp = RELP::new(ALICE, SELF_ID, 0);
    assert!(relp.approve(ALICE, BOB, 66).is_ok());
    assert_eq!(relp.allowance(ALICE, BOB), 66);
}

#[test]
fn relp_transfer_ownership_works() {
    let mut relp = RELP::new(ALICE, SELF_ID, 0);
    assert!(relp.transfer_ownership(ALICE, BOB).is_ok());
    assert_eq!(relp.owner(), BOB);
}

#[test]
fn relp_transfer_ownership_failed_when_not_owner() {
    let mut relp = RELP::new(ALICE, SELF_ID, 0);
    assert_eq!(relp.transfer_ownership(BOB, BOB), Err(Error::OnlyOwnerAccess));
}

#[test]
fn relp_update_lock_infos_works() {
    let mut relp = RELP::new(ALICE, SELF_ID, 0);
    assert!(relp.update_lock_infos(ALICE, BOB, (7, 40)).is_ok());
    assert_eq!(relp.lock_info_of(BOB), (7, 40));
}

#[test]
fn relp_update_lock_infos_failed_when_not_owner() {
    let mut relp = RELP::new(ALICE, SELF_ID, 0);
    assert_eq!(relp.update_lock_infos(BOB, BOB, (7, 40)), Err(Error::OnlyOwnerAccess));
}

#[test]
fn relp_mint_works() {
    let mut relp = RELP::new(ALICE, SELF_ID, 0);
    assert!(relp.mint(ALICE, 10, BOB, 500).is_ok());
    assert_eq!(relp.balance_of(BOB), 500);
    assert_eq!(relp.total_supply(), 500);
    // the account's coin-day records start at the mint instant
    assert_eq!(
        relp.add_contract.get_coinday_info(BOB, 99),
        Coinday { amount: 0, timestamp: 10, last_index: 0 }
    );
    assert_eq!(relp.add_contract.total_coinday(), (0, 10));
    // the first mint restarts the block-reward emission grid
    assert_eq!(relp.reward_contract.daily_award(), (INITIAL_DAILY_AWARD, 10));
}

#[test]
fn relp_mint_failed_when_not_owner_or_zero_amount() {
    let mut relp = RELP::new(ALICE, SELF_ID, 0);
    assert_eq!(relp.mint(ALICE, 10, BOB, 0), Err(Error::InvalidAmount));
    assert_eq!(relp.mint(BOB, 10, BOB, 5), Err(Error::OnlyOwnerAccess));
    assert_eq!(relp.total_supply(), 0);
}

#[test]
fn relp_burn_works() {
    let mut relp = RELP::new(ALICE, SELF_ID, 0);
    assert!(relp.mint(ALICE, 10, BOB, 500).is_ok());
    assert!(relp.burn(ALICE, 20, BOB, 200).is_ok());
    assert_eq!(relp.balance_of(BOB), 300);
    assert_eq!(relp.total_supply(), 300);
    // rolled to 20: 500 tokens held for 10 units give 5000 coin-days;
    // 200 of 500 leaving removes 2000 of them
    assert_eq!(
        relp.add_contract.get_coinday_info(BOB, 99),
        Coinday { amount: 3000, timestamp: 20, last_index: 0 }
    );
    assert_eq!(relp.add_contract.total_coinday(), (3000, 20));
    assert_eq!(relp.reward_contract.total_coinday(), (3000, 20));
}

#[test]
fn relp_burn_failed_when_not_owner() {
    let mut relp = RELP::new(ALICE, SELF_ID, 0);
    assert!(relp.mint(ALICE, 10, BOB, 500).is_ok());
    assert_eq!(relp.burn(BOB, 20, BOB, 100), Err(Error::OnlyOwnerAccess));
}

#[test]
fn relp_burn_failed_when_not_enough_supply_or_free_balance() {
    let mut relp = RELP::new(ALICE, SELF_ID, 0);
    assert!(relp.mint(ALICE, 10, BOB, 500).is_ok());
    assert_eq!(relp.burn(ALICE, 20, BOB, 600), Err(Error::InsufficientSupply));
    assert!(relp.update_lock_infos(ALICE, BOB, (0, 400)).is_ok());
    assert_eq!(relp.burn(ALICE, 20, BOB, 200), Err(Error::InsufficientFreeBalance));
    assert_eq!(relp.balance_of(BOB), 500);
}

#[test]
fn relp_transfer_works() {
    let mut relp = RELP::new(ALICE, SELF_ID, 0);
    assert!(relp.mint(ALICE, 10, BOB, 500).is_ok());
    assert!(relp.transfer(BOB, 20, CHARLIE, 200).is_ok());
    assert_eq!(relp.balance_of(BOB), 300);
    assert_eq!(relp.balance_of(CHARLIE), 200);
    assert_eq!(relp.total_supply(), 500);
    // the sender gives up a proportional share of its 5000 coin-days;
    // the receiver starts fresh at the transfer instant
    assert_eq!(
        relp.add_contract.get_coinday_info(BOB, 99),
        Coinday { amount: 3000, timestamp: 20, last_index: 0 }
    );
    assert_eq!(
        relp.add_contract.get_coinday_info(CHARLIE, 99),
        Coinday { amount: 0, timestamp: 20, last_index: 0 }
    );
    assert_eq!(relp.add_contract.total_coinday(), (3000, 20));
}

#[test]
fn relp_transfer_failed_when_has_not_enough_free_balance() {
    let mut relp = RELP::new(ALICE, SELF_ID, 0);
    assert!(relp.mint(ALICE, 10, BOB, 500).is_ok());
    assert_eq!(relp.transfer(BOB, 20, CHARLIE, 600), Err(Error::InsufficientFreeBalance));
    assert!(relp.update_lock_infos(ALICE, BOB, (0, 450)).is_ok());
    assert_eq!(relp.transfer(BOB, 20, CHARLIE, 100), Err(Error::InsufficientFreeBalance));
}

#[test]
fn relp_transfer_from_works() {
    let mut relp = RELP::new(ALICE, SELF_ID, 0);
    assert!(relp.mint(ALICE, 10, BOB, 500).is_ok());
    assert!(relp.approve(BOB, CHARLIE, 300).is_ok());
    assert!(relp.transfer_from(CHARLIE, 20, BOB, DAVE, 250).is_ok());
    assert_eq!(relp.allowance(BOB, CHARLIE), 50);
    assert_eq!(relp.balance_of(BOB), 250);
    assert_eq!(relp.balance_of(DAVE), 250);
}

#[test]
fn relp_transfer_from_failed_when_not_enough_allowance() {
    let mut relp = RELP::new(ALICE, SELF_ID, 0);
    assert!(relp.mint(ALICE, 10, BOB, 500).is_ok());
    assert!(relp.approve(BOB, CHARLIE, 100).is_ok());
    assert_eq!(
        relp.transfer_from(CHARLIE, 20, BOB, DAVE, 250),
        Err(Error::InsufficientAllowance)
    );
    assert_eq!(relp.balance_of(BOB), 500);
}

#[test]
fn relp_transfer_to_self_keeps_everything() {
    let mut relp = RELP::new(ALICE, SELF_ID, 0);
    assert!(relp.mint(ALICE, 10, BOB, 500).is_ok());
    assert!(relp.transfer(BOB, 20, BOB, 200).is_ok());
    assert_eq!(relp.balance_of(BOB), 500);
    assert_eq!(relp.total_supply(), 500);
}

#[test]
fn relp_settle_pays_increase_reward_in_paired_token() {
    let mut relp = RELP::new(ALICE, SELF_ID, 0);
    assert!(relp.mint(ALICE, 0, BOB, 100).is_ok());
    // one emission of 500 sealed at t=10 with aggregate total 1000
    assert!(relp.update_increase_awards(ALICE, 10, 500).is_ok());
    // the next touch settles it: 100 tokens held 10 units give 1000
    // coin-days, the whole aggregate, so the whole emission is owed
    assert!(relp.mint(ALICE, 20, BOB, 50).is_ok());
    assert_eq!(relp.add_contract.reward_of(BOB), 500);
    assert_eq!(relp.elc_contract.balance_of(BOB), 500);
    assert_eq!(relp.elc_contract.total_supply(), 500);
    assert_eq!(
        relp.add_contract.get_coinday_info(BOB, 99),
        Coinday { amount: 2000, timestamp: 20, last_index: 1 }
    );
}

#[test]
fn relp_aggregate_tracker_matches_rolled_account_sum() {
    let mut relp = RELP::new(ALICE, SELF_ID, 0);
    assert!(relp.mint(ALICE, 10, BOB, 500).is_ok());
    assert!(relp.mint(ALICE, 20, CHARLIE, 300).is_ok());
    assert!(relp.transfer(BOB, 30, CHARLIE, 100).is_ok());
    assert!(relp.burn(ALICE, 40, CHARLIE, 150).is_ok());
    // roll every account's record forward to the tracker's instant and
    // sum: the aggregate tracker holds exactly that sum, the shares
    // removed on decreases having been subtracted on both sides
    let accounts = [BOB, CHARLIE];
    for ledger in [&relp.add_contract, &relp.reward_contract] {
        let (total, t) = ledger.total_coinday();
        let mut rolled_sum: u128 = 0;
        for account in accounts {
            let info = ledger.get_coinday_info(account, t);
            rolled_sum += info.amount + relp.balance_of(account) * (t - info.timestamp);
        }
        assert_eq!(t, 40);
        assert_eq!(total, 16375);
        assert_eq!(rolled_sum, total);
    }
}
