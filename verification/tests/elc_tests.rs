//! The paired stable token: plain transfers, allowances, owner-gated
//! mint and burn, and the event log.

use coinday::elc::{Approval, Burn, Mint, TokenEvent, Transfer, ELC};
use coinday::errors::Error;

const ALICE: u64 = 1;
const BOB: u64 = 2;

#[test]
fn elc_new_works() {
    let elc = ELC::new(ALICE);
    assert_eq!(elc.token_name().unwrap_or_else(|| "Error name".to_string()), "Everlasting Cash");
    assert_eq!(elc.token_symbol().unwrap_or_else(|| "Error symbol".to_string()), "ELC");
    assert_eq!(elc.token_decimals().unwrap_or(0), 8);
    assert_eq!(elc.total_supply(), 0);
    assert_eq!(elc.balance_of(ALICE), 0);
    assert_eq!(elc.owner(), ALICE);
}

#[test]
fn elc_balance_of_works() {
    let mut elc = ELC::new(ALICE);
    assert!(elc.mint(ALICE, ALICE, 100).is_ok());
    assert_eq!(elc.balance_of(ALICE), 100);
    assert_eq!(elc.balance_of(BOB), 0);
}

#[test]
fn elc_transfer_works() {
    let mut elc = ELC::new(ALICE);
    assert!(elc.mint(ALICE, ALICE, 100).is_ok());
    assert!(elc.transfer(ALICE, BOB, 40).is_ok());
    assert_eq!(elc.balance_of(ALICE), 60);
    assert_eq!(elc.balance_of(BOB), 40);
}

#[test]
fn elc_transfer_failed_when_has_not_enough_balance() {
    let mut elc = ELC::new(ALICE);
    assert_eq!(elc.transfer(ALICE, BOB, 40), Err(Error::InsufficientBalance));
}

#[test]
fn elc_allowance_works() {
    let mut elc = ELC::new(ALICE);
    assert_eq!(elc.allowance(ALICE, BOB), 0);
    assert!(elc.approve(ALICE, BOB, 50).is_ok());
    assert_eq!(elc.allowance(ALICE, BOB), 50);
}

#[test]
fn elc_transfer_from_works() {
    let mut elc = ELC::new(ALICE);
    assert!(elc.mint(ALICE, ALICE, 100).is_ok());
    assert!(elc.approve(ALICE, BOB, 100).is_ok());
    assert_eq!(elc.allowance(ALICE, BOB), 100);
    assert!(elc.transfer_from(BOB, ALICE, BOB, 99).is_ok());
    assert_eq!(elc.allowance(ALICE, BOB), 1);
    assert_eq!(elc.balance_of(ALICE), 1);
    assert_eq!(elc.balance_of(BOB), 99);
}

#[test]
fn elc_transfer_from_failed_when_not_enough_allowance_or_balance() {
    let mut elc = ELC::new(ALICE);
    assert!(elc.mint(ALICE, ALICE, 100).is_ok());
    assert!(elc.approve(ALICE, BOB, 200).is_ok());
    assert_eq!(elc.transfer_from(ALICE, BOB, ALICE, 6), Err(Error::InsufficientAllowance));
    assert_eq!(elc.transfer_from(BOB, ALICE, BOB, 120), Err(Error::InsufficientBalance));
}

#[test]
fn elc_approve_works() {
    let mut elc = ELC::new(ALICE);
    assert!(elc.approve(ALICE, BOB, 66).is_ok());
    assert_eq!(elc.allowance(ALICE, BOB), 66);
}

#[test]
fn elc_mint_works() {
    let mut elc = ELC::new(ALICE);
    assert!(elc.mint(ALICE, BOB, 66).is_ok());
    assert_eq!(elc.balance_of(BOB), 66);
    assert_eq!(elc.total_supply(), 66);
}

#[test]
fn elc_mint_failed_when_not_owner_or_zero_amount() {
    let mut elc = ELC::new(ALICE);
    assert_eq!(elc.mint(ALICE, BOB, 0), Err(Error::InvalidAmount));
    assert!(elc.transfer_ownership(ALICE, BOB).is_ok());
    assert_eq!(elc.mint(ALICE, BOB, 66), Err(Error::OnlyOwnerAccess));
}

#[test]
fn elc_burn_works() {
    let mut elc = ELC::new(ALICE);
    assert!(elc.mint(ALICE, ALICE, 100).is_ok());
    assert_eq!(elc.total_supply(), 100);
    assert!(elc.burn(ALICE, ALICE, 33).is_ok());
    assert_eq!(elc.balance_of(ALICE), 67);
    assert_eq!(elc.total_supply(), 67);
}

#[test]
fn elc_burn_failed_when_not_owner() {
    let mut elc = ELC::new(ALICE);
    assert!(elc.mint(ALICE, BOB, 100).is_ok());
    assert!(elc.transfer_ownership(ALICE, BOB).is_ok());
    assert_eq!(elc.burn(ALICE, BOB, 99), Err(Error::OnlyOwnerAccess));
}

#[test]
fn elc_burn_failed_when_not_enough_balance() {
    let mut elc = ELC::new(ALICE);
    assert_eq!(elc.burn(ALICE, ALICE, 100), Err(Error::InsufficientSupply));
    assert!(elc.mint(ALICE, BOB, 200).is_ok());
    assert_eq!(elc.burn(ALICE, ALICE, 100), Err(Error::InsufficientBalance));
}

#[test]
fn elc_transfer_ownership_works() {
    let mut elc = ELC::new(ALICE);
    assert!(elc.transfer_ownership(ALICE, BOB).is_ok());
    assert_eq!(elc.owner(), BOB);
}

#[test]
fn elc_transfer_ownership_failed_when_not_owner() {
    let mut elc = ELC::new(ALICE);
    assert_eq!(elc.transfer_ownership(BOB, BOB), Err(Error::OnlyOwnerAccess));
}

#[test]
fn elc_event_log_records_everything_in_order() {
    let mut elc = ELC::new(ALICE);
    assert!(elc.mint(ALICE, ALICE, 100).is_ok());
    assert!(elc.approve(ALICE, BOB, 70).is_ok());
    assert!(elc.transfer(ALICE, BOB, 40).is_ok());
    assert!(elc.burn(ALICE, BOB, 10).is_ok());
    assert_eq!(elc.events.len(), 4);
    assert_eq!(elc.events[0], TokenEvent::Mint(Mint { user: ALICE, amount: 100 }));
    assert_eq!(
        elc.events[1],
        TokenEvent::Approval(Approval { owner: ALICE, spender: BOB, value: 70 })
    );
    assert_eq!(
        elc.events[2],
        TokenEvent::Transfer(Transfer { from: Some(ALICE), to: Some(BOB), value: 40 })
    );
    assert_eq!(elc.events[3], TokenEvent::Burn(Burn { user: BOB, amount: 10 }));
}
