//! Governance: proposal thresholds, vote bookkeeping, the proposal and
//! voting lifecycle against the risk-reserve token, and the drifting
//! price target.

use coinday::errors::Error;
use coinday::govern::Govern;
use coinday::relp::RELP;

const ALICE: u64 = 1;
const BOB: u64 = 2;
const CHARLIE: u64 = 3;
const DAVE: u64 = 4;
const GOV_ID: u64 = 200;
const RELP_ID: u64 = 100;

#[test]
fn govern_new_works() {
    let govern = Govern::new(ALICE, GOV_ID, 0);
    assert_eq!(govern.elcaim, 100000);
    assert_eq!(govern.proposal_needs(), 100);
    assert_eq!(govern.accounts_needs, 100);
    assert_eq!(govern.k, 5);
    assert_eq!(govern.proposal.new_k, 5);
    assert_eq!(govern.owner, ALICE);
    assert_eq!(govern.total_approve_vote(), 0);
    assert_eq!(govern.total_against_vote(), 0);
}

#[test]
fn govern_set_proposal_needs_works() {
    let mut govern = Govern::new(ALICE, GOV_ID, 0);
    assert_eq!(govern.proposal_needs(), 100);
    assert!(govern.set_proposal_needs(ALICE, 200).is_ok());
    assert_eq!(govern.proposal_needs(), 200);
}

#[test]
fn govern_set_proposal_needs_failed() {
    let mut govern = Govern::new(ALICE, GOV_ID, 0);
    assert!(govern.transfer_ownership(ALICE, BOB).is_ok());
    assert_eq!(govern.set_proposal_needs(ALICE, 666), Err(Error::OnlyOwnerAccess));
}

#[test]
fn govern_set_accounts_needs_works() {
    let mut govern = Govern::new(ALICE, GOV_ID, 0);
    assert_eq!(govern.accounts_needs(), 100);
    assert!(govern.set_accounts_needs(ALICE, 200).is_ok());
    assert_eq!(govern.accounts_needs(), 200);
}

#[test]
fn govern_set_accounts_needs_failed() {
    let mut govern = Govern::new(ALICE, GOV_ID, 0);
    assert!(govern.transfer_ownership(ALICE, BOB).is_ok());
    assert_eq!(govern.set_accounts_needs(ALICE, 200), Err(Error::OnlyOwnerAccess));
}

#[test]
fn govern_clean_vote_info_works() {
    let mut govern = Govern::new(ALICE, GOV_ID, 0);
    govern.update_votes(66, true);
    govern.update_votes(55, false);
    assert_eq!(govern.total_account, 2);
    assert_eq!(govern.total_approve_vote, 66);
    assert_eq!(govern.total_against_vote, 55);
    govern.clean_vote_info();
    assert_eq!(govern.proposal.type_, 0);
    assert_eq!(govern.proposal.status, 0);
    assert_eq!(govern.total_account, 0);
    assert_eq!(govern.total_approve_vote, 0);
    assert_eq!(govern.total_against_vote, 0);
}

#[test]
fn govern_update_votes_works() {
    let mut govern = Govern::new(ALICE, GOV_ID, 0);
    govern.update_votes(66, true);
    govern.update_votes(55, false);
    assert_eq!(govern.total_account, 2);
    assert_eq!(govern.total_approve_vote, 66);
    assert_eq!(govern.total_against_vote, 55);
    govern.update_votes(11, true);
    govern.update_votes(12, true);
    govern.update_votes(70, false);
    assert_eq!(govern.total_account, 5);
    assert_eq!(govern.total_approve_vote, 66 + 11 + 12);
    assert_eq!(govern.total_against_vote, 55 + 70);
}

#[test]
fn govern_transfer_ownership_works() {
    let mut govern = Govern::new(ALICE, GOV_ID, 0);
    assert_eq!(govern.owner(), ALICE);
    assert!(govern.transfer_ownership(ALICE, BOB).is_ok());
    assert_eq!(govern.owner(), BOB);
}

#[test]
fn govern_transfer_ownership_failed() {
    let mut govern = Govern::new(ALICE, GOV_ID, 0);
    assert_eq!(govern.owner(), ALICE);
    assert_eq!(govern.transfer_ownership(BOB, CHARLIE), Err(Error::OnlyOwnerAccess));
}

#[test]
fn govern_elcaim_drifts_by_whole_intervals() {
    let mut govern = Govern::new(ALICE, GOV_ID, 0);
    // one interval elapsed: one step of factor 5 over the base
    assert_eq!(govern.elcaim(600 * 1000), 100005);
    assert_eq!(govern.elcaim, 100005);
    // the drift clock advances on its own grid's accounting
    assert_eq!(govern.last_update_elcaim, 60000 * 1000);
    // no further whole interval since: the target stands
    assert_eq!(govern.elcaim(600 * 1000), 100005);
}

#[test]
fn govern_proposal_update_k_works() {
    let mut relp = RELP::new(GOV_ID, RELP_ID, 0);
    let mut govern = Govern::new(ALICE, GOV_ID, 0);
    assert!(relp.mint(GOV_ID, 0, BOB, 1000).is_ok());
    assert!(govern.proposal_update_k(&mut relp, BOB, 10, 200, 7).is_ok());
    assert_eq!(govern.proposal.type_, 1);
    assert_eq!(govern.proposal.lock_amount, 200);
    assert_eq!(govern.proposal.begin, 10);
    assert_eq!(govern.proposal.vote_begin, 1210);
    assert_eq!(govern.proposal.end, 2410);
    assert_eq!(govern.proposal.proposer, BOB);
    assert_eq!(govern.proposal.status, 1);
    assert_eq!(govern.proposal.new_k, 7);
    assert_eq!(relp.lock_info_of(BOB), (10, 200));
}

#[test]
fn govern_proposal_update_k_failures() {
    let mut relp = RELP::new(GOV_ID, RELP_ID, 0);
    let mut govern = Govern::new(ALICE, GOV_ID, 0);
    assert!(relp.mint(GOV_ID, 0, BOB, 1000).is_ok());
    // below the proposal minimum
    assert_eq!(
        govern.proposal_update_k(&mut relp, BOB, 10, 50, 7),
        Err(Error::InsufficientAmount)
    );
    // more stake than the balance holds
    assert_eq!(
        govern.proposal_update_k(&mut relp, CHARLIE, 10, 200, 7),
        Err(Error::InsufficientBalance)
    );
    assert!(govern.proposal_update_k(&mut relp, BOB, 10, 200, 7).is_ok());
    // a running proposal in its proposal period demands a higher lock
    assert_eq!(
        govern.proposal_update_k(&mut relp, BOB, 20, 150, 9),
        Err(Error::ExistHigherLockAmount)
    );
    // and no submission at all during the voting period
    assert_eq!(
        govern.proposal_update_k(&mut relp, BOB, 1500, 900, 9),
        Err(Error::ProposalOnVoting)
    );
}

#[test]
fn govern_proposal_update_k_blocked_by_upgrade_proposal() {
    let mut relp = RELP::new(GOV_ID, RELP_ID, 0);
    let mut govern = Govern::new(ALICE, GOV_ID, 0);
    assert!(relp.mint(GOV_ID, 0, BOB, 1000).is_ok());
    // a recorded contract-upgrade proposal blocks factor retuning
    govern.proposal.type_ = 2;
    govern.proposal.status = 3;
    assert_eq!(
        govern.proposal_update_k(&mut relp, BOB, 10, 200, 7),
        Err(Error::ProposalAreadyExist)
    );
}

#[test]
fn govern_vote_lifecycle_passes_the_proposal() {
    let mut relp = RELP::new(GOV_ID, RELP_ID, 0);
    let mut govern = Govern::new(ALICE, GOV_ID, 0);
    assert!(govern.set_accounts_needs(ALICE, 1).is_ok());
    assert!(relp.mint(GOV_ID, 0, BOB, 1000).is_ok());
    assert!(relp.mint(GOV_ID, 0, CHARLIE, 500).is_ok());
    assert!(govern.proposal_update_k(&mut relp, BOB, 10, 200, 7).is_ok());
    // not yet in the voting period
    assert_eq!(
        govern.vote(&mut relp, CHARLIE, 100, 10, true),
        Err(Error::NonVotingPeriod)
    );
    // a vote beyond the balance
    assert_eq!(
        govern.vote(&mut relp, CHARLIE, 1300, 600, true),
        Err(Error::InsufficientBalance)
    );
    assert!(govern.vote(&mut relp, CHARLIE, 1300, 400, true).is_ok());
    assert_eq!(govern.total_approve_vote(), 400);
    assert_eq!(govern.total_account, 1);
    assert_eq!(relp.lock_info_of(CHARLIE), (1300, 400));
    // one vote per account
    assert_eq!(
        govern.vote(&mut relp, CHARLIE, 1400, 50, true),
        Err(Error::AlreadyVoted)
    );
    // the proposer's vote adds to the proposal's lock
    assert!(govern.vote(&mut relp, BOB, 1400, 100, true).is_ok());
    assert_eq!(relp.lock_info_of(BOB), (1400, 300));
    // the voting period over, the count passes: no vote against, and
    // 500 * 500 / 1500 in favour beats zero
    assert_eq!(govern.update(&relp, 2500), 3);
    assert_eq!(govern.k, 7);
    assert_eq!(govern.proposal.type_, 0);
    assert_eq!(govern.total_account, 0);
}

#[test]
fn govern_vote_lifecycle_vetoes_on_low_turnout() {
    let mut relp = RELP::new(GOV_ID, RELP_ID, 0);
    let mut govern = Govern::new(ALICE, GOV_ID, 0);
    assert!(relp.mint(GOV_ID, 0, BOB, 1000).is_ok());
    assert!(govern.proposal_update_k(&mut relp, BOB, 10, 200, 7).is_ok());
    assert!(govern.vote(&mut relp, BOB, 1300, 100, true).is_ok());
    // one voter of the hundred required: vetoed, the factor kept
    assert_eq!(govern.update(&relp, 2500), 4);
    assert_eq!(govern.k, 5);
    assert_eq!(govern.proposal.type_, 0);
}

#[test]
fn govern_withdraw_lock_amount_works() {
    let mut relp = RELP::new(GOV_ID, RELP_ID, 0);
    let mut govern = Govern::new(ALICE, GOV_ID, 0);
    assert!(relp.mint(GOV_ID, 0, BOB, 1000).is_ok());
    assert!(relp.update_lock_infos(GOV_ID, DAVE, (5, 100)).is_ok());
    assert!(govern.proposal_update_k(&mut relp, BOB, 10, 200, 7).is_ok());
    // a lock taken before the running proposal is leftover: returned
    govern.withdraw_lock_amount(&mut relp, DAVE);
    assert_eq!(relp.lock_info_of(DAVE), (0, 0));
    // the proposal's own lock stands
    govern.withdraw_lock_amount(&mut relp, BOB);
    assert_eq!(relp.lock_info_of(BOB), (10, 200));
}
