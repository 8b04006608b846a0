//! Typed failures surfaced by every mutating entry point.

use vstd::prelude::*;

verus! {

/// Every failure of the token, ledger and accrual entry points.
///
/// `DivisionByZero` stands for the invariant-violation class: sealing an
/// epoch whose aggregate coin-day total is zero would make the epoch
/// unusable (settling it would divide by zero), so the append is refused.
#[derive(Clone, Copy, Debug, PartialEq, Eq, Structural)]
pub enum Error {
    /// The unlocked part of the balance does not cover the request.
    InsufficientFreeBalance,
    /// Not enough balance to fulfill a request.
    InsufficientBalance,
    /// The total supply does not cover the requested burn.
    InsufficientSupply,
    /// A zero amount where a positive one is required.
    InvalidAmount,
    /// The caller's allowance does not cover the transfer.
    InsufficientAllowance,
    /// A mutating entry point was invoked by someone other than the owner.
    OnlyOwnerAccess,
    /// Emission attempted before the minimum period elapsed.
    IntervalTooShort,
    /// The account's backlog exceeds the inline bound for the block-reward
    /// stream; manual liquidation must run first.
    NeedLiquidateBlockReward,
    /// The account's backlog exceeds the inline bound; manual liquidation
    /// must run first.
    NeedLiquidateIncreaseReward,
    /// An epoch index at or beyond the ledger's length.
    OutOfRange,
    /// Sealing an epoch with a zero aggregate coin-day total was refused.
    DivisionByZero,
    /// A contract-upgrade proposal is already in progress.
    ProposalAreadyExist,
    /// A proposal is on its voting period; no new one can be submitted.
    ProposalOnVoting,
    /// The offered lock does not reach the proposal minimum.
    InsufficientAmount,
    /// A running proposal already locked at least as much.
    ExistHigherLockAmount,
    /// A vote outside the voting period.
    NonVotingPeriod,
    /// The account already voted on this proposal.
    AlreadyVoted,
}

} // verus!
