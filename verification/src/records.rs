//! The data model of the accrual engine: per-account coin-day records and
//! sealed emission epochs.

use vstd::prelude::*;

verus! {

/// Fixed-point scale used when a proportional share of coin-days is
/// removed on an outbound balance change.
pub const RATIO_SCALE: u128 = 100000000;

/// Minimum elapsed time between two emission seals, in milliseconds.
pub const EPOCH_INTERVAL: u128 = 1800 * 1000;

/// Largest backlog the inline settle path may fold in one call.
pub const INLINE_EPOCH_LIMIT: u32 = 5;

/// Largest number of epochs one manual liquidation call may fold.
pub const MANUAL_EPOCH_LIMIT: u32 = 50;

/// First period's emission amount, in reward units at the fixed-point
/// scale of the block-reward stream.
pub const INITIAL_DAILY_AWARD: u128 = 20000 * 100000000;

/// Per-account record of accumulated coin-days.
///
/// `amount` holds the coin-days brought current at `timestamp`;
/// `last_index` is the index of the next epoch of the award ledger not yet
/// folded into this account's claimed reward.
#[derive(Clone, Copy, Debug, PartialEq, Eq, Structural)]
pub struct Coinday {
    /// Accumulated coin-days as of `timestamp`.
    pub amount: u128,
    /// Last instant at which `amount` was brought current.
    pub timestamp: u128,
    /// Index of the next award not yet folded into the claimed reward.
    pub last_index: u32,
}

/// One sealed, immutable reward-emission epoch of the award ledger.
#[derive(Clone, Copy, Debug, PartialEq, Eq, Structural)]
pub struct Award {
    /// Reward units emitted in this epoch.
    pub amount: u128,
    /// Aggregate coin-day total observed at the moment the epoch was
    /// sealed; never zero for a sealed epoch.
    pub total_coinday: u128,
    /// The instant the epoch was sealed.
    pub timestamp: u128,
}

impl Coinday {
    /// The zero record an absent account is read as: no coin-days, brought
    /// current "now", no epoch folded yet.
    pub open spec fn spec_default_at(now: u128) -> Coinday {
        Coinday { amount: 0, timestamp: now, last_index: 0 }
    }

    /// Builds the zero record timestamped `now`.
    pub fn default_at(now: u128) -> (r: Coinday)
        ensures
            r == Coinday::spec_default_at(now),
    {
        Coinday { amount: 0, timestamp: now, last_index: 0 }
    }
}

} // verus!
