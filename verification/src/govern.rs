//! The governance contract: proposals to retune the anti-inflation
//! factor, voting weighted by the risk-reserve token, and the drifting
//! price target.  It consumes the risk-reserve token as a collaborator:
//! balances weight the votes, and locks pin the stake down.

use vstd::prelude::*;
use crate::accrual::time_gap;
use crate::errors::Error;
use crate::relp::{RelpView, RELP};
use vstd::arithmetic::div_mod::{lemma_div_is_ordered, lemma_div_multiples_vanish};
use vstd::arithmetic::mul::{lemma_mul_inequality, lemma_mul_is_commutative};

verus! {

/// Blocks between a proposal's submission and its voting period, and
/// between the voting period's start and its end.
pub const PROPOSAL_DELTA_BLOCKS: u32 = 1200;

/// Milliseconds between two steps of the price target's drift.
pub const ELCAIM_INTERVAL: u128 = 600 * 1000;

/// The fixed-point base of the anti-inflation factor.
pub const K_BASE: u128 = 100000;

/// One governance proposal.
///
/// `type_` is 0 while no proposal runs, 1 for a factor-retuning
/// proposal, 2 for a contract upgrade; `status` is 1 during the
/// proposal period, 2 during voting, 3 when passed, 4 when vetoed.
#[derive(Clone, Copy, Debug, PartialEq, Eq, Structural)]
pub struct ProposalInfo {
    /// What the proposal asks: nothing, a new factor, or an upgrade.
    pub type_: u8,
    /// The stake locked when the proposal was submitted.
    pub lock_amount: u128,
    /// The block at which the proposal was submitted.
    pub begin: u32,
    /// The block at which its voting period starts.
    pub vote_begin: u32,
    /// The account that submitted it.
    pub proposer: u64,
    /// Where the proposal stands in its lifecycle.
    pub status: u8,
    /// The block at which its voting period ends.
    pub end: u32,
    /// The factor the proposal asks for.
    pub new_k: u128,
}

/// The governance state.
#[derive(Clone, Copy, Debug)]
pub struct Govern {
    /// The drifting price target, at the fixed-point base.
    pub elcaim: u128,
    /// The anti-inflation factor, at the fixed-point base.
    pub k: u128,
    /// The minimum stake a proposal must lock.
    pub proposal_needs: u128,
    /// The minimum number of voting accounts for a count to pass.
    pub accounts_needs: u8,
    /// The running proposal.
    pub proposal: ProposalInfo,
    /// How many accounts voted.
    pub total_account: u128,
    /// Votes in favour, one per token.
    pub total_approve_vote: u128,
    /// Votes against, one per token.
    pub total_against_vote: u128,
    /// When the price target last drifted.
    pub last_update_elcaim: u128,
    /// The administrator.
    pub owner: u64,
    /// The contract's own account identifier, under which it drives the
    /// risk-reserve token's locks.
    pub id: u64,
}

/// The price target after `n` drift steps: each step multiplies by the
/// factor over the base, truncating.
pub open spec fn grown_elcaim(e: int, k: u128, n: nat) -> int
    decreases n,
{
    if n == 0 {
        e
    } else {
        grown_elcaim(e * (K_BASE + k) / K_BASE as int, k, (n - 1) as nat)
    }
}

/// Whole drift steps elapsed since the price target last moved.
pub open spec fn elcaim_steps(g: Govern, now: u128) -> int {
    time_gap(now, g.last_update_elcaim) / ELCAIM_INTERVAL as int
}

/// One drift step never shrinks a non-negative price target.
proof fn lemma_grown_step(e: int, k: u128)
    requires
        0 <= e,
    ensures
        e <= e * (K_BASE + k) / K_BASE as int,
        0 <= e * (K_BASE + k) / K_BASE as int,
{
    assert(e * K_BASE <= e * (K_BASE + k)) by {
        lemma_mul_inequality(K_BASE as int, K_BASE + k, e);
        lemma_mul_is_commutative(K_BASE as int, e);
        lemma_mul_is_commutative(K_BASE + k, e);
    }
    assert(e * K_BASE / K_BASE as int <= e * (K_BASE + k) / K_BASE as int) by {
        lemma_div_is_ordered(e * K_BASE, e * (K_BASE + k), K_BASE as int);
    }
    assert(e * K_BASE / K_BASE as int == e) by {
        lemma_div_multiples_vanish(e, K_BASE as int);
        lemma_mul_is_commutative(K_BASE as int, e);
    }
}

/// Drifting never shrinks a non-negative price target.
proof fn lemma_grown_ge_base(e: int, k: u128, n: nat)
    requires
        0 <= e,
    ensures
        e <= grown_elcaim(e, k, n),
    decreases n,
{
    if n > 0 {
        lemma_grown_step(e, k);
        lemma_grown_ge_base(e * (K_BASE + k) / K_BASE as int, k, (n - 1) as nat);
    }
}

/// Drift steps compose.
proof fn lemma_grown_compose(e: int, k: u128, a: nat, b: nat)
    ensures
        grown_elcaim(e, k, a + b) == grown_elcaim(grown_elcaim(e, k, a), k, b),
    decreases a,
{
    if a > 0 {
        lemma_grown_compose(e * (K_BASE + k) / K_BASE as int, k, (a - 1) as nat, b);
    }
}

/// An earlier drift step's value never exceeds a later one's.
proof fn lemma_grown_prefix(e: int, k: u128, i: nat, n: nat)
    requires
        0 <= e,
        i <= n,
    ensures
        grown_elcaim(e, k, i) <= grown_elcaim(e, k, n),
{
    lemma_grown_compose(e, k, i, (n - i) as nat);
    lemma_grown_ge_base(e, k, i);
    lemma_grown_ge_base(grown_elcaim(e, k, i), k, (n - i) as nat);
}

/// The vote books wiped after a count, the factor kept.
pub open spec fn spec_clean(g: Govern) -> Govern {
    Govern {
        proposal: ProposalInfo { type_: 0, status: 0, ..g.proposal },
        total_account: 0,
        total_approve_vote: 0,
        total_against_vote: 0,
        ..g
    }
}

/// The books after one vote of `vote_amount` tokens.
pub open spec fn spec_voted(g: Govern, vote_amount: u128, is_approve: bool) -> Govern {
    Govern {
        total_approve_vote: if is_approve {
            (g.total_approve_vote + vote_amount) as u128
        } else {
            g.total_approve_vote
        },
        total_against_vote: if is_approve {
            g.total_against_vote
        } else {
            (g.total_against_vote + vote_amount) as u128
        },
        total_account: (g.total_account + 1) as u128,
        ..g
    }
}

/// The count's verdict and the state it leaves: a turnout below the
/// minimum vetoes outright; otherwise the proposal passes when the
/// squared-against share stays under the squared-approve share of the
/// supply, retuning the factor.
pub open spec fn spec_counting(g: Govern, supply: u128) -> (u8, Govern) {
    if g.total_account < g.accounts_needs as u128 {
        (4u8, spec_clean(g))
    } else {
        let a = g.total_against_vote * g.total_against_vote / (g.total_approve_vote
            + g.total_against_vote);
        let b = g.total_approve_vote * g.total_approve_vote / supply as int;
        if a < b {
            (3u8, spec_clean(Govern { k: g.proposal.new_k, ..g }))
        } else {
            (4u8, spec_clean(g))
        }
    }
}

/// The count's arithmetic stays in range, and its divisors are live.
pub open spec fn counting_fits(g: Govern, supply: u128) -> bool {
    g.total_account >= g.accounts_needs as u128 ==> {
        &&& g.total_approve_vote + g.total_against_vote <= u128::MAX
        &&& g.total_approve_vote + g.total_against_vote > 0
        &&& supply > 0
        &&& g.total_against_vote * g.total_against_vote <= u128::MAX
        &&& g.total_approve_vote * g.total_approve_vote <= u128::MAX
    }
}

/// The proposal's refreshed verdict at `block_number` and the state it
/// leaves: no proposal reads as 0; a running one is in its proposal
/// period before `vote_begin`, voting before `end`, and counted after.
pub open spec fn spec_update(g: Govern, supply: u128, block_number: u32) -> (u8, Govern) {
    if g.proposal.type_ == 0 {
        (0u8, g)
    } else if g.proposal.status == 1 || g.proposal.status == 2 {
        if block_number < g.proposal.vote_begin {
            (1u8, Govern { proposal: ProposalInfo { status: 1, ..g.proposal }, ..g })
        } else if block_number < g.proposal.end {
            (2u8, Govern { proposal: ProposalInfo { status: 2, ..g.proposal }, ..g })
        } else {
            spec_counting(g, supply)
        }
    } else {
        (g.proposal.status, g)
    }
}

/// A refresh only counts when a running proposal's voting period is
/// over; the count's arithmetic must then be in range.
pub open spec fn update_fits(g: Govern, supply: u128, block_number: u32) -> bool {
    g.proposal.type_ != 0 && (g.proposal.status == 1 || g.proposal.status == 2)
        && block_number >= g.proposal.end ==> counting_fits(g, supply)
}

impl Govern {
    /// Creates the governance state, administered by `caller`, living
    /// at account `id`, with the default target, factor and thresholds.
    pub fn new(caller: u64, id: u64, now: u128) -> (r: Govern)
        ensures
            r == (Govern {
                elcaim: 100000u128,
                k: 5u128,
                proposal_needs: 100u128,
                accounts_needs: 100u8,
                proposal: ProposalInfo {
                    type_: 0u8,
                    lock_amount: 0u128,
                    begin: 0u32,
                    vote_begin: 0u32,
                    proposer: 0u64,
                    status: 0u8,
                    end: 0u32,
                    new_k: 5u128,
                },
                total_account: 0u128,
                total_approve_vote: 0u128,
                total_against_vote: 0u128,
                last_update_elcaim: now,
                owner: caller,
                id,
            }),
    {
        Govern {
            elcaim: 100000,
            k: 5,
            proposal_needs: 100,
            accounts_needs: 100,
            proposal: ProposalInfo {
                type_: 0,
                lock_amount: 0,
                begin: 0,
                vote_begin: 0,
                proposer: 0,
                status: 0,
                end: 0,
                new_k: 5,
            },
            total_account: 0,
            total_approve_vote: 0,
            total_against_vote: 0,
            last_update_elcaim: now,
            owner: caller,
            id,
        }
    }

    /// Brings the price target current: one truncating drift step per
    /// whole elapsed interval, and the drift clock advanced by the
    /// grid's own accounting.
    pub fn elcaim(&mut self, now: u128) -> (r: u128)
        requires
            old(self).k <= u128::MAX - K_BASE,
            grown_elcaim(old(self).elcaim as int, old(self).k, elcaim_steps(*old(self), now) as nat)
                * (K_BASE + old(self).k) <= u128::MAX,
            old(self).last_update_elcaim + elcaim_steps(*old(self), now) * 60000000 <= u128::MAX,
        ensures
            r == grown_elcaim(
                old(self).elcaim as int,
                old(self).k,
                elcaim_steps(*old(self), now) as nat,
            ),
            *final(self) == (Govern {
                elcaim: r,
                last_update_elcaim: (old(self).last_update_elcaim + elcaim_steps(
                    *old(self),
                    now,
                ) * 60000000) as u128,
                ..*old(self)
            }),
    {
        let dt = if now >= self.last_update_elcaim {
            now - self.last_update_elcaim
        } else {
            0
        };
        let epochs = dt / ELCAIM_INTERVAL;
        let ghost e0 = self.elcaim as int;
        let ghost k0 = self.k;
        let mut elcaim = self.elcaim;
        let mut i: u128 = 0;
        proof {
            lemma_grown_ge_base(e0, k0, epochs as nat);
        }
        while i < epochs
            invariant
                i <= epochs,
                0 <= e0,
                k0 <= u128::MAX - K_BASE,
                k0 == self.k,
                grown_elcaim(e0, k0, epochs as nat) * (K_BASE + k0) <= u128::MAX,
                elcaim == grown_elcaim(e0, k0, i as nat),
            decreases epochs - i,
        {
            proof {
                lemma_grown_ge_base(e0, k0, i as nat);
                lemma_grown_prefix(e0, k0, i as nat, epochs as nat);
                lemma_grown_ge_base(e0, k0, epochs as nat);
                assert(elcaim * (K_BASE + k0) <= grown_elcaim(e0, k0, epochs as nat) * (K_BASE
                    + k0)) by {
                    lemma_mul_inequality(
                        elcaim as int,
                        grown_elcaim(e0, k0, epochs as nat),
                        K_BASE + k0,
                    );
                    lemma_mul_is_commutative(elcaim as int, K_BASE + k0);
                    lemma_mul_is_commutative(grown_elcaim(e0, k0, epochs as nat), K_BASE + k0);
                }
                lemma_grown_compose(e0, k0, i as nat, 1);
                let cur = grown_elcaim(e0, k0, i as nat);
                let stepped = cur * (K_BASE + k0) / K_BASE as int;
                assert(grown_elcaim(cur, k0, 1) == grown_elcaim(stepped, k0, 0));
                assert(grown_elcaim(stepped, k0, 0) == stepped);
            }
            elcaim = elcaim * (K_BASE + self.k) / K_BASE;
            i = i + 1;
        }
        self.elcaim = elcaim;
        proof {
            lemma_mul_inequality(1, K_BASE as int, epochs as int);
            lemma_mul_is_commutative(K_BASE as int, epochs as int);
        }
        self.last_update_elcaim = self.last_update_elcaim + epochs * 60000 * 1000;
        self.elcaim
    }

    /// The minimum stake a proposal must lock.
    pub fn proposal_needs(&self) -> (r: u128)
        ensures
            r == self.proposal_needs,
    {
        self.proposal_needs
    }

    /// Sets the minimum stake a proposal must lock; only the owner may.
    pub fn set_proposal_needs(&mut self, caller: u64, new_value: u128) -> (r: Result<(), Error>)
        ensures
            caller == old(self).owner ==> r == Ok::<(), Error>(()) && *final(self) == (Govern {
                proposal_needs: new_value,
                ..*old(self)
            }),
            caller != old(self).owner ==> r == Err::<(), Error>(Error::OnlyOwnerAccess)
                && *final(self) == *old(self),
    {
        if caller != self.owner {
            return Err(Error::OnlyOwnerAccess);
        }
        self.proposal_needs = new_value;
        Ok(())
    }

    /// The minimum number of voting accounts for a count to pass.
    pub fn accounts_needs(&self) -> (r: u8)
        ensures
            r == self.accounts_needs,
    {
        self.accounts_needs
    }

    /// Sets the turnout minimum; only the owner may.
    pub fn set_accounts_needs(&mut self, caller: u64, new_value: u8) -> (r: Result<(), Error>)
        ensures
            caller == old(self).owner ==> r == Ok::<(), Error>(()) && *final(self) == (Govern {
                accounts_needs: new_value,
                ..*old(self)
            }),
            caller != old(self).owner ==> r == Err::<(), Error>(Error::OnlyOwnerAccess)
                && *final(self) == *old(self),
    {
        if caller != self.owner {
            return Err(Error::OnlyOwnerAccess);
        }
        self.accounts_needs = new_value;
        Ok(())
    }

    /// Votes in favour so far.
    pub fn total_approve_vote(&self) -> (r: u128)
        ensures
            r == self.total_approve_vote,
    {
        self.total_approve_vote
    }

    /// Votes against so far.
    pub fn total_against_vote(&self) -> (r: u128)
        ensures
            r == self.total_against_vote,
    {
        self.total_against_vote
    }

    /// Submits a proposal to retune the factor, locking `lock_amount`
    /// of the caller's risk-reserve tokens.  The stake must reach the
    /// minimum and beat any running retuning proposal's; nothing may be
    /// submitted during a voting period; every failure leaves both
    /// contracts unchanged.
    pub fn proposal_update_k(
        &mut self,
        relp: &mut RELP,
        caller: u64,
        block_number: u32,
        lock_amount: u128,
        new_k: u128,
    ) -> (r: Result<(), Error>)
        requires
            old(relp)@.owner == old(self).id,
            block_number + 2 * PROPOSAL_DELTA_BLOCKS <= u32::MAX,
            update_fits(*old(self), old(relp)@.total_supply, block_number),
        ensures
            ({
                let verdict = spec_update(*old(self), old(relp)@.total_supply, block_number);
                &&& (lock_amount < old(self).proposal_needs ==> r == Err::<(), Error>(
                    Error::InsufficientAmount,
                ) && *final(self) == *old(self) && final(relp)@ == old(relp)@)
                &&& (lock_amount >= old(self).proposal_needs && verdict.0 == 2 ==> r == Err::<
                    (),
                    Error,
                >(Error::ProposalOnVoting) && *final(self) == *old(self) && final(relp)@ == old(
                    relp,
                )@)
                &&& (lock_amount >= old(self).proposal_needs && verdict.0 != 2
                    && verdict.1.proposal.type_ == 2 ==> r == Err::<(), Error>(
                    Error::ProposalAreadyExist,
                ) && *final(self) == *old(self) && final(relp)@ == old(relp)@)
                &&& (lock_amount >= old(self).proposal_needs && verdict.0 != 2
                    && verdict.1.proposal.type_ != 2 && verdict.1.proposal.type_ == 1 && verdict.0
                    == 1 && lock_amount <= verdict.1.proposal.lock_amount ==> r == Err::<
                    (),
                    Error,
                >(Error::ExistHigherLockAmount) && *final(self) == *old(self) && final(relp)@
                    == old(relp)@)
                &&& (lock_amount >= old(self).proposal_needs && verdict.0 != 2
                    && verdict.1.proposal.type_ != 2 && !(verdict.1.proposal.type_ == 1
                    && verdict.0 == 1 && lock_amount <= verdict.1.proposal.lock_amount) && old(
                    relp,
                )@.balance_of(caller) < lock_amount ==> r == Err::<(), Error>(
                    Error::InsufficientBalance,
                ) && *final(self) == *old(self) && final(relp)@ == old(relp)@)
                &&& (lock_amount >= old(self).proposal_needs && verdict.0 != 2
                    && verdict.1.proposal.type_ != 2 && !(verdict.1.proposal.type_ == 1
                    && verdict.0 == 1 && lock_amount <= verdict.1.proposal.lock_amount) && old(
                    relp,
                )@.balance_of(caller) >= lock_amount ==> r == Ok::<(), Error>(()) && *final(self)
                    == (Govern {
                    proposal: ProposalInfo {
                        type_: 1u8,
                        lock_amount,
                        begin: block_number,
                        vote_begin: (block_number + PROPOSAL_DELTA_BLOCKS) as u32,
                        proposer: caller,
                        status: 1u8,
                        end: (block_number + 2 * PROPOSAL_DELTA_BLOCKS) as u32,
                        new_k,
                    },
                    ..verdict.1
                }) && final(relp)@ == (RelpView {
                    lock_infos: old(relp)@.lock_infos.insert(
                        caller,
                        (block_number, lock_amount),
                    ),
                    ..old(relp)@
                }))
            }),
    {
        if lock_amount < self.proposal_needs {
            return Err(Error::InsufficientAmount);
        }
        let mut next = *self;
        let state = next.update(relp, block_number);
        if state == 2 {
            return Err(Error::ProposalOnVoting);
        }
        if next.proposal.type_ == 2 {
            return Err(Error::ProposalAreadyExist);
        }
        if next.proposal.type_ == 1 && state == 1 && lock_amount <= next.proposal.lock_amount {
            return Err(Error::ExistHigherLockAmount);
        }
        let balance = relp.balance_of(caller);
        if balance < lock_amount {
            return Err(Error::InsufficientBalance);
        }
        *self = next;
        self.proposal = ProposalInfo {
            type_: 1,
            lock_amount,
            begin: block_number,
            vote_begin: block_number + PROPOSAL_DELTA_BLOCKS,
            proposer: caller,
            status: 1,
            end: block_number + 2 * PROPOSAL_DELTA_BLOCKS,
            new_k,
        };
        relp.update_lock_infos(self.id, caller, (block_number, lock_amount))?;
        Ok(())
    }

    /// Returns a leftover lock to `caller`: one taken before the
    /// running proposal's submission no longer backs anything.
    pub fn withdraw_lock_amount(&self, relp: &mut RELP, caller: u64)
        requires
            old(relp)@.owner == self.id,
        ensures
            ({
                let lock = old(relp)@.lock_info_of(caller);
                if lock.0 < self.proposal.begin && lock.1 != 0 {
                    final(relp)@ == (RelpView {
                        lock_infos: old(relp)@.lock_infos.insert(caller, (0u32, 0u128)),
                        ..old(relp)@
                    })
                } else {
                    final(relp)@ == old(relp)@
                }
            }),
    {
        let lock_info = relp.lock_info_of(caller);
        if lock_info.0 < self.proposal.begin && lock_info.1 != 0 {
            let _cleared = relp.update_lock_infos(self.id, caller, (0, 0));
        }
    }

    /// Refreshes the running proposal's status at `block_number` and
    /// returns its verdict, counting the votes once the voting period
    /// is over.
    pub fn update(&mut self, relp: &RELP, block_number: u32) -> (r: u8)
        requires
            update_fits(*old(self), relp@.total_supply, block_number),
        ensures
            (r, *final(self)) == spec_update(*old(self), relp@.total_supply, block_number),
    {
        if self.proposal.type_ == 0 {
            return 0;
        }
        if self.proposal.status == 1 || self.proposal.status == 2 {
            if block_number < self.proposal.vote_begin {
                self.proposal.status = 1;
                return 1;
            }
            if block_number < self.proposal.end {
                self.proposal.status = 2;
                return 2;
            }
            return self.counting_vote(relp);
        }
        self.proposal.status
    }

    /// Casts `vote_amount` tokens for or against the running proposal,
    /// locking them; one vote per account, and only during the voting
    /// period.  Every failure leaves both contracts unchanged.
    pub fn vote(
        &mut self,
        relp: &mut RELP,
        caller: u64,
        block_number: u32,
        vote_amount: u128,
        is_approve: bool,
    ) -> (r: Result<(), Error>)
        requires
            old(relp)@.owner == old(self).id,
            update_fits(*old(self), old(relp)@.total_supply, block_number),
            old(self).total_approve_vote + vote_amount <= u128::MAX,
            old(self).total_against_vote + vote_amount <= u128::MAX,
            old(self).total_account < u128::MAX,
            old(relp)@.lock_info_of(caller).1 + vote_amount <= u128::MAX,
        ensures
            ({
                let verdict = spec_update(*old(self), old(relp)@.total_supply, block_number);
                &&& (verdict.0 != 2 ==> r == Err::<(), Error>(Error::NonVotingPeriod)
                    && *final(self) == *old(self) && final(relp)@ == old(relp)@)
                &&& (verdict.0 == 2 && old(relp)@.balance_of(caller) < vote_amount ==> r == Err::<
                    (),
                    Error,
                >(Error::InsufficientBalance) && *final(self) == *old(self) && final(relp)@
                    == old(relp)@)
                &&& (verdict.0 == 2 && old(relp)@.balance_of(caller) >= vote_amount && old(
                    relp,
                )@.lock_info_of(caller).0 > verdict.1.proposal.vote_begin ==> r == Err::<
                    (),
                    Error,
                >(Error::AlreadyVoted) && *final(self) == *old(self) && final(relp)@ == old(
                    relp,
                )@)
                &&& (verdict.0 == 2 && old(relp)@.balance_of(caller) >= vote_amount && old(
                    relp,
                )@.lock_info_of(caller).0 <= verdict.1.proposal.vote_begin ==> r == Ok::<
                    (),
                    Error,
                >(()) && *final(self) == spec_voted(verdict.1, vote_amount, is_approve)
                    && final(relp)@ == (RelpView {
                    lock_infos: old(relp)@.lock_infos.insert(
                        caller,
                        (
                            block_number,
                            if caller == verdict.1.proposal.proposer {
                                (old(relp)@.lock_info_of(caller).1 + vote_amount) as u128
                            } else {
                                vote_amount
                            },
                        ),
                    ),
                    ..old(relp)@
                }))
            }),
    {
        let mut next = *self;
        let state = next.update(relp, block_number);
        if state != 2 {
            return Err(Error::NonVotingPeriod);
        }
        let balance = relp.balance_of(caller);
        if balance < vote_amount {
            return Err(Error::InsufficientBalance);
        }
        let lock_info = relp.lock_info_of(caller);
        if lock_info.0 > next.proposal.vote_begin {
            return Err(Error::AlreadyVoted);
        }
        *self = next;
        if caller == self.proposal.proposer {
            relp.update_lock_infos(self.id, caller, (block_number, lock_info.1 + vote_amount))?;
            self.update_votes(vote_amount, is_approve);
            return Ok(());
        }
        relp.update_lock_infos(self.id, caller, (block_number, vote_amount))?;
        self.update_votes(vote_amount, is_approve);
        Ok(())
    }

    /// Hands the governance to a new administrator.
    pub fn transfer_ownership(&mut self, caller: u64, new_owner: u64) -> (r: Result<(), Error>)
        ensures
            caller == old(self).owner ==> r == Ok::<(), Error>(()) && *final(self) == (Govern {
                owner: new_owner,
                ..*old(self)
            }),
            caller != old(self).owner ==> r == Err::<(), Error>(Error::OnlyOwnerAccess)
                && *final(self) == *old(self),
    {
        if caller != self.owner {
            return Err(Error::OnlyOwnerAccess);
        }
        self.owner = new_owner;
        Ok(())
    }

    /// The administrator.
    pub fn owner(&self) -> (r: u64)
        ensures
            r == self.owner,
    {
        self.owner
    }

    /// Counts the votes and settles the proposal.
    fn counting_vote(&mut self, relp: &RELP) -> (r: u8)
        requires
            counting_fits(*old(self), relp@.total_supply),
        ensures
            (r, *final(self)) == spec_counting(*old(self), relp@.total_supply),
    {
        if self.total_account < self.accounts_needs as u128 {
            self.clean_vote_info();
            return 4;
        }
        let approve = self.total_approve_vote;
        let against = self.total_against_vote;
        let total_relp_supply = relp.total_supply();
        let a = against * against / (approve + against);
        let b = approve * approve / total_relp_supply;
        if a < b {
            self.k = self.proposal.new_k;
            self.clean_vote_info();
            3
        } else {
            self.clean_vote_info();
            4
        }
    }

    /// Wipes the vote books and closes the proposal.
    pub fn clean_vote_info(&mut self)
        ensures
            *final(self) == spec_clean(*old(self)),
    {
        self.proposal.type_ = 0;
        self.proposal.status = 0;
        self.total_account = 0;
        self.total_approve_vote = 0;
        self.total_against_vote = 0;
    }

    /// Books one cast vote.
    pub fn update_votes(&mut self, vote_amount: u128, is_approve: bool)
        requires
            old(self).total_approve_vote + vote_amount <= u128::MAX,
            old(self).total_against_vote + vote_amount <= u128::MAX,
            old(self).total_account < u128::MAX,
        ensures
            *final(self) == spec_voted(*old(self), vote_amount, is_approve),
    {
        if is_approve {
            self.total_approve_vote = self.total_approve_vote + vote_amount;
        } else {
            self.total_against_vote = self.total_against_vote + vote_amount;
        }
        self.total_account = self.total_account + 1;
    }
}

} // verus!
