//! The paired stable token: plain balance/allowance bookkeeping with an
//! owner-gated mint, used by the accrual engine to pay out one of the two
//! reward streams.

use vstd::prelude::*;
use std::collections::HashMap;
use crate::errors::Error;

verus! {

broadcast use vstd::std_specs::hash::group_hash_axioms;

/// Record of a completed token transfer.
#[derive(Clone, Copy, Debug, PartialEq, Eq, Structural)]
pub struct Transfer {
    /// The debited account, absent for a pure emission.
    pub from: Option<u64>,
    /// The credited account, absent for a pure withdrawal.
    pub to: Option<u64>,
    /// The amount moved.
    pub value: u128,
}

/// Record of an allowance grant: `spender` may withdraw up to `value`
/// from `owner`.
#[derive(Clone, Copy, Debug, PartialEq, Eq, Structural)]
pub struct Approval {
    /// The account granting the allowance.
    pub owner: u64,
    /// The account allowed to withdraw.
    pub spender: u64,
    /// The granted amount.
    pub value: u128,
}

/// Record of newly minted tokens.
#[derive(Clone, Copy, Debug, PartialEq, Eq, Structural)]
pub struct Mint {
    /// The credited account.
    pub user: u64,
    /// The minted amount.
    pub amount: u128,
}

/// Record of burned tokens.
#[derive(Clone, Copy, Debug, PartialEq, Eq, Structural)]
pub struct Burn {
    /// The debited account.
    pub user: u64,
    /// The burned amount.
    pub amount: u128,
}

/// One entry of the token's event log.
#[derive(Clone, Copy, Debug, PartialEq, Eq, Structural)]
pub enum TokenEvent {
    /// A completed transfer.
    Transfer(Transfer),
    /// An allowance grant.
    Approval(Approval),
    /// A mint.
    Mint(Mint),
    /// A burn.
    Burn(Burn),
}

/// The storage key under which the allowance from `owner` to `spender`
/// is kept: the two account identifiers packed into one word.
pub open spec fn allowance_key(owner: u64, spender: u64) -> u128 {
    (owner * 0x10000000000000000 + spender) as u128
}

/// The mathematical content of an [`ELC`] token.
pub struct ElcView {
    /// Total token supply.
    pub total_supply: u128,
    /// Balance per account.
    pub balances: Map<u64, u128>,
    /// Allowances, keyed by [`allowance_key`].
    pub allowances: Map<u128, u128>,
    /// Everything the token has done, in order.
    pub events: Seq<TokenEvent>,
    /// The only account allowed to mint and burn.
    pub owner: u64,
}

impl ElcView {
    /// The balance of `account`, zero when absent.
    pub open spec fn balance_of(self, account: u64) -> u128 {
        if self.balances.contains_key(account) {
            self.balances[account]
        } else {
            0
        }
    }

    /// The allowance from `owner` to `spender`, zero when absent.
    pub open spec fn allowance_of(self, owner: u64, spender: u64) -> u128 {
        if self.allowances.contains_key(allowance_key(owner, spender)) {
            self.allowances[allowance_key(owner, spender)]
        } else {
            0
        }
    }

    /// Moving `value` to `to` cannot overflow its balance.
    pub open spec fn transfer_fits(self, from: u64, to: u64, value: u128) -> bool {
        from == to || self.balance_of(to) + value <= u128::MAX
    }

    /// The token after `value` moved from `from` to `to`: `from` debited
    /// first, `to` credited second, the transfer logged.
    pub open spec fn after_transfer(self, from: u64, to: u64, value: u128) -> ElcView {
        let debited = self.balances.insert(from, (self.balance_of(from) - value) as u128);
        let to_balance = if debited.contains_key(to) {
            debited[to]
        } else {
            0
        };
        ElcView {
            balances: debited.insert(to, (to_balance + value) as u128),
            events: self.events.push(
                TokenEvent::Transfer(Transfer { from: Some(from), to: Some(to), value }),
            ),
            ..self
        }
    }

    /// The token after `amount` was minted to `user`: the balance
    /// saturates, the supply grows exactly, the mint is logged.
    pub open spec fn after_mint(self, user: u64, amount: u128) -> ElcView {
        let new_balance = if self.balance_of(user) + amount <= u128::MAX {
            (self.balance_of(user) + amount) as u128
        } else {
            u128::MAX
        };
        ElcView {
            balances: self.balances.insert(user, new_balance),
            total_supply: (self.total_supply + amount) as u128,
            events: self.events.push(TokenEvent::Mint(Mint { user, amount })),
            ..self
        }
    }

    /// The token after `amount` was burned from `user`.
    pub open spec fn after_burn(self, user: u64, amount: u128) -> ElcView {
        ElcView {
            balances: self.balances.insert(user, (self.balance_of(user) - amount) as u128),
            total_supply: (self.total_supply - amount) as u128,
            events: self.events.push(TokenEvent::Burn(Burn { user, amount })),
            ..self
        }
    }
}

/// The paired stable token.
pub struct ELC {
    /// Total token supply.
    pub total_supply: u128,
    /// Balance per account.
    pub balances: HashMap<u64, u128>,
    /// Allowances, keyed by [`allowance_key`].
    pub allowances: HashMap<u128, u128>,
    /// Everything the token has done, in order.
    pub events: Vec<TokenEvent>,
    /// The only account allowed to mint and burn.
    pub owner: u64,
}

impl View for ELC {
    type V = ElcView;

    open spec fn view(&self) -> ElcView {
        ElcView {
            total_supply: self.total_supply,
            balances: self.balances@,
            allowances: self.allowances@,
            events: self.events@,
            owner: self.owner,
        }
    }
}

/// Packs an allowance's two account identifiers into its storage key.
fn allowance_key_exec(owner: u64, spender: u64) -> (r: u128)
    ensures
        r == allowance_key(owner, spender),
{
    (owner as u128) * 0x10000000000000000u128 + (spender as u128)
}

impl ELC {
    /// Creates an empty token owned by `owner`.
    pub fn new(owner: u64) -> (r: ELC)
        ensures
            r@ == (ElcView {
                total_supply: 0,
                balances: Map::<u64, u128>::empty(),
                allowances: Map::<u128, u128>::empty(),
                events: Seq::<TokenEvent>::empty(),
                owner,
            }),
    {
        ELC {
            total_supply: 0,
            balances: HashMap::new(),
            allowances: HashMap::new(),
            events: Vec::new(),
            owner,
        }
    }

    /// The token name.
    pub fn token_name(&self) -> (r: Option<String>)
        ensures
            r matches Some(s) && s@ == "Everlasting Cash"@,
    {
        Some("Everlasting Cash".to_owned())
    }

    /// The token symbol.
    pub fn token_symbol(&self) -> (r: Option<String>)
        ensures
            r matches Some(s) && s@ == "ELC"@,
    {
        Some("ELC".to_owned())
    }

    /// The token decimals.
    pub fn token_decimals(&self) -> (r: Option<u8>)
        ensures
            r == Some(8u8),
    {
        Some(8)
    }

    /// Total token supply.
    pub fn total_supply(&self) -> (r: u128)
        ensures
            r == self@.total_supply,
    {
        self.total_supply
    }

    /// The balance of `owner`, zero for an absent account.
    pub fn balance_of(&self, owner: u64) -> (r: u128)
        ensures
            r == self@.balance_of(owner),
    {
        match self.balances.get(&owner) {
            Some(v) => *v,
            None => 0,
        }
    }

    /// The amount `spender` may still withdraw from `owner`.
    pub fn allowance(&self, owner: u64, spender: u64) -> (r: u128)
        ensures
            r == self@.allowance_of(owner, spender),
    {
        let key = allowance_key_exec(owner, spender);
        match self.allowances.get(&key) {
            Some(v) => *v,
            None => 0,
        }
    }

    /// Moves `value` from `from` to `to`; the whole balance of `from`
    /// must cover it.
    fn transfer_from_to(&mut self, from: u64, to: u64, value: u128) -> (r: Result<(), Error>)
        requires
            old(self)@.transfer_fits(from, to, value),
        ensures
            old(self)@.balance_of(from) < value ==> r == Err::<(), Error>(
                Error::InsufficientBalance,
            ) && final(self)@ == old(self)@,
            old(self)@.balance_of(from) >= value ==> r == Ok::<(), Error>(()) && final(self)@
                == old(self)@.after_transfer(from, to, value),
    {
        let from_balance = self.balance_of(from);
        if from_balance < value {
            return Err(Error::InsufficientBalance);
        }
        self.balances.insert(from, from_balance - value);
        let to_balance = self.balance_of(to);
        self.balances.insert(to, to_balance + value);
        self.events.push(
            TokenEvent::Transfer(Transfer { from: Some(from), to: Some(to), value }),
        );
        Ok(())
    }

    /// Moves `value` from the caller's account to `to`.
    pub fn transfer(&mut self, caller: u64, to: u64, value: u128) -> (r: Result<(), Error>)
        requires
            old(self)@.transfer_fits(caller, to, value),
        ensures
            old(self)@.balance_of(caller) < value ==> r == Err::<(), Error>(
                Error::InsufficientBalance,
            ) && final(self)@ == old(self)@,
            old(self)@.balance_of(caller) >= value ==> r == Ok::<(), Error>(()) && final(self)@
                == old(self)@.after_transfer(caller, to, value),
    {
        self.transfer_from_to(caller, to, value)
    }

    /// Moves `value` from `from` to `to` on the caller's allowance.
    pub fn transfer_from(&mut self, caller: u64, from: u64, to: u64, value: u128) -> (r: Result<
        (),
        Error,
    >)
        requires
            old(self)@.transfer_fits(from, to, value),
        ensures
            old(self)@.allowance_of(from, caller) < value ==> r == Err::<(), Error>(
                Error::InsufficientAllowance,
            ) && final(self)@ == old(self)@,
            old(self)@.allowance_of(from, caller) >= value && old(self)@.balance_of(from) < value
                ==> r == Err::<(), Error>(Error::InsufficientBalance) && final(self)@ == old(
                self,
            )@,
            old(self)@.allowance_of(from, caller) >= value && old(self)@.balance_of(from) >= value
                ==> r == Ok::<(), Error>(()) && final(self)@ == (ElcView {
                allowances: old(self)@.after_transfer(from, to, value).allowances.insert(
                    allowance_key(from, caller),
                    (old(self)@.allowance_of(from, caller) - value) as u128,
                ),
                ..old(self)@.after_transfer(from, to, value)
            }),
    {
        let allowance = self.allowance(from, caller);
        if allowance < value {
            return Err(Error::InsufficientAllowance);
        }
        self.transfer_from_to(from, to, value)?;
        let key = allowance_key_exec(from, caller);
        self.allowances.insert(key, allowance - value);
        Ok(())
    }

    /// Lets `spender` withdraw up to `value` from the caller's account,
    /// overwriting any earlier allowance.
    pub fn approve(&mut self, caller: u64, spender: u64, value: u128) -> (r: Result<(), Error>)
        ensures
            r == Ok::<(), Error>(()),
            final(self)@ == (ElcView {
                allowances: old(self)@.allowances.insert(allowance_key(caller, spender), value),
                events: old(self)@.events.push(
                    TokenEvent::Approval(Approval { owner: caller, spender, value }),
                ),
                ..old(self)@
            }),
    {
        let key = allowance_key_exec(caller, spender);
        self.allowances.insert(key, value);
        self.events.push(TokenEvent::Approval(Approval { owner: caller, spender, value }));
        Ok(())
    }

    /// Mints `amount` new tokens to `user`; only the owner may mint, the
    /// amount must be positive, and the zero account cannot receive.
    pub fn mint(&mut self, caller: u64, user: u64, amount: u128) -> (r: Result<(), Error>)
        requires
            user != 0,
            old(self)@.total_supply + amount <= u128::MAX,
        ensures
            caller != old(self)@.owner ==> r == Err::<(), Error>(Error::OnlyOwnerAccess)
                && final(self)@ == old(self)@,
            caller == old(self)@.owner && amount == 0 ==> r == Err::<(), Error>(
                Error::InvalidAmount,
            ) && final(self)@ == old(self)@,
            caller == old(self)@.owner && amount > 0 ==> r == Ok::<(), Error>(()) && final(self)@
                == old(self)@.after_mint(user, amount),
    {
        if caller != self.owner {
            return Err(Error::OnlyOwnerAccess);
        }
        if amount == 0 {
            return Err(Error::InvalidAmount);
        }
        let user_balance = self.balance_of(user);
        self.balances.insert(user, user_balance.saturating_add(amount));
        self.total_supply = self.total_supply + amount;
        self.events.push(TokenEvent::Mint(Mint { user, amount }));
        Ok(())
    }

    /// Burns `amount` tokens from `user`; only the owner may burn, and
    /// both the supply and the account's balance must cover it.
    pub fn burn(&mut self, caller: u64, user: u64, amount: u128) -> (r: Result<(), Error>)
        ensures
            caller != old(self)@.owner ==> r == Err::<(), Error>(Error::OnlyOwnerAccess)
                && final(self)@ == old(self)@,
            caller == old(self)@.owner && old(self)@.total_supply < amount ==> r == Err::<
                (),
                Error,
            >(Error::InsufficientSupply) && final(self)@ == old(self)@,
            caller == old(self)@.owner && old(self)@.total_supply >= amount && old(
                self,
            )@.balance_of(user) < amount ==> r == Err::<(), Error>(Error::InsufficientBalance)
                && final(self)@ == old(self)@,
            caller == old(self)@.owner && old(self)@.total_supply >= amount && old(
                self,
            )@.balance_of(user) >= amount ==> r == Ok::<(), Error>(()) && final(self)@ == old(
                self,
            )@.after_burn(user, amount),
    {
        if caller != self.owner {
            return Err(Error::OnlyOwnerAccess);
        }
        if self.total_supply < amount {
            return Err(Error::InsufficientSupply);
        }
        let user_balance = self.balance_of(user);
        if user_balance < amount {
            return Err(Error::InsufficientBalance);
        }
        self.balances.insert(user, user_balance.saturating_sub(amount));
        self.total_supply = self.total_supply - amount;
        self.events.push(TokenEvent::Burn(Burn { user, amount }));
        Ok(())
    }

    /// The only account allowed to mint and burn.
    pub fn owner(&self) -> (r: u64)
        ensures
            r == self@.owner,
    {
        self.owner
    }

    /// Hands the token to a new owner.
    pub fn transfer_ownership(&mut self, caller: u64, new_owner: u64) -> (r: Result<(), Error>)
        ensures
            caller == old(self)@.owner ==> r == Ok::<(), Error>(()) && final(self)@
                == (ElcView { owner: new_owner, ..old(self)@ }),
            caller != old(self)@.owner ==> r == Err::<(), Error>(Error::OnlyOwnerAccess)
                && final(self)@ == old(self)@,
    {
        if caller != self.owner {
            return Err(Error::OnlyOwnerAccess);
        }
        self.owner = new_owner;
        Ok(())
    }
}

} // verus!
