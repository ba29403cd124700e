use vstd::prelude::*;

use crate::address::Address;
use crate::erc20::{
    approve_step, transfer_from_step, transfer_step, LedgerView, DECIMALS, ERC20,
};
use crate::errors::ERC20Errors;
use crate::table::AllowanceKey;

verus! {

/// The token interface: reads, and the three steps that move or delegate
/// amounts, each described over the state it reads as a [`LedgerView`].
pub trait IERC20: Sized {
    /// The state of the token, as mathematical values.
    spec fn ledger(&self) -> LedgerView;

    /// The invariant that every step keeps.
    spec fn well_formed(&self) -> bool;

    fn name(&self) -> (r: String)
        ensures
            r@ == self.ledger().name,
    ;

    fn symbol(&self) -> (r: String)
        ensures
            r@ == self.ledger().symbol,
    ;

    fn decimals(&self) -> (r: u8)
        ensures
            r == DECIMALS,
    ;

    fn total_supply(&self) -> (r: u128)
        ensures
            r as nat == self.ledger().total_supply,
    ;

    fn balance_of(&self, owner: Address) -> (r: u128)
        requires
            self.well_formed(),
        ensures
            r as nat == self.ledger().balances[owner],
    ;

    fn allowance(&self, owner: Address, spender: Address) -> (r: u128)
        requires
            self.well_formed(),
        ensures
            r as nat == self.ledger().allowances[AllowanceKey { owner, spender }],
    ;

    fn transfer(&mut self, caller: Address, to: Address, value: u128) -> (r: Result<
        bool,
        ERC20Errors,
    >)
        requires
            old(self).well_formed(),
        ensures
            final(self).well_formed(),
            (r, final(self).ledger()) == transfer_step(old(self).ledger(), caller, to, value as nat),
    ;

    fn transfer_from(&mut self, caller: Address, from: Address, to: Address, value: u128) -> (r:
        Result<bool, ERC20Errors>)
        requires
            old(self).well_formed(),
        ensures
            final(self).well_formed(),
            (r, final(self).ledger()) == transfer_from_step(
                old(self).ledger(),
                caller,
                from,
                to,
                value as nat,
            ),
    ;

    fn approve(&mut self, caller: Address, spender: Address, value: u128) -> (r: Result<
        bool,
        ERC20Errors,
    >)
        requires
            old(self).well_formed(),
        ensures
            final(self).well_formed(),
            (r, final(self).ledger()) == approve_step(old(self).ledger(), caller, spender, value as nat),
    ;
}

impl IERC20 for ERC20 {
    open spec fn ledger(&self) -> LedgerView {
        self@
    }

    open spec fn well_formed(&self) -> bool {
        self.wf()
    }

    fn name(&self) -> (r: String) {
        ERC20::name(self)
    }

    fn symbol(&self) -> (r: String) {
        ERC20::symbol(self)
    }

    fn decimals(&self) -> (r: u8) {
        ERC20::decimals(self)
    }

    fn total_supply(&self) -> (r: u128) {
        ERC20::total_supply(self)
    }

    fn balance_of(&self, owner: Address) -> (r: u128) {
        ERC20::balance_of(self, owner)
    }

    fn allowance(&self, owner: Address, spender: Address) -> (r: u128) {
        ERC20::allowance(self, owner, spender)
    }

    fn transfer(&mut self, caller: Address, to: Address, value: u128) -> (r: Result<
        bool,
        ERC20Errors,
    >) {
        ERC20::transfer(self, caller, to, value)
    }

    fn transfer_from(&mut self, caller: Address, from: Address, to: Address, value: u128) -> (r:
        Result<bool, ERC20Errors>) {
        ERC20::transfer_from(self, caller, from, to, value)
    }

    fn approve(&mut self, caller: Address, spender: Address, value: u128) -> (r: Result<
        bool,
        ERC20Errors,
    >) {
        ERC20::approve(self, caller, spender, value)
    }
}

} // verus!
