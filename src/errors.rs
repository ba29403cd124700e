use vstd::prelude::*;

use crate::address::Address;

verus! {

/// An account does not hold the amount that a step would take from it.
#[derive(Clone, Copy, Debug, PartialEq, Eq, Structural)]
pub struct InsufficientBalance {
    pub account: Address,
    pub amount: u128,
}

/// A transfer named the zero address as its recipient.
#[derive(Clone, Copy, Debug, PartialEq, Eq, Structural)]
pub struct TransferToZeroAddress {}

/// A spender's allowance does not cover the amount it tried to move; `amount`
/// is the allowance it has.
#[derive(Clone, Copy, Debug, PartialEq, Eq, Structural)]
pub struct InsufficientAllowance {
    pub spender: Address,
    pub amount: u128,
}

/// The ledger was initialized already, and is initialized only once.
#[derive(Clone, Copy, Debug, PartialEq, Eq, Structural)]
pub struct AlreadyInitialized {}

/// Every way in which a ledger step can fail.
#[derive(Clone, Copy, Debug, PartialEq, Eq, Structural)]
pub enum ERC20Errors {
    InsufficientBalance(InsufficientBalance),
    TransferToZeroAddress(TransferToZeroAddress),
    InsufficientAllowance(InsufficientAllowance),
    AlreadyInitialized(AlreadyInitialized),
}

impl ERC20Errors {
    /// The error for `account` lacking `amount`.
    pub fn insufficient_balance(account: Address, amount: u128) -> (r: ERC20Errors)
        ensures
            r == ERC20Errors::InsufficientBalance(InsufficientBalance { account, amount }),
    {
        ERC20Errors::InsufficientBalance(InsufficientBalance { account, amount })
    }

    /// The error for `spender` whose allowance is `amount`.
    pub fn insufficient_allowance(spender: Address, amount: u128) -> (r: ERC20Errors)
        ensures
            r == ERC20Errors::InsufficientAllowance(InsufficientAllowance { spender, amount }),
    {
        ERC20Errors::InsufficientAllowance(InsufficientAllowance { spender, amount })
    }
}

} // verus!
