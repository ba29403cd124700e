use vstd::prelude::*;

use crate::address::Address;
use crate::errors::{ERC20Errors, InsufficientAllowance, InsufficientBalance};

verus! {

/// Whether a balance covers a requested amount.
pub fn check_balance(balance: u128, value: u128) -> (r: bool)
    ensures
        r == (balance >= value),
{
    balance >= value
}

/// Whether an allowance covers a requested amount.
pub fn check_allowance(allowance: u128, amount: u128) -> (r: bool)
    ensures
        r == (allowance >= amount),
{
    allowance >= amount
}

/// The balances of `from` and `to` after `from` sends `value` to `to`, given
/// their balances before: `from` is debited first, then `to` is credited, so a
/// transfer to oneself leaves the balance as it was.
pub open spec fn moved_balances(
    from: Address,
    to: Address,
    from_balance: u128,
    to_balance: u128,
    value: u128,
) -> (u128, u128) {
    if from == to {
        (from_balance, from_balance)
    } else {
        ((from_balance - value) as u128, (to_balance + value) as u128)
    }
}

/// Checks and computes one movement of `value` from `from` to `to`, whose
/// balances are `from_balance` and `to_balance` (the same balance where the two
/// are one account). It fails with `InsufficientBalance` for `from` and `value`
/// exactly when `from_balance` is below `value`.
pub fn transfer_balances(
    from: Address,
    to: Address,
    from_balance: u128,
    to_balance: u128,
    value: u128,
) -> (r: Result<(u128, u128), ERC20Errors>)
    requires
        from == to ==> to_balance == from_balance,
        from != to ==> from_balance + to_balance <= u128::MAX,
    ensures
        from_balance < value ==> r == Err::<(u128, u128), ERC20Errors>(
            ERC20Errors::InsufficientBalance(InsufficientBalance { account: from, amount: value }),
        ),
        from_balance >= value ==> r == Ok::<(u128, u128), ERC20Errors>(
            moved_balances(from, to, from_balance, to_balance, value),
        ),
{
    if !check_balance(from_balance, value) {
        return Err(ERC20Errors::insufficient_balance(from, value));
    }
    let debited = from_balance - value;
    if from == to {
        Ok((debited + value, debited + value))
    } else {
        Ok((debited, to_balance + value))
    }
}

/// Checks and computes what is left of `spender`'s `allowance` after it moves
/// `value`. It fails with `InsufficientAllowance` for `spender` and the
/// allowance it has exactly when `allowance` is below `value`.
pub fn spend_allowance(spender: Address, allowance: u128, value: u128) -> (r: Result<
    u128,
    ERC20Errors,
>)
    ensures
        allowance < value ==> r == Err::<u128, ERC20Errors>(
            ERC20Errors::InsufficientAllowance(
                InsufficientAllowance { spender: spender, amount: allowance },
            ),
        ),
        allowance >= value ==> r == Ok::<u128, ERC20Errors>((allowance - value) as u128),
{
    if !check_allowance(allowance, value) {
        return Err(ERC20Errors::insufficient_allowance(spender, allowance));
    }
    Ok(allowance - value)
}

} // verus!
