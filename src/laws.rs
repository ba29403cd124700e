use vstd::prelude::*;

use crate::address::Address;
use crate::erc20::{approve_step, transfer_from_step, LedgerView};
use crate::errors::ERC20Errors;
use crate::table::AllowanceKey;

verus! {

/// A successful transfer-from between two distinct accounts lowers the
/// spender's allowance by the amount, lowers the owner's balance by it and
/// raises the recipient's balance by it.
pub proof fn lemma_transfer_from_moves(
    s: LedgerView,
    caller: Address,
    owner: Address,
    to: Address,
    value: nat,
)
    requires
        transfer_from_step(s, caller, owner, to, value).0 is Ok,
        owner != to,
    ensures
        ({
            let next = transfer_from_step(s, caller, owner, to, value).1;
            let key = AllowanceKey { owner: owner, spender: caller };
            &&& next.allowances[key] == s.allowances[key] - value
            &&& next.balances[owner] == s.balances[owner] - value
            &&& next.balances[to] == s.balances[to] + value
        }),
{
}

/// Approving twice sets the allowance to the second amount, not the sum,
/// whenever the second approval succeeds.
pub proof fn lemma_approve_overwrites(
    s: LedgerView,
    caller: Address,
    spender: Address,
    v1: nat,
    v2: nat,
)
    requires
        s.balances[caller] >= v2,
    ensures
        ({
            let first = approve_step(s, caller, spender, v1);
            let second = approve_step(first.1, caller, spender, v2);
            &&& second.0 == Ok::<bool, ERC20Errors>(true)
            &&& second.1.allowances[AllowanceKey { owner: caller, spender: spender }] == v2
        }),
{
}

} // verus!
