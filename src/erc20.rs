use vstd::prelude::*;

use crate::address::Address;
use crate::errors::{AlreadyInitialized, ERC20Errors, InsufficientAllowance, InsufficientBalance};
use crate::rules::{check_balance, spend_allowance, transfer_balances};
use crate::table::{sum_over, AllowanceKey, Table};

verus! {

/// The number of decimal places in which amounts are shown.
pub const DECIMALS: u8 = 18;

/// A notification for outside indexers, recorded by each successful
/// transfer, transfer-from and approve.
#[derive(Clone, Copy, Debug, PartialEq, Eq, Structural)]
pub enum Event {
    Transfer { from: Address, to: Address, value: u128 },
    Approval { owner: Address, spender: Address, value: u128 },
}

/// What a ledger holds, as mathematical values.
pub struct LedgerView {
    pub initialized: bool,
    pub name: Seq<char>,
    pub symbol: Seq<char>,
    pub owner: Address,
    pub total_supply: nat,
    /// The balance of every address; zero where none was credited.
    pub balances: Map<Address, nat>,
    /// The allowance of every (owner, spender) pair; zero where none was set.
    pub allowances: Map<AllowanceKey, nat>,
    /// The notifications recorded so far, oldest first.
    pub events: Seq<Event>,
}

/// The balances after `from` is debited `value` and `to` is then credited
/// `value`.
pub open spec fn moved(b: Map<Address, nat>, from: Address, to: Address, value: nat) -> Map<
    Address,
    nat,
> {
    let debited = b.insert(from, (b[from] - value) as nat);
    debited.insert(to, debited[to] + value)
}

/// The result and the next state of `init` by `caller`.
pub open spec fn init_step(
    s: LedgerView,
    caller: Address,
    name: Seq<char>,
    symbol: Seq<char>,
    initial_supply: nat,
) -> (Result<bool, ERC20Errors>, LedgerView) {
    if s.initialized {
        (Err(ERC20Errors::AlreadyInitialized(AlreadyInitialized {})), s)
    } else {
        (
            Ok(true),
            LedgerView {
                initialized: true,
                name: name,
                symbol: symbol,
                owner: caller,
                total_supply: s.total_supply + initial_supply,
                balances: s.balances.insert(caller, s.balances[caller] + initial_supply),
                ..s
            },
        )
    }
}

/// The result and the next state of `transfer` of `value` by `caller` to `to`.
pub open spec fn transfer_step(s: LedgerView, caller: Address, to: Address, value: nat) -> (
    Result<bool, ERC20Errors>,
    LedgerView,
) {
    if s.balances[caller] < value {
        (
            Err(
                ERC20Errors::InsufficientBalance(
                    InsufficientBalance { account: caller, amount: value as u128 },
                ),
            ),
            s,
        )
    } else {
        (
            Ok(true),
            LedgerView {
                balances: moved(s.balances, caller, to, value),
                events: s.events.push(Event::Transfer { from: caller, to: to, value: value as u128 }),
                ..s
            },
        )
    }
}

/// The result and the next state of `approve` by `caller` of `spender` for
/// `value`: the caller must hold `value`, and the allowance is set to it.
pub open spec fn approve_step(s: LedgerView, caller: Address, spender: Address, value: nat) -> (
    Result<bool, ERC20Errors>,
    LedgerView,
) {
    if s.balances[caller] < value {
        (
            Err(
                ERC20Errors::InsufficientBalance(
                    InsufficientBalance { account: caller, amount: value as u128 },
                ),
            ),
            s,
        )
    } else {
        (
            Ok(true),
            LedgerView {
                allowances: s.allowances.insert(
                    AllowanceKey { owner: caller, spender: spender },
                    value,
                ),
                events: s.events.push(
                    Event::Approval { owner: caller, spender: spender, value: value as u128 },
                ),
                ..s
            },
        )
    }
}

/// The result and the next state of `transfer_from` by `caller` of `value`
/// from `owner` to `to`. The allowance is checked first, then the balance.
pub open spec fn transfer_from_step(
    s: LedgerView,
    caller: Address,
    owner: Address,
    to: Address,
    value: nat,
) -> (Result<bool, ERC20Errors>, LedgerView) {
    let key = AllowanceKey { owner: owner, spender: caller };
    if s.allowances[key] < value {
        (
            Err(
                ERC20Errors::InsufficientAllowance(
                    InsufficientAllowance {
                        spender: caller,
                        amount: s.allowances[key] as u128,
                    },
                ),
            ),
            s,
        )
    } else if s.balances[owner] < value {
        (
            Err(
                ERC20Errors::InsufficientBalance(
                    InsufficientBalance { account: owner, amount: value as u128 },
                ),
            ),
            s,
        )
    } else {
        (
            Ok(true),
            LedgerView {
                allowances: s.allowances.insert(key, (s.allowances[key] - value) as nat),
                balances: moved(s.balances, owner, to, value),
                events: s.events.push(Event::Transfer { from: owner, to: to, value: value as u128 }),
                ..s
            },
        )
    }
}

/// The token ledger.
///
/// Its policies: it is initialized once, and a second `init` fails; approving
/// asks that the approver hold the approved amount; a transfer to oneself and a
/// transfer of zero succeed; the zero address is an account like any other.
pub struct ERC20 {
    initialized: bool,
    name: String,
    symbol: String,
    owner: Address,
    total_supply: u128,
    balance: Table<Address>,
    allowance: Table<AllowanceKey>,
    events: Vec<Event>,
}

impl ERC20 {
    pub closed spec fn view(&self) -> LedgerView {
        LedgerView {
            initialized: self.initialized,
            name: self.name@,
            symbol: self.symbol@,
            owner: self.owner,
            total_supply: self.total_supply as nat,
            balances: self.balance@,
            allowances: self.allowance@,
            events: self.events@,
        }
    }

    /// The addresses that have a balance entry, each once.
    pub closed spec fn accounts(&self) -> Seq<Address> {
        self.balance.keys()
    }

    /// The ledger's invariant: the total supply is the sum of all balances,
    /// and nothing was minted before initialization.
    pub closed spec fn wf(&self) -> bool {
        &&& self.books_agree()
        &&& !self.initialized ==> self.total_supply == 0
    }

    closed spec fn books_agree(&self) -> bool {
        &&& self.balance.wf()
        &&& self.allowance.wf()
        &&& self.total_supply as int == self.balance.sum()
    }

    /// A ledger that is not initialized yet: no name, no supply, no balances,
    /// no allowances and no notifications.
    pub fn new() -> (l: ERC20)
        ensures
            l.wf(),
            !l@.initialized,
            l@.name.len() == 0,
            l@.symbol.len() == 0,
            l@.owner == (Address { hi: 0, lo: 0 }),
            l@.total_supply == 0,
            forall|a: Address| #[trigger] l@.balances[a] == 0,
            forall|k: AllowanceKey| #[trigger] l@.allowances[k] == 0,
            l@.events.len() == 0,
    {
        ERC20 {
            initialized: false,
            name: String::new(),
            symbol: String::new(),
            owner: Address::zero(),
            total_supply: 0,
            balance: Table::new(),
            allowance: Table::new(),
            events: Vec::new(),
        }
    }

    fn _mint(&mut self, to: Address, value: u128)
        requires
            old(self).books_agree(),
            old(self).total_supply + value <= u128::MAX,
        ensures
            final(self).books_agree(),
            final(self)@ == (LedgerView {
                total_supply: old(self)@.total_supply + value as nat,
                balances: old(self)@.balances.insert(to, old(self)@.balances[to] + value as nat),
                ..old(self)@
            }),
    {
        proof {
            self.balance.lemma_amount_le_sum(to);
        }
        let bal = self.balance.get(to);
        self.balance.set(to, bal + value);
        self.total_supply = self.total_supply + value;
    }

    /// Initializes the ledger once: stores its name and symbol, records
    /// `caller` as its owner and mints `initial_supply` to `caller`. A second
    /// call fails with `AlreadyInitialized` and changes nothing.
    pub fn init(&mut self, caller: Address, name: String, symbol: String, initial_supply: u128) -> (r:
        Result<bool, ERC20Errors>)
        requires
            old(self).wf(),
        ensures
            final(self).wf(),
            (r, final(self)@) == init_step(
                old(self)@,
                caller,
                name@,
                symbol@,
                initial_supply as nat,
            ),
    {
        if self.initialized {
            return Err(ERC20Errors::AlreadyInitialized(AlreadyInitialized {}));
        }
        self.name = name;
        self.symbol = symbol;
        self._mint(caller, initial_supply);
        self.owner = caller;
        self.initialized = true;
        Ok(true)
    }

    /// Conservation: in every state that the ledger's steps reach, the total
    /// supply is the sum of the balances of a list of accounts, free of
    /// repeats, that holds every account whose balance is not zero; so no
    /// balance exceeds the total supply.
    pub proof fn lemma_conservation(&self)
        requires
            self.wf(),
        ensures
            self.accounts().no_duplicates(),
            forall|a: Address| #[trigger] self@.balances[a] != 0 ==> self.accounts().contains(a),
            self@.total_supply == sum_over(self.accounts(), self@.balances),
            forall|a: Address| #[trigger] self@.balances[a] <= self@.total_supply,
    {
        self.balance.lemma_sum_is_sum_over_keys();
        assert forall|a: Address| #[trigger] self@.balances[a] <= self@.total_supply by {
            self.balance.lemma_amount_le_sum(a);
        }
    }

    /// The ledger's name.
    pub fn name(&self) -> (r: String)
        ensures
            r@ == self@.name,
    {
        self.name.clone()
    }

    /// The ledger's symbol.
    pub fn symbol(&self) -> (r: String)
        ensures
            r@ == self@.symbol,
    {
        self.symbol.clone()
    }

    /// The number of decimal places: always 18.
    pub fn decimals(&self) -> (r: u8)
        ensures
            r == DECIMALS,
    {
        DECIMALS
    }

    /// The address that initialized the ledger.
    pub fn owner(&self) -> (r: Address)
        ensures
            r == self@.owner,
    {
        self.owner
    }

    /// The total supply.
    pub fn total_supply(&self) -> (r: u128)
        ensures
            r as nat == self@.total_supply,
    {
        self.total_supply
    }

    /// The balance of `owner`, zero where it was never credited.
    pub fn balance_of(&self, owner: Address) -> (r: u128)
        requires
            self.wf(),
        ensures
            r as nat == self@.balances[owner],
    {
        self._balance(owner)
    }

    /// What `spender` may still move out of `owner`'s balance.
    pub fn allowance(&self, owner: Address, spender: Address) -> (r: u128)
        requires
            self.wf(),
        ensures
            r as nat == self@.allowances[AllowanceKey { owner, spender }],
    {
        self._get_allowance(owner, spender)
    }

    /// The notifications recorded so far, oldest first.
    pub fn events(&self) -> (r: &Vec<Event>)
        ensures
            r@ == self@.events,
    {
        &self.events
    }

    fn _balance(&self, address: Address) -> (r: u128)
        requires
            self.wf(),
        ensures
            r as nat == self@.balances[address],
    {
        self.balance.get(address)
    }

    fn _get_allowance(&self, owner: Address, spender: Address) -> (r: u128)
        requires
            self.wf(),
        ensures
            r as nat == self@.allowances[AllowanceKey { owner, spender }],
    {
        self.allowance.get(AllowanceKey { owner, spender })
    }

    /// Moves `value` from `from`, whose balance is `bal`, to `to`.
    fn _transfer(&mut self, from: Address, bal: u128, to: Address, value: u128)
        requires
            old(self).wf(),
            bal as nat == old(self)@.balances[from],
            bal >= value,
        ensures
            final(self).wf(),
            final(self)@ == (LedgerView {
                balances: moved(old(self)@.balances, from, to, value as nat),
                ..old(self)@
            }),
    {
        let to_bal = self.balance.get(to);
        proof {
            if from != to {
                self.balance.lemma_two_le_sum(from, to);
            }
        }
        match transfer_balances(from, to, bal, to_bal, value) {
            Ok((new_from, new_to)) => {
                self.balance.set(from, new_from);
                self.balance.set(to, new_to);
                proof {
                    let b = old(self)@.balances;
                    let debited = b.insert(from, (b[from] - value) as nat);
                    assert(self.balance@ =~= debited.insert(to, debited[to] + value as nat));
                }
            },
            Err(_) => {},
        }
    }

    /// `caller` sends `value` to `to`. Fails with `InsufficientBalance` for
    /// `caller` and `value`, changing nothing, where `caller` holds less than
    /// `value`; else moves the amount, records a `Transfer` and returns `true`.
    pub fn transfer(&mut self, caller: Address, to: Address, value: u128) -> (r: Result<
        bool,
        ERC20Errors,
    >)
        requires
            old(self).wf(),
        ensures
            final(self).wf(),
            (r, final(self)@) == transfer_step(old(self)@, caller, to, value as nat),
    {
        let bal = self._balance(caller);
        if !check_balance(bal, value) {
            return Err(ERC20Errors::insufficient_balance(caller, value));
        }
        self._transfer(caller, bal, to, value);
        self.events.push(Event::Transfer { from: caller, to, value });
        Ok(true)
    }

    /// `caller` lets `spender` move up to `value` out of its balance, replacing
    /// any earlier allowance. Fails with `InsufficientBalance` for `caller` and
    /// `value`, changing nothing, where `caller` holds less than `value`; else
    /// sets the allowance, records an `Approval` and returns `true`.
    pub fn approve(&mut self, caller: Address, spender: Address, value: u128) -> (r: Result<
        bool,
        ERC20Errors,
    >)
        requires
            old(self).wf(),
        ensures
            final(self).wf(),
            (r, final(self)@) == approve_step(old(self)@, caller, spender, value as nat),
    {
        if !check_balance(self._balance(caller), value) {
            return Err(ERC20Errors::insufficient_balance(caller, value));
        }
        self.allowance.set(AllowanceKey { owner: caller, spender }, value);
        self.events.push(Event::Approval { owner: caller, spender, value });
        Ok(true)
    }

    /// `caller` moves `value` from `owner` to `to` out of the allowance that
    /// `owner` gave it. Fails, changing nothing, with `InsufficientAllowance`
    /// for `caller` and its allowance where that is below `value`; else with
    /// `InsufficientBalance` for `owner` and `value` where `owner` holds less
    /// than `value`. Otherwise lowers the allowance by `value`, moves the
    /// amount, records a `Transfer` and returns `true`.
    pub fn transfer_from(&mut self, caller: Address, owner: Address, to: Address, value: u128) -> (r:
        Result<bool, ERC20Errors>)
        requires
            old(self).wf(),
        ensures
            final(self).wf(),
            (r, final(self)@) == transfer_from_step(old(self)@, caller, owner, to, value as nat),
    {
        let spender = caller;
        let allowance = self._get_allowance(owner, spender);
        let left = match spend_allowance(spender, allowance, value) {
            Ok(left) => left,
            Err(e) => {
                return Err(e);
            },
        };
        let owner_balance = self._balance(owner);
        if !check_balance(owner_balance, value) {
            return Err(ERC20Errors::insufficient_balance(owner, value));
        }
        self._update_allowance(owner, spender, left);
        self._transfer(owner, owner_balance, to, value);
        self.events.push(Event::Transfer { from: owner, to, value });
        Ok(true)
    }

    fn _update_allowance(&mut self, owner: Address, spender: Address, value: u128)
        requires
            old(self).wf(),
        ensures
            final(self).wf(),
            final(self)@ == (LedgerView {
                allowances: old(self)@.allowances.insert(
                    AllowanceKey { owner, spender },
                    value as nat,
                ),
                ..old(self)@
            }),
    {
        self.allowance.set(AllowanceKey { owner, spender }, value);
    }
}

} // verus!
