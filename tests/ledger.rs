use stylus_erc20::address::Address;
use stylus_erc20::erc20::{Event, DECIMALS, ERC20};
use stylus_erc20::errors::{
    AlreadyInitialized, ERC20Errors, InsufficientAllowance, InsufficientBalance,
};
use stylus_erc20::rules::{check_allowance, check_balance, spend_allowance, transfer_balances};

fn deployer() -> Address {
    Address::new(0xdead, 0xbeef)
}

fn addr(n: u128) -> Address {
    Address::new(0, n)
}

fn create_erc20_instance() -> (ERC20, Address) {
    let mut erc20 = ERC20::new();
    let d = deployer();
    assert_eq!(
        erc20.init(d, "Stylus".to_string(), "STY".to_string(), 1_000_000_000),
        Ok(true)
    );
    (erc20, d)
}

#[test]
fn test_get_decimals() {
    let (erc20, owner) = create_erc20_instance();
    assert_eq!(erc20.decimals(), 18);
    assert_eq!(DECIMALS, 18);
    assert_eq!(erc20.name(), "Stylus");
    assert_eq!(erc20.symbol(), "STY");
    assert_eq!(erc20.owner(), owner);
    assert_eq!(erc20.total_supply(), 1_000_000_000);
    assert_eq!(erc20.balance_of(owner), 1_000_000_000);
}

#[test]
fn test_transfer() {
    let (mut erc20, owner) = create_erc20_instance();
    let to = addr(1);
    assert_eq!(erc20.transfer(owner, to, 100), Ok(true));
    assert_eq!(erc20.balance_of(owner), 999_999_900);
    assert_eq!(erc20.balance_of(to), 100);
    assert_eq!(erc20.total_supply(), 1_000_000_000);
    assert_eq!(
        erc20.events(),
        &vec![Event::Transfer { from: owner, to, value: 100 }]
    );
}

#[test]
fn transfer_from_empty_account_fails_and_changes_nothing() {
    let (mut erc20, owner) = create_erc20_instance();
    let fresh = addr(7);
    let x = addr(8);
    let r = erc20.transfer(fresh, x, 1);
    assert_eq!(
        r,
        Err(ERC20Errors::InsufficientBalance(InsufficientBalance { account: fresh, amount: 1 }))
    );
    assert_eq!(erc20.balance_of(fresh), 0);
    assert_eq!(erc20.balance_of(x), 0);
    assert_eq!(erc20.balance_of(owner), 1_000_000_000);
    assert!(erc20.events().is_empty());
}

#[test]
fn test_transfer_from_and_approve() {
    let (mut erc20, owner) = create_erc20_instance();
    let spender = addr(1);
    let target = addr(2);
    assert_eq!(erc20.approve(owner, spender, 100), Ok(true));
    assert_eq!(erc20.allowance(owner, spender), 100);
    assert_eq!(erc20.transfer_from(spender, owner, target, 100), Ok(true));
    assert_eq!(erc20.allowance(owner, spender), 0);
    assert_eq!(erc20.balance_of(owner), 999_999_900);
    assert_eq!(erc20.balance_of(target), 100);
    assert_eq!(erc20.balance_of(spender), 0);
    assert_eq!(
        erc20.transfer_from(spender, owner, target, 1),
        Err(ERC20Errors::InsufficientAllowance(InsufficientAllowance { spender, amount: 0 }))
    );
    assert_eq!(erc20.balance_of(owner), 999_999_900);
    assert_eq!(
        erc20.events(),
        &vec![
            Event::Approval { owner, spender, value: 100 },
            Event::Transfer { from: owner, to: target, value: 100 },
        ]
    );
}

#[test]
fn transfer_from_checks_allowance_before_balance() {
    let (mut erc20, owner) = create_erc20_instance();
    let poor = addr(3);
    let spender = addr(4);
    assert_eq!(erc20.transfer(owner, poor, 10), Ok(true));
    assert_eq!(erc20.approve(poor, spender, 10), Ok(true));
    assert_eq!(erc20.transfer(poor, owner, 5), Ok(true));
    // allowance 10 covers 8, the balance 5 does not
    assert_eq!(
        erc20.transfer_from(spender, poor, owner, 8),
        Err(ERC20Errors::InsufficientBalance(InsufficientBalance { account: poor, amount: 8 }))
    );
    // both fall short: the allowance is reported
    assert_eq!(
        erc20.transfer_from(spender, poor, owner, 11),
        Err(ERC20Errors::InsufficientAllowance(InsufficientAllowance { spender, amount: 10 }))
    );
    assert_eq!(erc20.allowance(poor, spender), 10);
    assert_eq!(erc20.balance_of(poor), 5);
}

#[test]
fn transfer_from_partial_lowers_allowance() {
    let (mut erc20, owner) = create_erc20_instance();
    let spender = addr(5);
    let to = addr(6);
    assert_eq!(erc20.approve(owner, spender, 50), Ok(true));
    assert_eq!(erc20.transfer_from(spender, owner, to, 20), Ok(true));
    assert_eq!(erc20.allowance(owner, spender), 30);
    assert_eq!(erc20.balance_of(owner), 999_999_980);
    assert_eq!(erc20.balance_of(to), 20);
}

#[test]
fn approve_overwrites_instead_of_adding() {
    let (mut erc20, owner) = create_erc20_instance();
    let spender = addr(9);
    assert_eq!(erc20.approve(owner, spender, 70), Ok(true));
    assert_eq!(erc20.approve(owner, spender, 30), Ok(true));
    assert_eq!(erc20.allowance(owner, spender), 30);
}

#[test]
fn approve_beyond_balance_fails() {
    let (mut erc20, owner) = create_erc20_instance();
    let holder = addr(10);
    let spender = addr(11);
    assert_eq!(erc20.transfer(owner, holder, 5), Ok(true));
    assert_eq!(
        erc20.approve(holder, spender, 6),
        Err(ERC20Errors::InsufficientBalance(InsufficientBalance { account: holder, amount: 6 }))
    );
    assert_eq!(erc20.allowance(holder, spender), 0);
    assert_eq!(erc20.approve(holder, spender, 5), Ok(true));
    assert_eq!(erc20.allowance(holder, spender), 5);
}

#[test]
fn reads_repeat_without_change() {
    let (mut erc20, owner) = create_erc20_instance();
    let other = addr(12);
    assert_eq!(erc20.transfer(owner, other, 42), Ok(true));
    assert_eq!(erc20.approve(owner, other, 3), Ok(true));
    for _ in 0..3 {
        assert_eq!(erc20.balance_of(owner), 999_999_958);
        assert_eq!(erc20.balance_of(other), 42);
        assert_eq!(erc20.allowance(owner, other), 3);
        assert_eq!(erc20.allowance(other, owner), 0);
        assert_eq!(erc20.total_supply(), 1_000_000_000);
        assert_eq!(erc20.name(), "Stylus");
        assert_eq!(erc20.symbol(), "STY");
        assert_eq!(erc20.decimals(), 18);
    }
}

#[test]
fn supply_is_conserved_over_many_steps() {
    let (mut erc20, owner) = create_erc20_instance();
    let a = addr(20);
    let b = addr(21);
    let c = addr(22);
    assert_eq!(erc20.transfer(owner, a, 1_000), Ok(true));
    assert_eq!(erc20.transfer(a, b, 400), Ok(true));
    assert_eq!(erc20.approve(b, c, 300), Ok(true));
    assert_eq!(erc20.transfer_from(c, b, a, 250), Ok(true));
    assert!(erc20.transfer(b, c, 1_000).is_err());
    let sum = erc20.balance_of(owner)
        + erc20.balance_of(a)
        + erc20.balance_of(b)
        + erc20.balance_of(c);
    assert_eq!(sum, erc20.total_supply());
    assert_eq!(erc20.balance_of(a), 850);
    assert_eq!(erc20.balance_of(b), 150);
}

#[test]
fn self_transfer_keeps_balance() {
    let (mut erc20, owner) = create_erc20_instance();
    assert_eq!(erc20.transfer(owner, owner, 100), Ok(true));
    assert_eq!(erc20.balance_of(owner), 1_000_000_000);
    assert_eq!(
        erc20.transfer(owner, owner, 1_000_000_001),
        Err(ERC20Errors::InsufficientBalance(InsufficientBalance {
            account: owner,
            amount: 1_000_000_001
        }))
    );
}

#[test]
fn zero_value_transfer_succeeds() {
    let (mut erc20, _owner) = create_erc20_instance();
    let fresh = addr(30);
    assert_eq!(erc20.transfer(fresh, Address::zero(), 0), Ok(true));
    assert_eq!(erc20.balance_of(Address::zero()), 0);
    assert_eq!(erc20.events().len(), 1);
}

#[test]
fn second_init_is_rejected() {
    let (mut erc20, owner) = create_erc20_instance();
    let other = addr(40);
    assert_eq!(
        erc20.init(other, "Other".to_string(), "OTH".to_string(), 5),
        Err(ERC20Errors::AlreadyInitialized(AlreadyInitialized {}))
    );
    assert_eq!(erc20.name(), "Stylus");
    assert_eq!(erc20.owner(), owner);
    assert_eq!(erc20.total_supply(), 1_000_000_000);
    assert_eq!(erc20.balance_of(other), 0);
}

#[test]
fn largest_supply_moves_whole() {
    let mut erc20 = ERC20::new();
    let d = deployer();
    let to = addr(50);
    assert_eq!(erc20.init(d, String::new(), String::new(), u128::MAX), Ok(true));
    assert_eq!(erc20.transfer(d, to, u128::MAX), Ok(true));
    assert_eq!(erc20.balance_of(to), u128::MAX);
    assert_eq!(erc20.balance_of(d), 0);
}

#[test]
fn fresh_ledger_is_empty() {
    let erc20 = ERC20::new();
    assert_eq!(erc20.total_supply(), 0);
    assert_eq!(erc20.name(), "");
    assert_eq!(erc20.owner(), Address::zero());
    assert_eq!(erc20.balance_of(deployer()), 0);
}

#[test]
fn rule_functions() {
    assert!(check_balance(5, 5));
    assert!(!check_balance(4, 5));
    assert!(check_allowance(9, 0));
    assert!(!check_allowance(0, 1));
    let a = addr(1);
    let b = addr(2);
    assert_eq!(transfer_balances(a, b, 10, 3, 4), Ok((6, 7)));
    assert_eq!(transfer_balances(a, a, 10, 10, 4), Ok((10, 10)));
    assert_eq!(
        transfer_balances(a, b, 3, 0, 4),
        Err(ERC20Errors::InsufficientBalance(InsufficientBalance { account: a, amount: 4 }))
    );
    assert_eq!(spend_allowance(b, 10, 4), Ok(6));
    assert_eq!(
        spend_allowance(b, 3, 4),
        Err(ERC20Errors::InsufficientAllowance(InsufficientAllowance { spender: b, amount: 3 }))
    );
}

#[test]
fn address_parts() {
    let a = Address::new(1, 2);
    assert_eq!(a.hi, 1);
    assert_eq!(a.lo, 2);
    assert!(!a.is_zero());
    assert!(Address::zero().is_zero());
}
