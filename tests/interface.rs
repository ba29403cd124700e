use stylus_erc20::address::Address;
use stylus_erc20::erc20::ERC20;
use stylus_erc20::errors::{ERC20Errors, InsufficientBalance};
use stylus_erc20::ierc20::IERC20;

fn pay<T: IERC20>(token: &mut T, from: Address, to: Address, value: u128) -> bool {
    token.transfer(from, to, value).is_ok()
}

#[test]
fn steps_through_the_interface() {
    let d = Address::new(3, 4);
    let a = Address::new(0, 5);
    let s = Address::new(0, 6);
    let mut token = ERC20::new();
    assert_eq!(token.init(d, "Stylus".to_string(), "STY".to_string(), 500), Ok(true));
    assert!(pay(&mut token, d, a, 200));
    assert!(!pay(&mut token, a, d, 201));
    assert_eq!(IERC20::balance_of(&token, d), 300);
    assert_eq!(IERC20::balance_of(&token, a), 200);
    assert_eq!(IERC20::approve(&mut token, a, s, 150), Ok(true));
    assert_eq!(IERC20::transfer_from(&mut token, s, a, d, 150), Ok(true));
    assert_eq!(IERC20::allowance(&token, a, s), 0);
    assert_eq!(IERC20::balance_of(&token, a), 50);
    assert_eq!(IERC20::total_supply(&token), 500);
    assert_eq!(IERC20::decimals(&token), 18);
    assert_eq!(IERC20::name(&token), "Stylus");
    assert_eq!(IERC20::symbol(&token), "STY");
    assert_eq!(
        IERC20::approve(&mut token, a, s, 51),
        Err(ERC20Errors::InsufficientBalance(InsufficientBalance { account: a, amount: 51 }))
    );
}
