//! A fungible token ledger: balances, delegated allowances and a fixed
//! total supply, with transfer, approve and transfer-from as atomic steps.
//!
//! Every entry point takes the caller's address explicitly, validates all of
//! its preconditions before it writes anything, and either commits the whole
//! step or returns a typed error with the ledger left as it was.

pub mod address;
pub mod errors;
pub mod table;
pub mod rules;
pub mod erc20;
pub mod laws;
pub mod ierc20;
