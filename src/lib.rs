//! A fungible-token ledger: balances, allowances and a total supply, with
//! checked 256-bit arithmetic and all-or-nothing state transitions.

pub mod amount;
pub mod address;
pub mod table;
pub mod erc20;
pub mod token;
