//! A fungible token whose supply only its owner can change.
//!
//! `Erc20` is the ledger: total supply, balances and allowances. `Ownable`
//! keeps the one account that may do privileged work. `OwnedToken` holds one
//! of each and lets only the owner mint and burn. Every operation takes the
//! calling account as an argument, changes the state all at once or not at
//! all, and returns the events that it recorded or the reason why it was
//! refused.
//!
//! Amounts are 256-bit numbers whose arithmetic is odra's. All else is
//! verified: that the total supply is always the sum of the balances, that
//! no balance or allowance wraps around, and that a refused call leaves no
//! trace.

pub mod address;
pub mod balance_checker;
pub mod erc20;
pub mod error;
pub mod ledger;
pub mod mapping;
pub mod ownable;
pub mod owned_token;
pub mod u256;

pub use address::Address;
pub use balance_checker::BalanceChecker;
pub use erc20::Erc20;
pub use error::Error;
pub use ownable::Ownable;
pub use owned_token::OwnedToken;
pub use u256::U256;
