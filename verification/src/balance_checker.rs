use crate::address::Address;
use crate::erc20::Erc20;
use crate::u256::U256;
use vstd::prelude::*;

verus! {

/// Reads balances out of a ledger that it is handed. It holds nothing
/// itself.
pub struct BalanceChecker {}

impl BalanceChecker {
    /// A balance checker.
    pub fn new() -> BalanceChecker {
        BalanceChecker {  }
    }

    /// The balance of `account` in the ledger `token`, zero for an account
    /// that never held tokens.
    pub fn check_balance(&self, token: &Erc20, account: Address) -> (balance: U256)
        ensures
            balance@ == token@.balance_of(account),
    {
        token.balance_of(account)
    }
}

} // verus!
