use crate::address::Address;
use crate::erc20::{Approval, Erc20, Transfer};
use crate::error::Error;
use crate::ledger::Ledger;
use crate::ownable::{after_change, change_result, Ownable, OwnershipChanged};
use crate::u256::U256;
use vstd::prelude::*;

verus! {

/// What an owned token holds: its owner and its ledger.
pub struct Token {
    pub owner: Option<Address>,
    pub ledger: Ledger,
}

/// A token whose supply only its owner can change: a ledger together with
/// the account that owns it.
pub struct OwnedToken {
    ownable: Ownable,
    erc20: Erc20,
}

impl View for OwnedToken {
    type V = Token;

    closed spec fn view(&self) -> Token {
        Token { owner: self.ownable@, ledger: self.erc20@ }
    }
}

impl OwnedToken {
    /// What every token keeps: the total supply is the sum of all balances.
    pub open spec fn wf(&self) -> bool {
        self@.ledger.conserved()
    }

    /// A token without owner, tokens, name or symbol.
    pub fn new() -> (token: OwnedToken)
        ensures
            token.wf(),
            token@.owner is None,
            token@.ledger.name == Seq::<char>::empty(),
            token@.ledger.symbol == Seq::<char>::empty(),
            token@.ledger.decimals == 0,
            token@.ledger.total_supply == 0,
            forall|address: Address| token@.ledger.balance_of(address) == 0,
            forall|owner: Address, spender: Address| token@.ledger.allowance(owner, spender) == 0,
    {
        OwnedToken { ownable: Ownable::new(), erc20: Erc20::new() }
    }

    /// Makes the caller the owner, describes the token and gives
    /// `initial_supply` new tokens to the caller. Refused, with nothing
    /// changed, where an owner was set before or the total supply would
    /// exceed 2^256 - 1.
    pub fn init(
        &mut self,
        caller: Address,
        name: String,
        symbol: String,
        decimals: u8,
        initial_supply: U256,
    ) -> (r: Result<(OwnershipChanged, Transfer), Error>)
        requires
            old(self).wf(),
        ensures
            final(self).wf(),
            old(self)@.owner is Some ==> {
                &&& r === Err(Error::OwnerAlreadyInitialized)
                &&& *final(self) == *old(self)
            },
            old(self)@.owner is None && old(self)@.ledger.total_supply + initial_supply@
                > U256::spec_max() ==> {
                &&& r === Err(Error::ArithmeticOverflow)
                &&& *final(self) == *old(self)
            },
            old(self)@.owner is None && old(self)@.ledger.total_supply + initial_supply@
                <= U256::spec_max() ==> {
                &&& r === Ok(
                    (
                        OwnershipChanged { prev_owner: None, new_owner: caller },
                        Transfer { from: None, to: Some(caller), amount: initial_supply },
                    ),
                )
                &&& final(self)@.owner == Some(caller)
                &&& final(self)@.ledger == old(self)@.ledger.minted(
                    caller,
                    initial_supply@,
                ).described(name@, symbol@, decimals)
            },
    {
        if self.ownable.get_owner().is_ok() {
            return Err(Error::OwnerAlreadyInitialized);
        }
        // The ledger goes first: where it refuses, nothing was written yet.
        let transfer = match self.erc20.init(caller, name, symbol, decimals, initial_supply) {
            Ok(transfer) => transfer,
            Err(error) => {
                return Err(error);
            },
        };
        let changed = self.ownable.init(caller).unwrap();
        Ok((changed, transfer))
    }

    /// The token's name.
    pub fn name(&self) -> (name: String)
        ensures
            name@ == self@.ledger.name,
    {
        self.erc20.name()
    }

    /// The token's symbol.
    pub fn symbol(&self) -> (symbol: String)
        ensures
            symbol@ == self@.ledger.symbol,
    {
        self.erc20.symbol()
    }

    /// The number of decimals that amounts are shown with.
    pub fn decimals(&self) -> (decimals: u8)
        ensures
            decimals == self@.ledger.decimals,
    {
        self.erc20.decimals()
    }

    /// The number of tokens that exist.
    pub fn total_supply(&self) -> (supply: U256)
        ensures
            supply@ == self@.ledger.total_supply,
    {
        self.erc20.total_supply()
    }

    /// The balance of an account.
    pub fn balance_of(&self, address: Address) -> (balance: U256)
        ensures
            balance@ == self@.ledger.balance_of(address),
    {
        self.erc20.balance_of(address)
    }

    /// What the spender may still move out of the owner's balance.
    pub fn allowance(&self, owner: Address, spender: Address) -> (allowance: U256)
        ensures
            allowance@ == self@.ledger.allowance(owner, spender),
    {
        self.erc20.allowance(owner, spender)
    }

    /// Moves `amount` from the caller to the recipient. Refused, with
    /// nothing changed, where the caller's balance is smaller.
    pub fn transfer(&mut self, caller: Address, recipient: Address, amount: U256) -> (r: Result<
        Transfer,
        Error,
    >)
        requires
            old(self).wf(),
        ensures
            final(self).wf(),
            final(self)@.owner == old(self)@.owner,
            amount@ > old(self)@.ledger.balance_of(caller) ==> {
                &&& r === Err(Error::InsufficientBalance)
                &&& *final(self) == *old(self)
            },
            amount@ <= old(self)@.ledger.balance_of(caller) ==> {
                &&& r === Ok(Transfer { from: Some(caller), to: Some(recipient), amount })
                &&& final(self)@.ledger == old(self)@.ledger.moved(caller, recipient, amount@)
            },
    {
        self.erc20.transfer(caller, recipient, amount)
    }

    /// Moves `amount` from the owner of a balance to the recipient, on the
    /// allowance that this owner gave the caller, which shrinks by
    /// `amount`. Refused, with nothing changed, where the allowance or the
    /// balance is smaller than `amount`.
    pub fn transfer_from(
        &mut self,
        caller: Address,
        owner: Address,
        recipient: Address,
        amount: U256,
    ) -> (r: Result<(Approval, Transfer), Error>)
        requires
            old(self).wf(),
        ensures
            final(self).wf(),
            final(self)@.owner == old(self)@.owner,
            amount@ > old(self)@.ledger.allowance(owner, caller) ==> {
                &&& r === Err(Error::InsufficientAllowance)
                &&& *final(self) == *old(self)
            },
            amount@ <= old(self)@.ledger.allowance(owner, caller)
                && amount@ > old(self)@.ledger.balance_of(owner) ==> {
                &&& r === Err(Error::InsufficientBalance)
                &&& *final(self) == *old(self)
            },
            amount@ <= old(self)@.ledger.allowance(owner, caller)
                && amount@ <= old(self)@.ledger.balance_of(owner) ==> {
                &&& r matches Ok((approval, transfer))
                &&& approval.owner == owner
                &&& approval.spender == caller
                &&& approval.value@ == old(self)@.ledger.allowance(owner, caller) - amount@
                &&& transfer == (Transfer { from: Some(owner), to: Some(recipient), amount })
                &&& final(self)@.ledger == old(self)@.ledger.spent(owner, caller, amount@).moved(
                    owner,
                    recipient,
                    amount@,
                )
                &&& final(self)@.ledger.allowance(owner, caller) == old(self)@.ledger.allowance(
                    owner,
                    caller,
                ) - amount@
            },
    {
        self.erc20.transfer_from(caller, owner, recipient, amount)
    }

    /// Sets what the spender may move out of the caller's balance to
    /// `amount`, whatever it was before.
    pub fn approve(&mut self, caller: Address, spender: Address, amount: U256) -> (approval:
        Approval)
        requires
            old(self).wf(),
        ensures
            final(self).wf(),
            final(self)@.owner == old(self)@.owner,
            approval == (Approval { owner: caller, spender, value: amount }),
            final(self)@.ledger == old(self)@.ledger.approved(caller, spender, amount@),
            final(self)@.ledger.allowance(caller, spender) == amount@,
    {
        self.erc20.approve(caller, spender, amount)
    }

    /// The owner of the token. Refused where none was set.
    pub fn get_owner(&self) -> (r: Result<Address, Error>)
        ensures
            match self@.owner {
                Some(owner) => r === Ok(owner),
                None => r === Err(Error::OwnerNotInitialized),
            },
    {
        self.ownable.get_owner()
    }

    /// Hands ownership to `new_owner`. Refused, with nothing changed, where
    /// the caller is not the owner.
    pub fn change_ownership(&mut self, caller: Address, new_owner: Address) -> (r: Result<
        OwnershipChanged,
        Error,
    >)
        ensures
            r == change_result(old(self)@.owner, caller, new_owner),
            final(self)@.owner == after_change(old(self)@.owner, caller, new_owner),
            final(self)@.ledger == old(self)@.ledger,
            r is Err ==> *final(self) == *old(self),
    {
        self.ownable.change_ownership(caller, new_owner)
    }

    /// Gives `amount` new tokens to an account. Refused, with nothing
    /// changed, where the caller is not the owner or the total supply would
    /// exceed 2^256 - 1.
    pub fn mint(&mut self, caller: Address, address: Address, amount: U256) -> (r: Result<
        Transfer,
        Error,
    >)
        requires
            old(self).wf(),
        ensures
            final(self).wf(),
            final(self)@.owner == old(self)@.owner,
            old(self)@.owner != Some(caller) ==> {
                &&& r === Err(Error::NotOwner)
                &&& *final(self) == *old(self)
            },
            old(self)@.owner == Some(caller) && old(self)@.ledger.total_supply + amount@
                > U256::spec_max() ==> {
                &&& r === Err(Error::ArithmeticOverflow)
                &&& *final(self) == *old(self)
            },
            old(self)@.owner == Some(caller) && old(self)@.ledger.total_supply + amount@
                <= U256::spec_max() ==> {
                &&& r === Ok(Transfer { from: None, to: Some(address), amount })
                &&& final(self)@.ledger == old(self)@.ledger.minted(address, amount@)
            },
    {
        match self.ownable.ensure_ownership(caller) {
            Ok(()) => {},
            Err(error) => {
                return Err(error);
            },
        }
        self.erc20.mint(address, amount)
    }

    /// Destroys `amount` tokens of an account. Refused, with nothing
    /// changed, where the caller is not the owner or the account's balance
    /// is smaller.
    pub fn burn(&mut self, caller: Address, address: Address, amount: U256) -> (r: Result<
        Transfer,
        Error,
    >)
        requires
            old(self).wf(),
        ensures
            final(self).wf(),
            final(self)@.owner == old(self)@.owner,
            old(self)@.owner != Some(caller) ==> {
                &&& r === Err(Error::NotOwner)
                &&& *final(self) == *old(self)
            },
            old(self)@.owner == Some(caller) && amount@ > old(self)@.ledger.balance_of(address)
                ==> {
                &&& r === Err(Error::ArithmeticUnderflow)
                &&& *final(self) == *old(self)
            },
            old(self)@.owner == Some(caller) && amount@ <= old(self)@.ledger.balance_of(address)
                ==> {
                &&& r === Ok(Transfer { from: Some(address), to: None, amount })
                &&& final(self)@.ledger == old(self)@.ledger.burned(address, amount@)
            },
    {
        match self.ownable.ensure_ownership(caller) {
            Ok(()) => {},
            Err(error) => {
                return Err(error);
            },
        }
        self.erc20.burn(address, amount)
    }
}

} // verus!
