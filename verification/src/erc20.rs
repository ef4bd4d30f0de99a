use crate::address::Address;
use crate::error::Error;
use crate::ledger::{
    address_count, lemma_balance_within_sum, lemma_sum_after_insert, lemma_sum_of_zeros,
    AllowanceKey, Call, Ledger,
};
use crate::mapping::Mapping;
use crate::u256::{less_than, U256};
use vstd::prelude::*;

verus! {

/// The record of tokens that moved. A transfer without `from` created the
/// tokens, one without `to` destroyed them.
#[derive(Clone, Copy, Debug, PartialEq, Eq)]
pub struct Transfer {
    pub from: Option<Address>,
    pub to: Option<Address>,
    pub amount: U256,
}

/// The record of an allowance that was set. `value` is the allowance after
/// the operation, not the change.
#[derive(Clone, Copy, Debug, PartialEq, Eq)]
pub struct Approval {
    pub owner: Address,
    pub spender: Address,
    pub value: U256,
}

/// The token ledger: total supply, balances and allowances, with the
/// token's name, symbol and number of decimals.
pub struct Erc20 {
    decimals: u8,
    symbol: String,
    name: String,
    total_supply: U256,
    balances: Mapping<Address>,
    allowances: Mapping<AllowanceKey>,
}

impl View for Erc20 {
    type V = Ledger;

    closed spec fn view(&self) -> Ledger {
        Ledger {
            name: self.name@,
            symbol: self.symbol@,
            decimals: self.decimals,
            total_supply: self.total_supply@,
            balances: self.balances@,
            allowances: self.allowances@,
        }
    }
}

impl Erc20 {
    /// What every ledger keeps: the total supply is the sum of all balances.
    pub open spec fn wf(&self) -> bool {
        self@.conserved()
    }

    /// A ledger without tokens, name or symbol.
    pub fn new() -> (ledger: Erc20)
        ensures
            ledger.wf(),
            ledger@.name == Seq::<char>::empty(),
            ledger@.symbol == Seq::<char>::empty(),
            ledger@.decimals == 0,
            ledger@.total_supply == 0,
            forall|address: Address| ledger@.balance_of(address) == 0,
            forall|owner: Address, spender: Address| ledger@.allowance(owner, spender) == 0,
    {
        let ledger = Erc20 {
            decimals: 0,
            symbol: String::new(),
            name: String::new(),
            total_supply: U256::zero(),
            balances: Mapping::new(),
            allowances: Mapping::new(),
        };
        proof {
            lemma_sum_of_zeros(ledger@.balances, address_count());
        }
        ledger
    }

    /// Describes the token and gives `initial_supply` new tokens to the
    /// caller. Refused, with nothing changed, where the total supply would
    /// exceed 2^256 - 1.
    pub fn init(
        &mut self,
        caller: Address,
        name: String,
        symbol: String,
        decimals: u8,
        initial_supply: U256,
    ) -> (r: Result<Transfer, Error>)
        requires
            old(self).wf(),
        ensures
            final(self).wf(),
            old(self)@.total_supply + initial_supply@ > U256::spec_max() ==> {
                &&& r === Err(Error::ArithmeticOverflow)
                &&& *final(self) == *old(self)
            },
            old(self)@.total_supply + initial_supply@ <= U256::spec_max() ==> {
                &&& r === Ok(Transfer { from: None, to: Some(caller), amount: initial_supply })
                &&& final(self)@ == old(self)@.minted(caller, initial_supply@).described(
                    name@,
                    symbol@,
                    decimals,
                )
            },
    {
        // The tokens go first: where they are refused, nothing was written yet.
        let transfer = match self.mint(caller, initial_supply) {
            Ok(transfer) => transfer,
            Err(error) => {
                return Err(error);
            },
        };
        self.name = name;
        self.symbol = symbol;
        self.decimals = decimals;
        Ok(transfer)
    }

    /// Moves `amount` from the caller to the recipient. Refused, with
    /// nothing changed, where the caller's balance is smaller.
    pub fn transfer(&mut self, caller: Address, recipient: Address, amount: U256) -> (r: Result<
        Transfer,
        Error,
    >)
        requires
            old(self).wf(),
        ensures
            final(self).wf(),
            amount@ > old(self)@.balance_of(caller) ==> {
                &&& r === Err(Error::InsufficientBalance)
                &&& *final(self) == *old(self)
            },
            amount@ <= old(self)@.balance_of(caller) ==> {
                &&& r === Ok(Transfer { from: Some(caller), to: Some(recipient), amount })
                &&& final(self)@ == old(self)@.moved(caller, recipient, amount@)
            },
            final(self)@ == old(self)@.after(Call::Transfer { caller, recipient, amount: amount@ }),
    {
        self.raw_transfer(caller, recipient, amount)
    }

    /// Moves `amount` from the owner to the recipient, on the allowance
    /// that the owner gave the caller, which shrinks by `amount`. Refused,
    /// with nothing changed, where the allowance or the owner's balance is
    /// smaller than `amount`.
    pub fn transfer_from(
        &mut self,
        caller: Address,
        owner: Address,
        recipient: Address,
        amount: U256,
    ) -> (r: Result<(Approval, Transfer), Error>)
        requires
            old(self).wf(),
        ensures
            final(self).wf(),
            amount@ > old(self)@.allowance(owner, caller) ==> {
                &&& r === Err(Error::InsufficientAllowance)
                &&& *final(self) == *old(self)
            },
            amount@ <= old(self)@.allowance(owner, caller)
                && amount@ > old(self)@.balance_of(owner) ==> {
                &&& r === Err(Error::InsufficientBalance)
                &&& *final(self) == *old(self)
            },
            amount@ <= old(self)@.allowance(owner, caller)
                && amount@ <= old(self)@.balance_of(owner) ==> {
                &&& r matches Ok((approval, transfer))
                &&& approval.owner == owner
                &&& approval.spender == caller
                &&& approval.value@ == old(self)@.allowance(owner, caller) - amount@
                &&& transfer == (Transfer { from: Some(owner), to: Some(recipient), amount })
                &&& final(self)@ == old(self)@.spent(owner, caller, amount@).moved(
                    owner,
                    recipient,
                    amount@,
                )
                &&& final(self)@.allowance(owner, caller) == old(self)@.allowance(owner, caller)
                    - amount@
            },
            final(self)@ == old(self)@.after(
                Call::TransferFrom { caller, owner, recipient, amount: amount@ },
            ),
    {
        // Both are tested before either is written: a refusal leaves no trace.
        if less_than(self.allowance(owner, caller), amount) {
            return Err(Error::InsufficientAllowance);
        }
        if less_than(self.balance_of(owner), amount) {
            return Err(Error::InsufficientBalance);
        }
        let approval = self.spend_allowance(owner, caller, amount).unwrap();
        let transfer = self.raw_transfer(owner, recipient, amount).unwrap();
        Ok((approval, transfer))
    }

    /// Sets what the spender may move out of the caller's balance to
    /// `amount`, whatever it was before.
    pub fn approve(&mut self, caller: Address, spender: Address, amount: U256) -> (approval:
        Approval)
        requires
            old(self).wf(),
        ensures
            final(self).wf(),
            approval == (Approval { owner: caller, spender, value: amount }),
            final(self)@ == old(self)@.approved(caller, spender, amount@),
            final(self)@.allowance(caller, spender) == amount@,
            final(self)@ == old(self)@.after(Call::Approve { caller, spender, amount: amount@ }),
    {
        self.allowances.set(&AllowanceKey { owner: caller, spender }, amount);
        Approval { owner: caller, spender, value: amount }
    }

    /// The token's name, empty until `init`.
    pub fn name(&self) -> (name: String)
        ensures
            name@ == self@.name,
    {
        self.name.clone()
    }

    /// The token's symbol, empty until `init`.
    pub fn symbol(&self) -> (symbol: String)
        ensures
            symbol@ == self@.symbol,
    {
        self.symbol.clone()
    }

    /// The number of decimals that amounts are shown with.
    pub fn decimals(&self) -> (decimals: u8)
        ensures
            decimals == self@.decimals,
    {
        self.decimals
    }

    /// The number of tokens that exist.
    pub fn total_supply(&self) -> (supply: U256)
        ensures
            supply@ == self@.total_supply,
    {
        self.total_supply
    }

    /// The balance of an account, zero for one that never held tokens.
    pub fn balance_of(&self, address: Address) -> (balance: U256)
        ensures
            balance@ == self@.balance_of(address),
    {
        self.balances.get_or_default(&address)
    }

    /// What the spender may still move out of the owner's balance, zero
    /// where the owner never approved the spender.
    pub fn allowance(&self, owner: Address, spender: Address) -> (allowance: U256)
        ensures
            allowance@ == self@.allowance(owner, spender),
    {
        self.allowances.get_or_default(&AllowanceKey { owner, spender })
    }

    /// Moves `amount` from the owner's balance to the recipient's.
    fn raw_transfer(&mut self, owner: Address, recipient: Address, amount: U256) -> (r: Result<
        Transfer,
        Error,
    >)
        requires
            old(self).wf(),
        ensures
            final(self).wf(),
            amount@ > old(self)@.balance_of(owner) ==> {
                &&& r === Err(Error::InsufficientBalance)
                &&& *final(self) == *old(self)
            },
            amount@ <= old(self)@.balance_of(owner) ==> {
                &&& r === Ok(Transfer { from: Some(owner), to: Some(recipient), amount })
                &&& final(self)@ == old(self)@.moved(owner, recipient, amount@)
            },
    {
        let owner_balance = self.balances.get_or_default(&owner);
        if less_than(owner_balance, amount) {
            return Err(Error::InsufficientBalance);
        }
        let remaining = owner_balance.checked_sub(amount).unwrap();
        self.balances.set(&owner, remaining);
        proof {
            // What the recipient holds now and `amount` are both part of
            // the total supply, so their sum fits.
            let debited = old(self)@.balances.insert(owner, remaining@);
            lemma_sum_after_insert(old(self)@.balances, owner, remaining@, address_count());
            lemma_balance_within_sum(debited, recipient, address_count());
            self.total_supply.lemma_bounded();
        }
        self.balances.add(&recipient, amount).unwrap();
        proof {
            old(self)@.lemma_moved_sum(owner, recipient, amount@);
            if owner == recipient {
                old(self).balances.lemma_every_key_is_held(owner);
            }
            assert(self@.balances =~= old(self)@.moved(owner, recipient, amount@).balances);
        }
        Ok(Transfer { from: Some(owner), to: Some(recipient), amount })
    }

    /// Takes `amount` off what the spender may move out of the owner's
    /// balance.
    fn spend_allowance(&mut self, owner: Address, spender: Address, amount: U256) -> (r: Result<
        Approval,
        Error,
    >)
        requires
            old(self).wf(),
        ensures
            final(self).wf(),
            amount@ > old(self)@.allowance(owner, spender) ==> {
                &&& r === Err(Error::InsufficientAllowance)
                &&& *final(self) == *old(self)
            },
            amount@ <= old(self)@.allowance(owner, spender) ==> {
                &&& r matches Ok(approval)
                &&& approval.owner == owner
                &&& approval.spender == spender
                &&& approval.value@ == old(self)@.allowance(owner, spender) - amount@
                &&& final(self)@ == old(self)@.spent(owner, spender, amount@)
            },
    {
        let key = AllowanceKey { owner, spender };
        let allowance = self.allowances.get_or_default(&key);
        if less_than(allowance, amount) {
            return Err(Error::InsufficientAllowance);
        }
        let remaining = allowance.checked_sub(amount).unwrap();
        self.allowances.set(&key, remaining);
        Ok(Approval { owner, spender, value: remaining })
    }

    /// Gives `amount` new tokens to an account, whoever asks. Refused, with
    /// nothing changed, where the total supply would exceed 2^256 - 1.
    pub fn mint(&mut self, address: Address, amount: U256) -> (r: Result<Transfer, Error>)
        requires
            old(self).wf(),
        ensures
            final(self).wf(),
            old(self)@.total_supply + amount@ > U256::spec_max() ==> {
                &&& r === Err(Error::ArithmeticOverflow)
                &&& *final(self) == *old(self)
            },
            old(self)@.total_supply + amount@ <= U256::spec_max() ==> {
                &&& r === Ok(Transfer { from: None, to: Some(address), amount })
                &&& final(self)@ == old(self)@.minted(address, amount@)
            },
            final(self)@ == old(self)@.after(Call::Mint { address, amount: amount@ }),
    {
        let supply = match self.total_supply.checked_add(amount) {
            Some(supply) => supply,
            None => {
                return Err(Error::ArithmeticOverflow);
            },
        };
        proof {
            // The balance is part of the total supply, so it grows within
            // bounds where the total supply does.
            self@.lemma_balances_within_supply(address, address);
            self@.lemma_minted_burned_sum(address, amount@);
        }
        self.balances.add(&address, amount).unwrap();
        self.total_supply = supply;
        Ok(Transfer { from: None, to: Some(address), amount })
    }

    /// Destroys `amount` tokens of an account, whoever asks. Refused, with
    /// nothing changed, where the account's balance is smaller.
    pub fn burn(&mut self, address: Address, amount: U256) -> (r: Result<Transfer, Error>)
        requires
            old(self).wf(),
        ensures
            final(self).wf(),
            amount@ > old(self)@.balance_of(address) ==> {
                &&& r === Err(Error::ArithmeticUnderflow)
                &&& *final(self) == *old(self)
            },
            amount@ <= old(self)@.balance_of(address) ==> {
                &&& r === Ok(Transfer { from: Some(address), to: None, amount })
                &&& final(self)@ == old(self)@.burned(address, amount@)
            },
            final(self)@ == old(self)@.after(Call::Burn { address, amount: amount@ }),
    {
        proof {
            // The balance is part of the total supply: what the balance
            // covers, the total supply covers too.
            self@.lemma_balances_within_supply(address, address);
            self@.lemma_minted_burned_sum(address, amount@);
        }
        match self.balances.subtract(&address, amount) {
            Ok(()) => {},
            Err(error) => {
                return Err(error);
            },
        }
        self.total_supply = self.total_supply.checked_sub(amount).unwrap();
        Ok(Transfer { from: Some(address), to: None, amount })
    }
}

} // verus!
