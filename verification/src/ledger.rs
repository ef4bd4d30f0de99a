use crate::address::Address;
use crate::mapping::Key;
use crate::u256::U256;
use vstd::prelude::*;

verus! {

/// The owner of a balance together with an account that may spend from it:
/// the key under which an allowance is kept.
#[derive(Clone, Copy, Debug, PartialEq, Eq, Hash, Structural)]
pub struct AllowanceKey {
    pub owner: Address,
    pub spender: Address,
}

impl Key for AllowanceKey {
    fn same(&self, other: &Self) -> (r: bool) {
        self.owner.id == other.owner.id && self.spender.id == other.spender.id
    }
}

/// One more than the largest account identifier.
pub open spec fn address_count() -> nat {
    0x1_0000_0000_0000_0000
}

/// The sum of the balances of the accounts whose identifier is below `n`.
pub open spec fn sum_below(balances: Map<Address, nat>, n: nat) -> nat
    decreases n,
{
    if n == 0 {
        0
    } else {
        sum_below(balances, (n - 1) as nat) + balances[Address { id: (n - 1) as u64 }]
    }
}

/// Setting one balance changes the sum by the change of that balance.
pub proof fn lemma_sum_after_insert(
    balances: Map<Address, nat>,
    account: Address,
    amount: nat,
    n: nat,
)
    requires
        n <= address_count(),
    ensures
        account.id < n ==> sum_below(balances.insert(account, amount), n) + balances[account]
            == sum_below(balances, n) + amount,
        account.id >= n ==> sum_below(balances.insert(account, amount), n) == sum_below(
            balances,
            n,
        ),
    decreases n,
{
    if n > 0 {
        lemma_sum_after_insert(balances, account, amount, (n - 1) as nat);
        let last = Address { id: (n - 1) as u64 };
        if account.id == n - 1 {
            assert(last == account);
        } else {
            assert(last != account);
        }
    }
}

/// No balance exceeds the sum of the balances.
pub proof fn lemma_balance_within_sum(balances: Map<Address, nat>, account: Address, n: nat)
    requires
        n <= address_count(),
        account.id < n,
    ensures
        balances[account] <= sum_below(balances, n),
    decreases n,
{
    if account.id == n - 1 {
        assert(Address { id: (n - 1) as u64 } == account);
    } else {
        lemma_balance_within_sum(balances, account, (n - 1) as nat);
    }
}

/// Where every balance is zero, so is the sum.
pub proof fn lemma_sum_of_zeros(balances: Map<Address, nat>, n: nat)
    requires
        forall|address: Address| balances[address] == 0,
    ensures
        sum_below(balances, n) == 0,
    decreases n,
{
    if n > 0 {
        lemma_sum_of_zeros(balances, (n - 1) as nat);
    }
}

/// A call that changes a ledger, with the account that makes it.
pub enum Call {
    /// The caller moves `amount` to the recipient.
    Transfer { caller: Address, recipient: Address, amount: nat },
    /// The caller moves `amount` from the owner to the recipient, on the
    /// allowance that the owner gave the caller.
    TransferFrom { caller: Address, owner: Address, recipient: Address, amount: nat },
    /// The caller lets the spender move up to `amount` out of the caller's
    /// balance.
    Approve { caller: Address, spender: Address, amount: nat },
    /// `amount` new tokens are given to an account.
    Mint { address: Address, amount: nat },
    /// `amount` tokens of an account are destroyed.
    Burn { address: Address, amount: nat },
}

/// What a ledger holds: its description, the total supply, the balance of
/// every account and the allowance of every owner for every spender. An
/// account that never held tokens has the balance zero, a spender that was
/// never approved the allowance zero.
pub struct Ledger {
    pub name: Seq<char>,
    pub symbol: Seq<char>,
    pub decimals: u8,
    pub total_supply: nat,
    pub balances: Map<Address, nat>,
    pub allowances: Map<AllowanceKey, nat>,
}

impl Ledger {
    /// The balance of an account.
    #[verifier::inline]
    pub open spec fn balance_of(self, address: Address) -> nat {
        self.balances[address]
    }

    /// What the spender may still move out of the owner's balance.
    #[verifier::inline]
    pub open spec fn allowance(self, owner: Address, spender: Address) -> nat {
        self.allowances[AllowanceKey { owner, spender }]
    }

    /// The sum of the balances of all accounts.
    pub open spec fn sum_of_balances(self) -> nat {
        sum_below(self.balances, address_count())
    }

    /// The total supply is the sum of all balances.
    pub open spec fn conserved(self) -> bool {
        self.total_supply == self.sum_of_balances()
    }

    /// The ledger after `amount` moved from one account to another: the one
    /// holds `amount` less and the other `amount` more. Where both are one
    /// account, nothing has changed.
    pub open spec fn moved(self, from: Address, to: Address, amount: nat) -> Ledger
        recommends
            amount <= self.balance_of(from),
    {
        if from == to {
            self
        } else {
            Ledger {
                balances: self.balances.insert(from, (self.balances[from] - amount) as nat).insert(
                    to,
                    self.balances[to] + amount,
                ),
                ..self
            }
        }
    }

    /// The ledger after the owner set the spender's allowance to `amount`.
    pub open spec fn approved(self, owner: Address, spender: Address, amount: nat) -> Ledger {
        Ledger {
            allowances: self.allowances.insert(AllowanceKey { owner, spender }, amount),
            ..self
        }
    }

    /// The ledger after the spender used `amount` of the allowance.
    pub open spec fn spent(self, owner: Address, spender: Address, amount: nat) -> Ledger
        recommends
            amount <= self.allowance(owner, spender),
    {
        self.approved(owner, spender, (self.allowance(owner, spender) - amount) as nat)
    }

    /// The ledger after `amount` new tokens were given to an account.
    pub open spec fn minted(self, address: Address, amount: nat) -> Ledger {
        Ledger {
            total_supply: self.total_supply + amount,
            balances: self.balances.insert(address, self.balances[address] + amount),
            ..self
        }
    }

    /// The ledger after `amount` tokens of an account were destroyed.
    pub open spec fn burned(self, address: Address, amount: nat) -> Ledger
        recommends
            amount <= self.balance_of(address),
    {
        Ledger {
            total_supply: (self.total_supply - amount) as nat,
            balances: self.balances.insert(address, (self.balances[address] - amount) as nat),
            ..self
        }
    }

    /// The ledger with another description.
    pub open spec fn described(self, name: Seq<char>, symbol: Seq<char>, decimals: u8) -> Ledger {
        Ledger { name, symbol, decimals, ..self }
    }

    /// The ledger after a call: changed as the call asks where the call is
    /// accepted, and as it was where the call is refused.
    pub open spec fn after(self, call: Call) -> Ledger {
        match call {
            Call::Transfer { caller, recipient, amount } => {
                if amount <= self.balance_of(caller) {
                    self.moved(caller, recipient, amount)
                } else {
                    self
                }
            },
            Call::TransferFrom { caller, owner, recipient, amount } => {
                if amount <= self.allowance(owner, caller) && amount <= self.balance_of(owner) {
                    self.spent(owner, caller, amount).moved(owner, recipient, amount)
                } else {
                    self
                }
            },
            Call::Approve { caller, spender, amount } => self.approved(caller, spender, amount),
            Call::Mint { address, amount } => {
                if self.total_supply + amount <= U256::spec_max() {
                    self.minted(address, amount)
                } else {
                    self
                }
            },
            Call::Burn { address, amount } => {
                if amount <= self.balance_of(address) {
                    self.burned(address, amount)
                } else {
                    self
                }
            },
        }
    }

    /// The ledger after a sequence of calls, made one after the other.
    pub open spec fn after_all(self, calls: Seq<Call>) -> Ledger
        decreases calls.len(),
    {
        if calls.len() == 0 {
            self
        } else {
            self.after_all(calls.drop_last()).after(calls.last())
        }
    }

    /// Moving tokens takes `amount` off the sender's balance, puts it on
    /// the recipient's, and touches nothing else: no other balance, no
    /// allowance, and not the total supply.
    pub proof fn lemma_moved(self, from: Address, to: Address, amount: nat, other: Address)
        requires
            amount <= self.balance_of(from),
        ensures
            from != to ==> self.moved(from, to, amount).balance_of(from) == self.balance_of(from)
                - amount,
            from != to ==> self.moved(from, to, amount).balance_of(to) == self.balance_of(to)
                + amount,
            from == to ==> self.moved(from, to, amount).balance_of(from) == self.balance_of(from),
            other != from && other != to ==> self.moved(from, to, amount).balance_of(other)
                == self.balance_of(other),
            self.moved(from, to, amount).total_supply == self.total_supply,
            self.moved(from, to, amount).allowances == self.allowances,
    {
    }

    /// Moving tokens leaves the sum of all balances as it was.
    pub proof fn lemma_moved_sum(self, from: Address, to: Address, amount: nat)
        requires
            amount <= self.balance_of(from),
        ensures
            self.moved(from, to, amount).sum_of_balances() == self.sum_of_balances(),
    {
        if from != to {
            let remaining = (self.balances[from] - amount) as nat;
            let debited = self.balances.insert(from, remaining);
            lemma_sum_after_insert(self.balances, from, remaining, address_count());
            lemma_sum_after_insert(debited, to, self.balances[to] + amount, address_count());
        }
    }

    /// Minting adds `amount` to the sum of all balances, burning takes it
    /// off.
    pub proof fn lemma_minted_burned_sum(self, address: Address, amount: nat)
        ensures
            self.minted(address, amount).sum_of_balances() == self.sum_of_balances() + amount,
            amount <= self.balance_of(address) ==> self.burned(address, amount).sum_of_balances()
                == self.sum_of_balances() - amount,
    {
        lemma_sum_after_insert(
            self.balances,
            address,
            self.balances[address] + amount,
            address_count(),
        );
        lemma_sum_after_insert(
            self.balances,
            address,
            (self.balances[address] - amount) as nat,
            address_count(),
        );
    }

    /// A balance is never larger than the total supply, and two accounts
    /// together never hold more than the total supply.
    pub proof fn lemma_balances_within_supply(self, first: Address, second: Address)
        requires
            self.conserved(),
        ensures
            self.balance_of(first) <= self.total_supply,
            first != second ==> self.balance_of(first) + self.balance_of(second)
                <= self.total_supply,
    {
        lemma_balance_within_sum(self.balances, first, address_count());
        if first != second {
            let without = self.balances.insert(first, 0);
            lemma_sum_after_insert(self.balances, first, 0, address_count());
            lemma_balance_within_sum(without, second, address_count());
        }
    }

    /// Whatever call is made, accepted or refused, the total supply is
    /// still the sum of all balances after it.
    pub proof fn lemma_call_conserves(self, call: Call)
        requires
            self.conserved(),
        ensures
            self.after(call).conserved(),
    {
        match call {
            Call::Transfer { caller, recipient, amount } => {
                if amount <= self.balance_of(caller) {
                    self.lemma_moved_sum(caller, recipient, amount);
                }
            },
            Call::TransferFrom { caller, owner, recipient, amount } => {
                if amount <= self.allowance(owner, caller) && amount <= self.balance_of(owner) {
                    self.spent(owner, caller, amount).lemma_moved_sum(owner, recipient, amount);
                }
            },
            Call::Approve { caller, spender, amount } => {},
            Call::Mint { address, amount } => {
                self.lemma_minted_burned_sum(address, amount);
            },
            Call::Burn { address, amount } => {
                if amount <= self.balance_of(address) {
                    self.lemma_minted_burned_sum(address, amount);
                    self.lemma_balances_within_supply(address, address);
                }
            },
        }
    }

    /// Conservation: after any sequence of calls the total supply is the
    /// sum of all balances, where it was so before the first.
    pub proof fn lemma_calls_conserve(self, calls: Seq<Call>)
        requires
            self.conserved(),
        ensures
            self.after_all(calls).conserved(),
        decreases calls.len(),
    {
        if calls.len() > 0 {
            self.lemma_calls_conserve(calls.drop_last());
            self.after_all(calls.drop_last()).lemma_call_conserves(calls.last());
        }
    }

    /// No balance falls below zero: a call that would take more from a
    /// balance than it holds is refused and changes nothing, and an
    /// accepted one takes off exactly what it names.
    pub proof fn lemma_no_balance_below_zero(self, call: Call)
        ensures
            match call {
                Call::Transfer { caller, recipient, amount } => {
                    &&& amount > self.balance_of(caller) ==> self.after(call) == self
                    &&& amount <= self.balance_of(caller) && caller != recipient ==> self.after(
                        call,
                    ).balance_of(caller) + amount == self.balance_of(caller)
                },
                Call::TransferFrom { caller, owner, recipient, amount } => {
                    &&& amount > self.balance_of(owner) ==> self.after(call) == self
                    &&& amount <= self.balance_of(owner) && amount <= self.allowance(owner, caller)
                        && owner != recipient ==> self.after(call).balance_of(owner) + amount
                        == self.balance_of(owner)
                },
                Call::Burn { address, amount } => {
                    &&& amount > self.balance_of(address) ==> self.after(call) == self
                    &&& amount <= self.balance_of(address) ==> self.after(call).balance_of(address)
                        + amount == self.balance_of(address)
                },
                _ => true,
            },
    {
    }

    /// Spending an allowance takes exactly `amount` off it, which it
    /// covers, and moving the tokens afterwards leaves it there. No other
    /// allowance changes, nor any balance.
    pub proof fn lemma_spent(
        self,
        owner: Address,
        spender: Address,
        recipient: Address,
        amount: nat,
        other: AllowanceKey,
    )
        requires
            amount <= self.allowance(owner, spender),
        ensures
            self.spent(owner, spender, amount).allowance(owner, spender) + amount
                == self.allowance(owner, spender),
            self.spent(owner, spender, amount).moved(owner, recipient, amount).allowance(
                owner,
                spender,
            ) + amount == self.allowance(owner, spender),
            other != (AllowanceKey { owner, spender }) ==> self.spent(
                owner,
                spender,
                amount,
            ).allowances[other] == self.allowances[other],
            self.spent(owner, spender, amount).balances == self.balances,
            self.spent(owner, spender, amount).total_supply == self.total_supply,
    {
    }

    /// Approving again overwrites: after two approvals of one spender by
    /// one owner the ledger is as if only the second had been made, and the
    /// allowance is the second amount, whatever the first was.
    pub proof fn lemma_approved_twice(
        self,
        owner: Address,
        spender: Address,
        first: nat,
        second: nat,
    )
        ensures
            self.approved(owner, spender, first).approved(owner, spender, second) == self.approved(
                owner,
                spender,
                second,
            ),
            self.approved(owner, spender, first).approved(owner, spender, second).allowance(
                owner,
                spender,
            ) == second,
    {
        let key = AllowanceKey { owner, spender };
        assert(self.allowances.insert(key, first).insert(key, second) =~= self.allowances.insert(
            key,
            second,
        ));
    }
}

} // verus!
