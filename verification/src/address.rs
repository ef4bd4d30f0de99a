use vstd::prelude::*;

verus! {

/// An account identifier: the identity of a holder of balances, allowances
/// or ownership. Two addresses are the same account exactly when their
/// identifiers are equal.
#[derive(Clone, Copy, Debug, PartialEq, Eq, Hash, Structural)]
pub struct Address {
    pub id: u64,
}

impl Address {
    /// The address with the given identifier.
    pub fn new(id: u64) -> (address: Address)
        ensures
            address.id == id,
    {
        Address { id }
    }
}

} // verus!
