use vstd::prelude::*;

verus! {

/// Why an operation was refused. A refused operation changes nothing.
#[derive(Clone, Copy, Debug, PartialEq, Eq, Structural)]
pub enum Error {
    /// The amount to move exceeds the sender's balance.
    InsufficientBalance,
    /// The amount to move exceeds what the spender is allowed to spend.
    InsufficientAllowance,
    /// The caller is not the owner.
    NotOwner,
    /// The owner was already set.
    OwnerAlreadyInitialized,
    /// No owner was set yet.
    OwnerNotInitialized,
    /// A balance or the total supply would exceed 2^256 - 1.
    ArithmeticOverflow,
    /// A balance would fall below zero.
    ArithmeticUnderflow,
}

impl Error {
    /// The code under which a host reports each error.
    pub open spec fn spec_code(self) -> u16 {
        match self {
            Error::InsufficientBalance => 1,
            Error::InsufficientAllowance => 2,
            Error::NotOwner => 3,
            Error::OwnerAlreadyInitialized => 4,
            Error::OwnerNotInitialized => 5,
            Error::ArithmeticOverflow => 32775,
            Error::ArithmeticUnderflow => 32776,
        }
    }

    /// The code under which a host reports this error.
    #[verifier::when_used_as_spec(spec_code)]
    pub fn code(self) -> (code: u16)
        ensures
            code == self.spec_code(),
    {
        match self {
            Error::InsufficientBalance => 1,
            Error::InsufficientAllowance => 2,
            Error::NotOwner => 3,
            Error::OwnerAlreadyInitialized => 4,
            Error::OwnerNotInitialized => 5,
            Error::ArithmeticOverflow => 32775,
            Error::ArithmeticUnderflow => 32776,
        }
    }
}

} // verus!
