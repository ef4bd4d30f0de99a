use crate::address::Address;
use crate::error::Error;
use vstd::prelude::*;

verus! {

/// The record of a change of owner. `prev_owner` is absent where the first
/// owner was set.
#[derive(Clone, Copy, Debug, PartialEq, Eq)]
pub struct OwnershipChanged {
    pub prev_owner: Option<Address>,
    pub new_owner: Address,
}

/// The owner after `init` with `owner`: the one that was set before, and
/// `owner` where none was.
pub open spec fn after_init(state: Option<Address>, owner: Address) -> Option<Address> {
    match state {
        Some(_) => state,
        None => Some(owner),
    }
}

/// What `init` with `owner` returns: it is refused where an owner was set.
pub open spec fn init_result(state: Option<Address>, owner: Address) -> Result<
    OwnershipChanged,
    Error,
> {
    match state {
        Some(_) => Err(Error::OwnerAlreadyInitialized),
        None => Ok(OwnershipChanged { prev_owner: None, new_owner: owner }),
    }
}

/// The owner after the caller asked to hand ownership to `new_owner`: the
/// new one where the caller was the owner, else the one that was set.
pub open spec fn after_change(state: Option<Address>, caller: Address, new_owner: Address)
    -> Option<Address> {
    if state == Some(caller) {
        Some(new_owner)
    } else {
        state
    }
}

/// What `change_ownership` returns: it is refused where the caller is not
/// the owner, also where no owner was set.
pub open spec fn change_result(state: Option<Address>, caller: Address, new_owner: Address)
    -> Result<OwnershipChanged, Error> {
    if state == Some(caller) {
        Ok(OwnershipChanged { prev_owner: Some(caller), new_owner })
    } else {
        Err(Error::NotOwner)
    }
}

/// Once `init` was called, whether it succeeded or not, an owner is set,
/// and every further `init` is refused and leaves that owner in place.
pub proof fn lemma_init_only_once(state: Option<Address>, first: Address, second: Address)
    ensures
        after_init(state, first) is Some,
        init_result(after_init(state, first), second) === Err(Error::OwnerAlreadyInitialized),
        after_init(after_init(state, first), second) == after_init(state, first),
{
}

/// An owner that is set stays set: neither `init` nor `change_ownership`
/// clears it, and only a call by the owner replaces it.
pub proof fn lemma_owner_never_cleared(
    state: Option<Address>,
    caller: Address,
    address: Address,
)
    requires
        state is Some,
    ensures
        after_init(state, address) == state,
        after_change(state, caller, address) is Some,
        state != Some(caller) ==> after_change(state, caller, address) == state,
{
}

/// The single account that may perform privileged operations.
pub struct Ownable {
    owner: Option<Address>,
}

impl View for Ownable {
    type V = Option<Address>;

    /// The owner, absent until `init`.
    closed spec fn view(&self) -> Option<Address> {
        self.owner
    }
}

impl Ownable {
    /// An `Ownable` without an owner.
    pub fn new() -> (ownable: Ownable)
        ensures
            ownable@ is None,
    {
        Ownable { owner: None }
    }

    /// Sets the first owner. Refused where an owner was set before.
    pub fn init(&mut self, owner: Address) -> (r: Result<OwnershipChanged, Error>)
        ensures
            r == init_result(old(self)@, owner),
            final(self)@ == after_init(old(self)@, owner),
            r is Err ==> *final(self) == *old(self),
    {
        if self.owner.is_some() {
            return Err(Error::OwnerAlreadyInitialized);
        }
        self.owner = Some(owner);
        Ok(OwnershipChanged { prev_owner: None, new_owner: owner })
    }

    /// Hands ownership to `new_owner`. Refused where the caller is not the
    /// owner.
    pub fn change_ownership(&mut self, caller: Address, new_owner: Address) -> (r: Result<
        OwnershipChanged,
        Error,
    >)
        ensures
            r == change_result(old(self)@, caller, new_owner),
            final(self)@ == after_change(old(self)@, caller, new_owner),
            r is Err ==> *final(self) == *old(self),
    {
        match self.ensure_ownership(caller) {
            Ok(()) => {},
            Err(error) => {
                return Err(error);
            },
        }
        let current_owner = match self.get_owner() {
            Ok(owner) => owner,
            Err(error) => {
                return Err(error);
            },
        };
        self.owner = Some(new_owner);
        Ok(OwnershipChanged { prev_owner: Some(current_owner), new_owner })
    }

    /// Whether `address` is the owner: refused where it is not, also where
    /// no owner was set.
    pub fn ensure_ownership(&self, address: Address) -> (r: Result<(), Error>)
        ensures
            self@ == Some(address) ==> r === Ok(()),
            self@ != Some(address) ==> r === Err(Error::NotOwner),
    {
        match self.owner {
            Some(owner) => {
                if owner == address {
                    Ok(())
                } else {
                    Err(Error::NotOwner)
                }
            },
            None => Err(Error::NotOwner),
        }
    }

    /// The owner. Refused where none was set.
    pub fn get_owner(&self) -> (r: Result<Address, Error>)
        ensures
            match self@ {
                Some(owner) => r === Ok(owner),
                None => r === Err(Error::OwnerNotInitialized),
            },
    {
        match self.owner {
            Some(owner) => Ok(owner),
            None => Err(Error::OwnerNotInitialized),
        }
    }
}

} // verus!
