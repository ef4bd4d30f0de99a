use odra::types::arithmetic::{OverflowingAdd, OverflowingSub};
use odra::types::ExecutionError;
use vstd::prelude::*;

verus! {

/// The error that odra's checked arithmetic reports. Nothing is known of
/// what it holds: it is only carried from the arithmetic to the place where
/// an error of this crate takes its place.
#[verifier::external_type_specification]
#[verifier::external_body]
pub struct ExExecutionError(ExecutionError);

/// An unsigned 256-bit integer: four 64-bit words, least significant first.
///
/// The words are laid out as in odra's `U256`, which does the arithmetic.
#[derive(Clone, Copy, Debug, PartialEq, Eq, Hash)]
pub struct U256(pub [u64; 4]);

impl View for U256 {
    type V = nat;

    /// The number that the four words stand for.
    open spec fn view(&self) -> nat {
        (self.0[0] + 0x1_0000_0000_0000_0000int * (self.0[1] + 0x1_0000_0000_0000_0000int * (
        self.0[2] + 0x1_0000_0000_0000_0000int * self.0[3]))) as nat
    }
}

impl U256 {
    /// The largest number a `U256` can hold, 2^256 - 1.
    pub open spec fn spec_max() -> nat {
        0xffff_ffff_ffff_ffff_ffff_ffff_ffff_ffff_ffff_ffff_ffff_ffff_ffff_ffff_ffff_ffffnat
    }

    /// The number zero.
    pub fn zero() -> (r: U256)
        ensures
            r@ == 0,
    {
        U256([0, 0, 0, 0])
    }

    /// Whether this is the number zero.
    pub fn is_zero(&self) -> (r: bool)
        ensures
            r == (self@ == 0),
    {
        self.0[0] == 0 && self.0[1] == 0 && self.0[2] == 0 && self.0[3] == 0
    }

    /// The sum of the two numbers, where it fits in 256 bits.
    pub fn checked_add(self, other: U256) -> (r: Option<U256>)
        ensures
            match r {
                Some(sum) => sum@ == self@ + other@,
                None => self@ + other@ > U256::spec_max(),
            },
    {
        match overflowing_add(self, other) {
            Ok(sum) => Some(sum),
            Err(_) => None,
        }
    }

    /// This number less the other, where the other is not the larger one.
    pub fn checked_sub(self, other: U256) -> (r: Option<U256>)
        ensures
            match r {
                Some(difference) => other@ <= self@ && difference@ == self@ - other@,
                None => other@ > self@,
            },
    {
        match overflowing_sub(self, other) {
            Ok(difference) => Some(difference),
            Err(_) => None,
        }
    }

    /// Every `U256` stands for a number below 2^256.
    pub proof fn lemma_bounded(self)
        ensures
            self@ <= U256::spec_max(),
    {
    }

    /// Two `U256` that stand for the same number are the same value.
    pub proof fn lemma_view_injective(self, other: U256)
        requires
            self@ == other@,
        ensures
            self == other,
    {
        assert(self.0[0] == other.0[0]);
        assert(self.0[1] == other.0[1]);
        assert(self.0[2] == other.0[2]);
        assert(self.0[3] == other.0[3]);
        assert(self.0 =~= other.0);
    }
}

impl Default for U256 {
    /// The number zero.
    fn default() -> (r: U256)
        ensures
            r@ == 0,
    {
        U256::zero()
    }
}

impl From<u32> for U256 {
    fn from(value: u32) -> (r: U256) {
        U256([value as u64, 0, 0, 0])
    }
}

impl vstd::std_specs::convert::FromSpecImpl<u32> for U256 {
    open spec fn obeys_from_spec() -> bool {
        true
    }

    open spec fn from_spec(value: u32) -> U256 {
        U256([value as u64, 0, 0, 0])
    }
}

/// Adds two numbers with `OverflowingAdd::overflowing_add`, as odra has it
/// for its `U256`.
///
/// Trusted: where the sum fits in 256 bits the call returns the sum, and
/// where it does not the call returns an error.
#[verifier::external_body]
pub(crate) fn overflowing_add(a: U256, b: U256) -> (r: Result<U256, ExecutionError>)
    ensures
        match r {
            Ok(sum) => sum@ == a@ + b@,
            Err(_) => a@ + b@ > U256::spec_max(),
        },
{
    match OverflowingAdd::overflowing_add(odra::types::U256(a.0), odra::types::U256(b.0)) {
        Ok(sum) => Ok(U256(sum.0)),
        Err(e) => Err(e),
    }
}

/// Subtracts `b` from `a` with `OverflowingSub::overflowing_sub`, as odra
/// has it for its `U256`.
///
/// Trusted: where `b` is at most `a` the call returns the difference, and
/// where `b` is larger the call returns an error.
#[verifier::external_body]
pub(crate) fn overflowing_sub(a: U256, b: U256) -> (r: Result<U256, ExecutionError>)
    ensures
        match r {
            Ok(difference) => b@ <= a@ && difference@ == a@ - b@,
            Err(_) => b@ > a@,
        },
{
    match OverflowingSub::overflowing_sub(odra::types::U256(a.0), odra::types::U256(b.0)) {
        Ok(difference) => Ok(U256(difference.0)),
        Err(e) => Err(e),
    }
}

/// Compares two numbers with `<` on odra's `U256`.
///
/// Trusted: `<` orders the values as the numbers that their words stand
/// for, the last word counting most.
#[verifier::external_body]
pub(crate) fn less_than(a: U256, b: U256) -> (r: bool)
    ensures
        r == (a@ < b@),
{
    odra::types::U256(a.0) < odra::types::U256(b.0)
}

} // verus!
