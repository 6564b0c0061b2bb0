//! Amounts: single-precision quantities held by their bit pattern.

use vstd::prelude::*;

verus! {

/// A single-precision quantity (grams, kilocalories, ...), held by its
/// IEEE 754 bit pattern so that it can be stored, compared and defaulted
/// without any arithmetic on it.
#[derive(Clone, Copy, Debug, PartialEq, Eq, Structural)]
pub struct Amount {
    pub bits: u32,
}

impl Amount {
    /// The amount that stands for an unreported nutrient: positive zero.
    pub open spec fn zero_spec() -> Amount {
        Amount { bits: 0 }
    }

    #[verifier::when_used_as_spec(zero_spec)]
    pub fn zero() -> (amount: Amount)
        ensures
            amount == Amount::zero_spec(),
    {
        Amount { bits: 0 }
    }

    pub fn from_bits(bits: u32) -> (amount: Amount)
        ensures
            amount.bits == bits,
    {
        Amount { bits }
    }

    pub fn to_bits(self) -> (bits: u32)
        ensures
            bits == self.bits,
    {
        self.bits
    }
}

} // verus!
