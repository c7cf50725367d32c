//! Double precision numbers, carried bit for bit.

use vstd::prelude::*;

verus! {

/// A double precision number of the terminal: a price, a volume, an amount of
/// money.
///
/// The terminal states these in the IEEE 754 double precision format. The
/// library never computes with one: it carries the 64 bits of the number
/// unchanged between the caller and the terminal, so two values are equal
/// exactly where their bits are.
#[derive(Clone, Copy, Debug, PartialEq, Eq, Structural)]
pub struct Double {
    pub bits: u64,
}

impl Double {
    /// The number whose binary form is `bits`.
    pub fn from_bits(bits: u64) -> (number: Double)
        ensures
            number.bits == bits,
    {
        Double { bits }
    }

    /// The binary form of the number.
    pub fn to_bits(self) -> (bits: u64)
        ensures
            bits == self.bits,
    {
        self.bits
    }
}

} // verus!
