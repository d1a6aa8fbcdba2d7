//! Single-precision numbers, carried by their bit patterns.

use vstd::prelude::*;

verus! {

/// A single-precision number, as its IEEE 754 bit pattern. The library stores such numbers and
/// compares them; arithmetic on them is left to the program around it.
#[derive(Debug, Clone, Copy, PartialEq, Eq, Structural)]
pub struct Single {
    pub bits: u32,
}

/// The bit pattern of 1024.
pub const BITS_OF_1024: u32 = 0x4480_0000;

/// The bit pattern of positive infinity.
pub const BITS_OF_INFINITY: u32 = 0x7f80_0000;

/// Zero.
pub open spec fn zero() -> Single {
    Single { bits: 0 }
}

impl Single {
    /// Whether the number is greater than 1024. Positive numbers are ordered as their bit
    /// patterns are; past infinity come the patterns that are no numbers, and past those the
    /// negative numbers.
    pub open spec fn above_1024(self) -> bool {
        BITS_OF_1024 < self.bits <= BITS_OF_INFINITY
    }

    /// Zero.
    pub fn zero() -> (number: Single)
        ensures
            number == zero(),
    {
        Single { bits: 0 }
    }

    /// Whether the number is greater than 1024.
    pub fn is_above_1024(&self) -> (answer: bool)
        ensures
            answer == self.above_1024(),
    {
        BITS_OF_1024 < self.bits && self.bits <= BITS_OF_INFINITY
    }

    /// The number, or zero where there is none.
    pub fn or_zero(number: Option<Single>) -> (value: Single)
        ensures
            value == number.unwrap_or(zero()),
    {
        match number {
            Some(value) => value,
            None => Single::zero(),
        }
    }
}

} // verus!
