//! Delays in seconds, as single-precision numbers held by their bits.

use vstd::prelude::*;

verus! {

/// A length of time in seconds: an IEEE 754 single-precision number, held as
/// its 32 bits (sign, eight bits of exponent, 23 bits of fraction).
///
/// Every bit pattern is a value, so negative lengths, infinities and NaNs can
/// be stored and read back unchanged. Two values compare with `==` as the
/// numbers they encode do, which is not the same as having the same bits: see
/// [`Seconds::same_number`].
#[derive(Clone, Copy, Debug)]
pub struct Seconds {
    /// The encoding of the number, sign bit first.
    pub bits: u32,
}

impl Seconds {
    /// The length `+0.0`.
    pub open spec fn zero() -> Seconds {
        Seconds { bits: 0 }
    }

    /// Whether the bits encode no number: the exponent is all ones and the
    /// fraction is not zero, under either sign.
    pub open spec fn is_nan(self) -> bool {
        ||| 0x7f80_0000 < self.bits < 0x8000_0000
        ||| 0xff80_0000 < self.bits
    }

    /// Whether the bits encode zero, of either sign.
    pub open spec fn is_zero(self) -> bool {
        self.bits == 0 || self.bits == 0x8000_0000
    }

    /// Whether the two values encode the same number. A NaN is no number, so
    /// it is the same as nothing, itself included; the two zeros are the same
    /// number; any other number has exactly one encoding.
    pub open spec fn same_number(self, other: Seconds) -> bool {
        &&& !self.is_nan()
        &&& !other.is_nan()
        &&& (self.bits == other.bits || (self.is_zero() && other.is_zero()))
    }

    /// The value with the given bits.
    pub fn from_bits(bits: u32) -> (s: Seconds)
        ensures
            s == (Seconds { bits }),
    {
        Seconds { bits }
    }

    /// The bits of the value.
    pub fn to_bits(self) -> (bits: u32)
        ensures
            bits == self.bits,
    {
        self.bits
    }
}

impl PartialEq for Seconds {
    /// Compares the two lengths as numbers.
    fn eq(&self, other: &Seconds) -> (r: bool) {
        let a: u32 = self.bits;
        let b: u32 = other.bits;
        let a_nan = (0x7f80_0000 < a && a < 0x8000_0000) || 0xff80_0000 < a;
        let b_nan = (0x7f80_0000 < b && b < 0x8000_0000) || 0xff80_0000 < b;
        let a_zero = a == 0 || a == 0x8000_0000;
        let b_zero = b == 0 || b == 0x8000_0000;
        !a_nan && !b_nan && (a == b || (a_zero && b_zero))
    }
}

impl vstd::std_specs::cmp::PartialEqSpecImpl for Seconds {
    open spec fn obeys_eq_spec() -> bool {
        true
    }

    open spec fn eq_spec(&self, other: &Seconds) -> bool {
        self.same_number(*other)
    }
}

} // verus!
