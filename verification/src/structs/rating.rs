//! A rating held as the bit pattern of an IEEE-754 single-precision float.
use vstd::prelude::*;
use vstd::std_specs::cmp::PartialEqSpecImpl;

verus! {

/// A rating (0 to 10), held as the bits of an IEEE-754 `f32` (`f32::to_bits`). This
/// crate moves ratings without computing with them; `==` compares them as `f32` values
/// do.
#[derive(Default, Clone, Copy, Debug)]
pub struct Rating {
    pub bits: u32,
}

/// The bits encode a NaN: all exponent bits set and a non-zero fraction.
pub open spec fn is_nan_bits(bits: u32) -> bool {
    (bits & 0x7f80_0000u32) == 0x7f80_0000u32 && (bits & 0x007f_ffffu32) != 0
}

/// The bits encode a zero of either sign.
pub open spec fn is_zero_bits(bits: u32) -> bool {
    (bits & 0x7fff_ffffu32) == 0
}

/// IEEE-754 equality of two `f32` values given by their bits: a NaN equals nothing, the
/// two zeros are equal, and otherwise equal values have equal bits.
pub open spec fn float_bits_eq(a: u32, b: u32) -> bool {
    !is_nan_bits(a) && !is_nan_bits(b) && (a == b || (is_zero_bits(a) && is_zero_bits(b)))
}

impl Rating {
    /// The rating with the given `f32` bits.
    pub fn from_bits(bits: u32) -> (r: Rating)
        ensures
            r.bits == bits,
    {
        Rating { bits }
    }

    /// The `f32` bits of the rating.
    pub fn to_bits(&self) -> (bits: u32)
        ensures
            bits == self.bits,
    {
        self.bits
    }
}

impl PartialEq for Rating {
    fn eq(&self, other: &Rating) -> (equal: bool) {
        let a = self.bits;
        let b = other.bits;
        let a_nan = (a & 0x7f80_0000u32) == 0x7f80_0000u32 && (a & 0x007f_ffffu32) != 0;
        let b_nan = (b & 0x7f80_0000u32) == 0x7f80_0000u32 && (b & 0x007f_ffffu32) != 0;
        let zeros = (a & 0x7fff_ffffu32) == 0 && (b & 0x7fff_ffffu32) == 0;
        !a_nan && !b_nan && (a == b || zeros)
    }
}

impl PartialEqSpecImpl for Rating {
    open spec fn obeys_eq_spec() -> bool {
        true
    }

    open spec fn eq_spec(&self, other: &Rating) -> bool {
        float_bits_eq(self.bits, other.bits)
    }
}

} // verus!
