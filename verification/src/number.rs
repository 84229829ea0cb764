//! Numbers are carried as the raw bit pattern of an IEEE-754 double, so
//! that the tag logic around them can be reasoned about without any
//! floating-point arithmetic. Equality on numbers is IEEE-754 equality,
//! stated directly over the bits; the display text of a number is
//! rendered from the bits by the host's formatter, outside this core.

use vstd::prelude::*;

verus! {

/// The sign bit masked away: what remains decides zero and NaN.
pub open spec fn magnitude_bits(bits: u64) -> u64 {
    bits & 0x7fff_ffff_ffff_ffff
}

/// The bit pattern encodes an IEEE-754 NaN (any payload, either sign).
pub open spec fn is_nan_bits(bits: u64) -> bool {
    magnitude_bits(bits) > 0x7ff0_0000_0000_0000
}

/// The bit pattern encodes positive or negative zero.
pub open spec fn is_zero_bits(bits: u64) -> bool {
    magnitude_bits(bits) == 0
}

/// IEEE-754 equality over bit patterns: a NaN is equal to nothing, the
/// two zeroes are equal to each other, and every other value is equal
/// exactly to itself.
pub open spec fn number_eq(a: u64, b: u64) -> bool {
    &&& !is_nan_bits(a)
    &&& !is_nan_bits(b)
    &&& (a == b || (is_zero_bits(a) && is_zero_bits(b)))
}

/// Runtime decision of IEEE-754 equality on two number bit patterns.
pub fn number_bits_eq(a: u64, b: u64) -> (r: bool)
    ensures
        r == number_eq(a, b),
{
    let ma: u64 = a & 0x7fff_ffff_ffff_ffff;
    let mb: u64 = b & 0x7fff_ffff_ffff_ffff;
    let a_nan: bool = ma > 0x7ff0_0000_0000_0000;
    let b_nan: bool = mb > 0x7ff0_0000_0000_0000;
    !a_nan && !b_nan && (a == b || (ma == 0 && mb == 0))
}

} // verus!
