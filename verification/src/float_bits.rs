//! The fields of an IEEE-754 binary64 bit pattern and the tolerance rule.

use vstd::prelude::*;

verus! {

/// Bit pattern of positive infinity; every pattern from here up to the sign
/// bit encodes infinity or NaN.
pub const POSITIVE_INFINITY_BITS: u64 = 0x7FF0_0000_0000_0000;

/// The sign bit of a binary64 pattern (1 for negative values and -0.0).
pub open spec fn sign_field(bits: u64) -> u64 {
    bits / 0x8000_0000_0000_0000u64
}

/// The eleven-bit biased exponent of a binary64 pattern.
pub open spec fn exponent_field(bits: u64) -> u64 {
    (bits / 0x10_0000_0000_0000u64) % 0x800u64
}

/// The fifty-two-bit fraction of a binary64 pattern.
pub open spec fn fraction_field(bits: u64) -> u64 {
    bits % 0x10_0000_0000_0000u64
}

/// The pattern encodes a finite value (neither an infinity nor a NaN).
pub open spec fn encodes_finite(bits: u64) -> bool {
    exponent_field(bits) != 0x7FF
}

/// The pattern encodes a value strictly greater than zero: not a NaN, sign
/// bit clear, and not one of the two zeros.
pub open spec fn encodes_positive(bits: u64) -> bool {
    &&& sign_field(bits) == 0
    &&& !(exponent_field(bits) == 0x7FF && fraction_field(bits) != 0)
    &&& !(exponent_field(bits) == 0 && fraction_field(bits) == 0)
}

/// A lattice spacing is usable when it is a positive, finite number.
pub open spec fn valid_tolerance(bits: u64) -> bool {
    encodes_positive(bits) && encodes_finite(bits)
}

/// The positive finite binary64 values are exactly the patterns that lie
/// strictly between the pattern of +0.0 and that of +infinity.
pub proof fn lemma_valid_tolerance_range(bits: u64)
    ensures
        valid_tolerance(bits) <==> (0 < bits && bits < POSITIVE_INFINITY_BITS),
{
    assert(((bits / 0x8000_0000_0000_0000u64) == 0
        && (bits / 0x10_0000_0000_0000u64) % 0x800u64 != 0x7FF
        && !((bits / 0x10_0000_0000_0000u64) % 0x800u64 == 0x7FF
            && bits % 0x10_0000_0000_0000u64 != 0)
        && !((bits / 0x10_0000_0000_0000u64) % 0x800u64 == 0
            && bits % 0x10_0000_0000_0000u64 == 0))
        <==> (0 < bits && bits < 0x7FF0_0000_0000_0000u64)) by (bit_vector);
}

/// Decides whether the binary64 value with bit pattern `bits` may serve as the
/// spacing of a snapping lattice, that is whether it is positive and finite.
pub fn is_valid_tolerance(bits: u64) -> (valid: bool)
    ensures
        valid == valid_tolerance(bits),
{
    proof {
        lemma_valid_tolerance_range(bits);
    }
    0 < bits && bits < POSITIVE_INFINITY_BITS
}

} // verus!
