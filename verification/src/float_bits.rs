//! Ordering and equality of coordinate components.
//!
//! A coordinate component is carried as the bit pattern of an IEEE 754
//! double-precision number. Comparisons follow the IEEE total order on those
//! bit patterns — the magnitude bits, negated when the sign bit is set —
//! except that positive and negative zero compare equal, as they do as
//! numbers. On components that are neither a NaN nor a zero this order agrees
//! with the numeric order of the doubles they encode.
use vstd::prelude::*;

verus! {

/// The sign bit of a double's bit pattern.
pub const SIGN_BIT: u64 = 0x8000_0000_0000_0000;

/// The largest magnitude an infinity can have; greater magnitudes are NaNs.
pub const INF_MAGNITUDE: u64 = 0x7FF0_0000_0000_0000;

/// The magnitude bits of a double's bit pattern: the pattern with its sign
/// bit cleared.
pub open spec fn magnitude_bits(bits: u64) -> int {
    if bits >= SIGN_BIT {
        bits - SIGN_BIT
    } else {
        bits as int
    }
}

/// The key by which coordinate components are ordered: the magnitude bits,
/// negated when the sign bit is set.
pub open spec fn float_key(bits: u64) -> int {
    if bits >= SIGN_BIT {
        -magnitude_bits(bits)
    } else {
        magnitude_bits(bits)
    }
}

/// The bit pattern encodes a NaN: all exponent bits set and a non-zero
/// mantissa, that is, a magnitude above the infinities'.
pub open spec fn is_nan_bits(bits: u64) -> bool {
    magnitude_bits(bits) > INF_MAGNITUDE
}

/// The two bit patterns encode equal numbers: neither is a NaN and their
/// keys agree (so positive and negative zero count as equal).
pub open spec fn float_eq_bits(a: u64, b: u64) -> bool {
    !is_nan_bits(a) && !is_nan_bits(b) && float_key(a) == float_key(b)
}

/// The smaller of two components by key; the left one on a tie.
pub open spec fn spec_min_bits(a: u64, b: u64) -> u64 {
    if float_key(b) < float_key(a) {
        b
    } else {
        a
    }
}

/// The larger of two components by key; the left one on a tie.
pub open spec fn spec_max_bits(a: u64, b: u64) -> u64 {
    if float_key(b) > float_key(a) {
        b
    } else {
        a
    }
}

/// Compares two coordinate components by key.
pub fn le_bits(a: u64, b: u64) -> (r: bool)
    ensures
        r == (float_key(a) <= float_key(b)),
{
    let a_neg = a >= SIGN_BIT;
    let b_neg = b >= SIGN_BIT;
    if a_neg && b_neg {
        b <= a
    } else if a_neg {
        true
    } else if b_neg {
        a == 0 && b == SIGN_BIT
    } else {
        a <= b
    }
}

/// The smaller of two components by key.
pub fn min_bits(a: u64, b: u64) -> (r: u64)
    ensures
        r == spec_min_bits(a, b),
{
    if le_bits(a, b) {
        a
    } else {
        b
    }
}

/// The larger of two components by key.
pub fn max_bits(a: u64, b: u64) -> (r: u64)
    ensures
        r == spec_max_bits(a, b),
{
    if le_bits(b, a) {
        a
    } else {
        b
    }
}

/// Decides whether two components encode equal numbers.
pub fn float_eq(a: u64, b: u64) -> (r: bool)
    ensures
        r == float_eq_bits(a, b),
{
    let mag_a = if a >= SIGN_BIT {
        a - SIGN_BIT
    } else {
        a
    };
    let mag_b = if b >= SIGN_BIT {
        b - SIGN_BIT
    } else {
        b
    };
    if mag_a > INF_MAGNITUDE || mag_b > INF_MAGNITUDE {
        false
    } else if mag_a == 0 && mag_b == 0 {
        true
    } else {
        a == b
    }
}

} // verus!
