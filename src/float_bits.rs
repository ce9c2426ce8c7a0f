//! A model of IEEE 754 binary64 values by their bit patterns (as given by
//! `f64::to_bits`), enough to order them: a pattern is a sign bit over a
//! 63-bit magnitude, and among non-NaN values the magnitudes of patterns of
//! one sign are ordered as the values they encode.
use vstd::prelude::*;

verus! {

/// The sign bit of a binary64 pattern.
pub const SIGN_BIT: u64 = 0x8000_0000_0000_0000;

/// The pattern of positive infinity: all exponent bits set, fraction zero.
/// Every pattern with a larger magnitude is a NaN.
pub const INFINITY_BITS: u64 = 0x7FF0_0000_0000_0000;

/// Whether the sign bit of `b` is set.
pub open spec fn sign_set(b: u64) -> bool {
    b >= SIGN_BIT
}

/// The pattern without its sign bit: exponent and fraction.
pub open spec fn magnitude(b: u64) -> nat {
    if sign_set(b) {
        (b - SIGN_BIT) as nat
    } else {
        b as nat
    }
}

/// Whether `b` encodes a NaN.
pub open spec fn is_nan(b: u64) -> bool {
    magnitude(b) > INFINITY_BITS
}

/// A key that orders the non-NaN patterns as the values they encode:
/// for non-NaN `a`, `b`, `f64::from_bits(a) < f64::from_bits(b)` exactly
/// when `order_key(a) < order_key(b)`, and the two are equal as floats
/// exactly when their keys are equal (both zeros get key 0).
pub open spec fn order_key(b: u64) -> int {
    if sign_set(b) {
        -magnitude(b)
    } else {
        magnitude(b) as int
    }
}

/// Whether `b` encodes a NaN.
pub fn is_nan_bits(b: u64) -> (r: bool)
    ensures
        r == is_nan(b),
{
    let m: u64 = if b >= SIGN_BIT { b - SIGN_BIT } else { b };
    m > INFINITY_BITS
}

/// The order key of `b` (see `order_key`), as a machine integer.
pub fn order_key_of(b: u64) -> (k: i64)
    ensures
        k as int == order_key(b),
{
    if b >= SIGN_BIT {
        let m: u64 = b - SIGN_BIT;
        -(m as i64)
    } else {
        b as i64
    }
}

} // verus!
