//! The domain guard in front of the arccosine of the spherical law of
//! cosines. The cosine of a central angle lies in [-1, 1], but rounding may
//! carry a computed value a little past either end; such a value is pulled
//! back inside, while one further out signals a fault in the computation.
//! Values are binary64 bit patterns (see `float_bits`).
use vstd::prelude::*;
use crate::float_bits::{is_nan, is_nan_bits, order_key, order_key_of};

verus! {

/// The mean radius of the Earth, in meters, of the sphere that distances
/// are measured on.
pub const EARTH_RADIUS_METERS: u64 = 6_371_000;

/// The pattern of `1.0`.
pub const ONE_BITS: u64 = 0x3FF0_0000_0000_0000;

/// The pattern of `-1.0`.
pub const NEG_ONE_BITS: u64 = 0xBFF0_0000_0000_0000;

/// The pattern of `1.0 + 1e-11`: the bound (exclusive) of the rounding
/// allowance above `1.0`.
pub const UPPER_LIMIT_BITS: u64 = 0x3FF0_0000_0000_AFEC;

/// The pattern of `-1.0 - 1e-11`: the bound (exclusive) of the rounding
/// allowance below `-1.0`.
pub const LOWER_LIMIT_BITS: u64 = 0xBFF0_0000_0000_AFEC;

/// The pattern of `1.0 - f64::EPSILON`, what a value just above `1.0` becomes.
pub const BELOW_ONE_BITS: u64 = 0x3FEF_FFFF_FFFF_FFFE;

/// The pattern of `-1.0 + f64::EPSILON`, what a value just below `-1.0` becomes.
pub const ABOVE_NEG_ONE_BITS: u64 = 0xBFEF_FFFF_FFFF_FFFE;

/// `x` is a number in [-1, 1].
pub open spec fn in_unit(x: u64) -> bool {
    &&& !is_nan(x)
    &&& order_key(NEG_ONE_BITS) <= order_key(x)
    &&& order_key(x) <= order_key(ONE_BITS)
}

/// `x` lies below `-1.0`, by less than the rounding allowance.
pub open spec fn rounded_below(x: u64) -> bool {
    &&& !is_nan(x)
    &&& order_key(LOWER_LIMIT_BITS) < order_key(x)
    &&& order_key(x) < order_key(NEG_ONE_BITS)
}

/// `x` lies above `1.0`, by less than the rounding allowance.
pub open spec fn rounded_above(x: u64) -> bool {
    &&& !is_nan(x)
    &&& order_key(ONE_BITS) < order_key(x)
    &&& order_key(x) < order_key(UPPER_LIMIT_BITS)
}

/// `x` is a number strictly between `-1.0 - 1e-11` and `1.0 + 1e-11`.
pub open spec fn within_tolerance(x: u64) -> bool {
    &&& !is_nan(x)
    &&& order_key(LOWER_LIMIT_BITS) < order_key(x)
    &&& order_key(x) < order_key(UPPER_LIMIT_BITS)
}

/// Whether `x` is close enough to [-1, 1] for `check_acos_domain` to take
/// it: a value outside this range, or a NaN, is no rounding noise but a
/// fault in the computation that produced it.
pub fn is_within_acos_tolerance(x: u64) -> (r: bool)
    ensures
        r == within_tolerance(x),
{
    if is_nan_bits(x) {
        return false;
    }
    let k: i64 = order_key_of(x);
    order_key_of(LOWER_LIMIT_BITS) < k && k < order_key_of(UPPER_LIMIT_BITS)
}

/// Brings a computed cosine into the domain of the arccosine.
///
/// A value in [-1, 1] comes back unchanged; one just past `-1.0` or `1.0`
/// (within `1e-11`) comes back as the nearest value one unit of
/// `f64::EPSILON` inside. A value further out is a fault of the caller's
/// computation, never handed in: callers test it with
/// `is_within_acos_tolerance` and fail on it.
pub fn check_acos_domain(x: u64) -> (r: u64)
    requires
        within_tolerance(x),
    ensures
        in_unit(x) ==> r == x,
        rounded_below(x) ==> r == ABOVE_NEG_ONE_BITS,
        rounded_above(x) ==> r == BELOW_ONE_BITS,
        in_unit(r),
{
    let k: i64 = order_key_of(x);
    if order_key_of(NEG_ONE_BITS) <= k && k <= order_key_of(ONE_BITS) {
        x
    } else if k < order_key_of(NEG_ONE_BITS) {
        ABOVE_NEG_ONE_BITS
    } else {
        BELOW_ONE_BITS
    }
}

} // verus!
