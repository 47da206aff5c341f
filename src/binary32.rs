//! IEEE-754 binary32 values carried as bit patterns.
//!
//! A `u32` here is the bit pattern of an `f32` (`f32::to_bits`). The gates and
//! the clamp only compare values against small constants, and for those
//! comparisons the bit pattern decides exactly: the low 31 bits are the
//! magnitude, and among non-negative patterns the integer order is the order
//! of the values, with infinity at `INFINITY` and every NaN above it.
use vstd::prelude::*;

verus! {

/// The bit pattern of `1.0f32`.
pub const ONE: u32 = 0x3F80_0000;

/// The bit pattern of `-1.0f32`.
pub const NEG_ONE: u32 = 0xBF80_0000;

/// The bit pattern of `f32::INFINITY`.
pub const INFINITY: u32 = 0x7F80_0000;

/// The sign bit of a binary32 pattern.
pub const SIGN_BIT: u32 = 0x8000_0000;

/// Every bit but the sign bit.
pub const MAGNITUDE_MASK: u32 = 0x7FFF_FFFF;

/// The bit pattern of the absolute value: the sign bit cleared.
pub open spec fn magnitude(b: u32) -> u32 {
    if b >= SIGN_BIT {
        (b - SIGN_BIT) as u32
    } else {
        b
    }
}

/// The sign bit is set (this includes `-0.0` and negative NaNs).
pub open spec fn sign_set(b: u32) -> bool {
    b >= SIGN_BIT
}

/// The value is a NaN.
pub open spec fn is_nan(b: u32) -> bool {
    magnitude(b) > INFINITY
}

/// The value is neither infinite nor NaN (`f32::is_finite`).
pub open spec fn is_finite(b: u32) -> bool {
    magnitude(b) < INFINITY
}

/// `|x| > 1.0` as an ordered comparison: false for NaN.
pub open spec fn abs_exceeds_one(b: u32) -> bool {
    !is_nan(b) && magnitude(b) > ONE
}

/// `-1.0 <= x && x <= 1.0`: false for NaN and the infinities.
pub open spec fn within_unit(b: u32) -> bool {
    magnitude(b) <= ONE
}

/// `x > limit` as an ordered comparison, for a non-negative finite `limit`.
pub open spec fn greater_than(b: u32, limit: u32) -> bool {
    !is_nan(b) && !sign_set(b) && b > limit
}

/// `x.clamp(-1.0, 1.0)`: a NaN is returned unchanged, a value below `-1.0`
/// becomes `-1.0`, one above `1.0` becomes `1.0`, the rest stay as they are.
pub open spec fn clamp_unit(b: u32) -> u32 {
    if is_nan(b) {
        b
    } else if magnitude(b) > ONE {
        if sign_set(b) {
            NEG_ONE
        } else {
            ONE
        }
    } else {
        b
    }
}

/// Clears the sign bit.
pub fn abs_bits(b: u32) -> (r: u32)
    ensures
        r == magnitude(b),
{
    let r = b & MAGNITUDE_MASK;
    assert(r == magnitude(b)) by (bit_vector)
        requires
            r == b & 0x7FFF_FFFFu32,
    ;
    r
}

/// `f32::is_finite` on a bit pattern.
pub fn is_finite_bits(b: u32) -> (r: bool)
    ensures
        r == is_finite(b),
{
    abs_bits(b) < INFINITY
}

/// `-1.0 <= x && x <= 1.0` on a bit pattern.
pub fn is_within_unit(b: u32) -> (r: bool)
    ensures
        r == within_unit(b),
{
    abs_bits(b) <= ONE
}

/// `x > limit` on a bit pattern, for a non-negative finite `limit`.
pub fn exceeds(b: u32, limit: u32) -> (r: bool)
    requires
        limit < INFINITY,
    ensures
        r == greater_than(b, limit),
{
    b < SIGN_BIT && b > limit && b <= INFINITY
}

/// `x.clamp(-1.0, 1.0)` on a bit pattern.
pub fn clamp_to_unit(b: u32) -> (r: u32)
    ensures
        r == clamp_unit(b),
{
    let m = abs_bits(b);
    if m > INFINITY {
        b
    } else if m > ONE {
        if b >= SIGN_BIT {
            NEG_ONE
        } else {
            ONE
        }
    } else {
        b
    }
}

} // verus!
