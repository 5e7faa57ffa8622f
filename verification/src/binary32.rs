//! Numbers in the IEEE 754 binary32 format, held as their bit patterns.
//!
//! A position or an opacity enters the library as the 32 bits of its binary32
//! value. What the library needs of such numbers (their order, whether they
//! are finite, the larger of two, a clamp to the unit interval) depends on
//! the bits alone and is defined here.

use vstd::prelude::*;

verus! {

/// The bits of positive zero.
pub const ZERO: u32 = 0;

/// The bits of one.
pub const ONE: u32 = 0x3f80_0000;

/// The bits of positive infinity.
pub const INFINITY: u32 = 0x7f80_0000;

/// The bits of negative infinity.
pub const NEG_INFINITY: u32 = 0xff80_0000;

/// Whether the sign bit is set.
pub open spec fn sign(bits: u32) -> bool {
    bits >= 0x8000_0000
}

/// The bits without the sign bit: exponent and fraction, which order the
/// absolute values of the numbers that are not NaN.
pub open spec fn magnitude(bits: u32) -> int {
    if bits >= 0x8000_0000 {
        bits - 0x8000_0000
    } else {
        bits as int
    }
}

/// Whether the bits stand for a NaN.
pub open spec fn is_nan(bits: u32) -> bool {
    magnitude(bits) > 0x7f80_0000
}

/// Whether the bits stand for a number that is neither infinite nor NaN.
pub open spec fn is_finite(bits: u32) -> bool {
    magnitude(bits) < 0x7f80_0000
}

/// The place of a number in the order of the numbers that are not NaN:
/// `rank(a) < rank(b)` exactly when `a` is less than `b`. Both zeros have
/// rank 0.
pub open spec fn rank(bits: u32) -> int {
    if sign(bits) {
        -magnitude(bits)
    } else {
        magnitude(bits)
    }
}

/// `a < b` as IEEE 754 compares: false when either is NaN.
pub open spec fn less(a: u32, b: u32) -> bool {
    !is_nan(a) && !is_nan(b) && rank(a) < rank(b)
}

/// `a <= b` as IEEE 754 compares: false when either is NaN.
pub open spec fn at_most(a: u32, b: u32) -> bool {
    !is_nan(a) && !is_nan(b) && rank(a) <= rank(b)
}

/// The larger of two numbers. A NaN gives way to the other number; of two
/// numbers that compare equal the first is kept.
pub open spec fn larger(a: u32, b: u32) -> u32 {
    if is_nan(a) {
        b
    } else if less(a, b) {
        b
    } else {
        a
    }
}

/// A number brought into the unit interval: zero below it, one above it,
/// itself inside it. A NaN stays as it is.
pub open spec fn unit_clamped(a: u32) -> u32 {
    if less(a, ZERO) {
        ZERO
    } else if less(ONE, a) {
        ONE
    } else {
        a
    }
}

/// A finite number stays; infinities and NaN count as zero.
pub open spec fn finite_or_zero(a: u32) -> u32 {
    if is_finite(a) {
        a
    } else {
        ZERO
    }
}

fn exec_magnitude(bits: u32) -> (r: u32)
    ensures
        r == magnitude(bits),
{
    if bits >= 0x8000_0000 {
        bits - 0x8000_0000
    } else {
        bits
    }
}

/// Tells whether a number is NaN.
pub fn nan(bits: u32) -> (r: bool)
    ensures
        r == is_nan(bits),
{
    exec_magnitude(bits) > 0x7f80_0000
}

/// Tells whether a number is finite.
pub fn finite(bits: u32) -> (r: bool)
    ensures
        r == is_finite(bits),
{
    exec_magnitude(bits) < 0x7f80_0000
}

/// Tells whether `a < b`.
pub fn lt(a: u32, b: u32) -> (r: bool)
    ensures
        r == less(a, b),
{
    if nan(a) || nan(b) {
        false
    } else {
        let ma = exec_magnitude(a);
        let mb = exec_magnitude(b);
        if a >= 0x8000_0000 {
            if b >= 0x8000_0000 {
                mb < ma
            } else {
                ma > 0 || mb > 0
            }
        } else {
            if b >= 0x8000_0000 {
                false
            } else {
                ma < mb
            }
        }
    }
}

/// The larger of two numbers.
pub fn max(a: u32, b: u32) -> (r: u32)
    ensures
        r == larger(a, b),
{
    if nan(a) {
        b
    } else if lt(a, b) {
        b
    } else {
        a
    }
}

/// Brings a number into the unit interval.
pub fn clamp_unit(a: u32) -> (r: u32)
    ensures
        r == unit_clamped(a),
{
    if lt(a, ZERO) {
        ZERO
    } else if lt(ONE, a) {
        ONE
    } else {
        a
    }
}

} // verus!
