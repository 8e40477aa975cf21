//! Single-precision numbers as their IEEE 754 bit patterns.
//!
//! The library never computes in floating point. Numbers cross its boundary
//! as the 32 bits of their binary32 encoding: one sign bit, eight exponent
//! bits, twenty-three fraction bits. Ordering two encodings needs no
//! arithmetic on the numbers themselves, because the magnitude of a number
//! grows with the integer that its lower 31 bits spell.
use vstd::prelude::*;

verus! {

/// The sign bit of an encoding.
pub const SIGN_BIT: u32 = 0x8000_0000;

/// The encoding of positive infinity; any larger magnitude is a NaN.
pub const INFINITY: u32 = 0x7F80_0000;

/// The encoding of `0.0`.
pub const ZERO: u32 = 0;

/// The encoding of `1.0`.
pub const ONE: u32 = 0x3F80_0000;

/// The lower 31 bits: the encoding with its sign cleared.
pub open spec fn magnitude(bits: u32) -> u32 {
    if bits >= SIGN_BIT {
        (bits - SIGN_BIT) as u32
    } else {
        bits
    }
}

/// Whether the sign bit is set.
pub open spec fn is_negative(bits: u32) -> bool {
    bits >= SIGN_BIT
}

/// Whether the encoding is a NaN: all exponent bits set and a fraction that
/// is not zero.
pub open spec fn is_nan(bits: u32) -> bool {
    magnitude(bits) > INFINITY
}

/// Whether the encoding is a number other than an infinity.
pub open spec fn is_finite(bits: u32) -> bool {
    magnitude(bits) < INFINITY
}

/// The place of a number on the number line, as an integer: the magnitude,
/// negated under a set sign bit. Both zeros stand at 0. Among encodings that
/// are not NaN, a smaller rank is a smaller number.
pub open spec fn rank(bits: u32) -> int {
    if is_negative(bits) {
        -(magnitude(bits) as int)
    } else {
        magnitude(bits) as int
    }
}

/// `a < b` as numbers. False when either side is a NaN.
pub open spec fn less(a: u32, b: u32) -> bool {
    !is_nan(a) && !is_nan(b) && rank(a) < rank(b)
}

/// `a <= b` as numbers. False when either side is a NaN.
pub open spec fn at_most(a: u32, b: u32) -> bool {
    !is_nan(a) && !is_nan(b) && rank(a) <= rank(b)
}

/// `a == b` as numbers: the two zeros are equal, a NaN equals nothing.
pub open spec fn same_number(a: u32, b: u32) -> bool {
    !is_nan(a) && !is_nan(b) && rank(a) == rank(b)
}

/// `x` held between `low` and `high`: `low` when `x` is below it, `high` when
/// `x` is above it, otherwise `x` itself, a NaN included.
pub open spec fn clamped(x: u32, low: u32, high: u32) -> u32 {
    if less(x, low) {
        low
    } else if less(high, x) {
        high
    } else {
        x
    }
}

/// Tells whether `bits` encodes a NaN.
pub fn nan(bits: u32) -> (r: bool)
    ensures
        r == is_nan(bits),
{
    let m: u32 = if bits >= SIGN_BIT {
        bits - SIGN_BIT
    } else {
        bits
    };
    m > INFINITY
}

/// The rank of `bits` as a machine integer.
pub fn rank_of(bits: u32) -> (r: i64)
    ensures
        r == rank(bits),
{
    if bits >= SIGN_BIT {
        let m: u32 = bits - SIGN_BIT;
        let wide: i64 = m as i64;
        -wide
    } else {
        bits as i64
    }
}

/// Tells whether `a < b` as numbers.
pub fn lt(a: u32, b: u32) -> (r: bool)
    ensures
        r == less(a, b),
{
    !nan(a) && !nan(b) && rank_of(a) < rank_of(b)
}

/// Tells whether `a <= b` as numbers.
pub fn le(a: u32, b: u32) -> (r: bool)
    ensures
        r == at_most(a, b),
{
    !nan(a) && !nan(b) && rank_of(a) <= rank_of(b)
}

/// Holds `x` between `low` and `high`.
///
/// A NaN comes back as it went in. Any other result lies within the bounds,
/// and is `x` itself unless `x` lay outside them.
pub fn clamp(x: u32, low: u32, high: u32) -> (r: u32)
    requires
        at_most(low, high),
    ensures
        r == clamped(x, low, high),
        is_nan(x) ==> r == x,
        !is_nan(x) ==> at_most(low, r) && at_most(r, high),
        less(x, low) ==> r == low,
        less(high, x) ==> r == high,
        at_most(low, x) && at_most(x, high) ==> r == x,
{
    if lt(x, low) {
        low
    } else if lt(high, x) {
        high
    } else {
        x
    }
}

/// Of two numbers exactly one holds: the first is smaller, they are equal,
/// or the second is smaller.
pub proof fn order_is_total(a: u32, b: u32)
    requires
        !is_nan(a),
        !is_nan(b),
    ensures
        less(a, b) || same_number(a, b) || less(b, a),
        !(less(a, b) && same_number(a, b)),
        !(less(a, b) && less(b, a)),
        !(same_number(a, b) && less(b, a)),
        at_most(a, b) <==> less(a, b) || same_number(a, b),
{
}

/// The order is transitive, and no number is below itself.
pub proof fn order_is_strict(a: u32, b: u32, c: u32)
    ensures
        !less(a, a),
        less(a, b) && less(b, c) ==> less(a, c),
        at_most(a, b) && at_most(b, c) ==> at_most(a, c),
        less(a, b) && at_most(b, c) ==> less(a, c),
{
}

/// A NaN is neither below, nor above, nor equal to anything.
pub proof fn nan_is_unordered(a: u32, b: u32)
    requires
        is_nan(a),
    ensures
        !less(a, b),
        !less(b, a),
        !at_most(a, b),
        !at_most(b, a),
        !same_number(a, b),
{
}

/// Clamping keeps the order: of two numbers, the smaller is not the larger
/// once both are clamped to the same bounds.
pub proof fn clamp_is_monotone(x: u32, y: u32, low: u32, high: u32)
    requires
        at_most(low, high),
        at_most(x, y),
    ensures
        at_most(clamped(x, low, high), clamped(y, low, high)),
{
}

/// Clamping twice is clamping once.
pub proof fn clamp_is_idempotent(x: u32, low: u32, high: u32)
    requires
        at_most(low, high),
    ensures
        clamped(clamped(x, low, high), low, high) == clamped(x, low, high),
{
}

} // verus!
