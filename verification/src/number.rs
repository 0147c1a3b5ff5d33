//! Double-precision numbers, carried as their IEEE 754 bit patterns.
//!
//! Everything here is decided on the bits alone: sign, ordering, zero tests,
//! and the reading of a double as a non-negative integer. Arithmetic that
//! rounds is not done here; the interpreter asks its host for it.

use vstd::prelude::*;

verus! {

/// The sign bit.
pub const SIGN: u64 = 0x8000_0000_0000_0000;

/// Every bit but the sign.
pub const MAGNITUDE: u64 = 0x7FFF_FFFF_FFFF_FFFF;

/// Positive infinity; any larger magnitude is a NaN.
pub const INFINITY: u64 = 0x7FF0_0000_0000_0000;

/// The fraction field: the low 52 bits.
pub const FRACTION: u64 = 0x000F_FFFF_FFFF_FFFF;

/// The implicit leading bit of a normal double's significand.
pub const HIDDEN: u64 = 0x0010_0000_0000_0000;

/// The double 1.0.
pub const ONE: u64 = 0x3FF0_0000_0000_0000;

/// The double 2^-52, the distance from 1.0 to the next double.
pub const EPSILON: u64 = 0x3CB0_0000_0000_0000;

/// The biased exponent at which the significand is the value itself.
pub const UNIT_EXPONENT: u64 = 1075;

/// The bits without the sign.
pub open spec fn magnitude(bits: u64) -> u64 {
    bits & MAGNITUDE
}

pub open spec fn is_negative(bits: u64) -> bool {
    bits & SIGN != 0
}

pub open spec fn is_nan(bits: u64) -> bool {
    magnitude(bits) > INFINITY
}

/// Positive and negative zero.
pub open spec fn is_zero(bits: u64) -> bool {
    magnitude(bits) == 0
}

/// The place of a double that is not a NaN on the number line: doubles of
/// one sign are ordered as their magnitudes are, and both zeros share a place.
pub open spec fn place(bits: u64) -> int {
    if is_negative(bits) {
        -(magnitude(bits) as int)
    } else {
        magnitude(bits) as int
    }
}

/// `a < b` as IEEE 754 orders doubles: false whenever a NaN takes part.
pub open spec fn less(a: u64, b: u64) -> bool {
    !is_nan(a) && !is_nan(b) && place(a) < place(b)
}

/// `a <= b` as IEEE 754 orders doubles: false whenever a NaN takes part.
pub open spec fn less_equal(a: u64, b: u64) -> bool {
    !is_nan(a) && !is_nan(b) && place(a) <= place(b)
}

/// The double of opposite sign.
pub open spec fn negated(bits: u64) -> u64 {
    bits ^ SIGN
}

/// Whether a difference is smaller in magnitude than `EPSILON`.
pub open spec fn negligible(difference: u64) -> bool {
    magnitude(difference) < EPSILON
}

/// The double that a boolean coerces to: 1.0 or 0.0.
pub open spec fn of_bool(b: bool) -> u64 {
    if b {
        ONE
    } else {
        0
    }
}

/// The biased exponent field.
pub open spec fn exponent(bits: u64) -> u64 {
    (bits >> 52) & 0x7FF
}

/// The significand of a normal double, hidden bit included.
pub open spec fn significand(bits: u64) -> u64 {
    (bits & FRACTION) | HIDDEN
}

/// The non-negative integer that a double is, if it is one below 2^64.
///
/// Zero of either sign reads as 0. A negative, subnormal, infinite or NaN
/// pattern is no such integer. A normal double is its significand scaled by
/// two to the power `exponent - 1075`: scaling down must lose no bit, and
/// scaling up must stay within 64 bits.
pub open spec fn integer(bits: u64) -> Option<u64> {
    let e = exponent(bits);
    let s = significand(bits);
    if is_zero(bits) {
        Some(0u64)
    } else if is_negative(bits) || e == 0 || e == 0x7FF {
        None
    } else if e >= UNIT_EXPONENT {
        if e - UNIT_EXPONENT <= 11 {
            Some(s << ((e - UNIT_EXPONENT) as u64))
        } else {
            None
        }
    } else if UNIT_EXPONENT - e <= 52 && s & low_mask((UNIT_EXPONENT - e) as u64) == 0 {
        Some(s >> ((UNIT_EXPONENT - e) as u64))
    } else {
        None
    }
}

/// A mask of the `n` lowest bits, for `n` below 64.
pub open spec fn low_mask(n: u64) -> u64 {
    ((1u64 << n) - 1) as u64
}

/// The position in a collection of `len` items that a double names.
pub open spec fn position(bits: u64, len: nat) -> Option<nat> {
    match integer(bits) {
        Some(i) if (i as nat) < len => Some(i as nat),
        _ => None,
    }
}

pub fn nan(bits: u64) -> (r: bool)
    ensures
        r == is_nan(bits),
{
    (bits & MAGNITUDE) > INFINITY
}

pub fn zero(bits: u64) -> (r: bool)
    ensures
        r == is_zero(bits),
{
    (bits & MAGNITUDE) == 0
}

pub fn negate(bits: u64) -> (r: u64)
    ensures
        r == negated(bits),
{
    bits ^ SIGN
}

pub fn from_bool(b: bool) -> (r: u64)
    ensures
        r == of_bool(b),
{
    if b {
        ONE
    } else {
        0
    }
}

pub fn less_than(a: u64, b: u64) -> (r: bool)
    ensures
        r == less(a, b),
{
    let ma: u64 = a & MAGNITUDE;
    let mb: u64 = b & MAGNITUDE;
    if ma > INFINITY || mb > INFINITY {
        return false;
    }
    let na = (a & SIGN) != 0;
    let nb = (b & SIGN) != 0;
    if na {
        if nb {
            mb < ma
        } else {
            ma != 0 || mb != 0
        }
    } else {
        !nb && ma < mb
    }
}

pub fn at_most(a: u64, b: u64) -> (r: bool)
    ensures
        r == less_equal(a, b),
{
    let ma: u64 = a & MAGNITUDE;
    let mb: u64 = b & MAGNITUDE;
    if ma > INFINITY || mb > INFINITY {
        return false;
    }
    let na = (a & SIGN) != 0;
    let nb = (b & SIGN) != 0;
    if na {
        !nb || mb <= ma
    } else if nb {
        ma == 0 && mb == 0
    } else {
        ma <= mb
    }
}

pub fn within_epsilon(difference: u64) -> (r: bool)
    ensures
        r == negligible(difference),
{
    (difference & MAGNITUDE) < EPSILON
}

/// Reads a double as a position in a collection of `len` items.
pub fn to_index(bits: u64, len: usize) -> (r: Option<usize>)
    ensures
        match r {
            Some(i) => position(bits, len as nat) == Some(i as nat),
            None => position(bits, len as nat).is_none(),
        },
{
    if (bits & MAGNITUDE) == 0 {
        return if len > 0 { Some(0) } else { None };
    }
    let e: u64 = (bits >> 52) & 0x7FF;
    if (bits & SIGN) != 0 || e == 0 || e == 0x7FF {
        return None;
    }
    let s: u64 = (bits & FRACTION) | HIDDEN;
    assert(s < 0x0020_0000_0000_0000u64) by (bit_vector)
        requires
            s == (bits & 0x000F_FFFF_FFFF_FFFFu64) | 0x0010_0000_0000_0000u64,
    ;
    let value: u64 = if e >= UNIT_EXPONENT {
        let up: u64 = e - UNIT_EXPONENT;
        if up > 11 {
            return None;
        }
        s << up
    } else {
        let down: u64 = UNIT_EXPONENT - e;
        if down > 52 {
            return None;
        }
        assert((1u64 << down) >= 1) by (bit_vector)
            requires
                down <= 52,
        ;
        let mask: u64 = (1u64 << down) - 1;
        if s & mask != 0 {
            return None;
        }
        s >> down
    };
    if value < len as u64 {
        Some(value as usize)
    } else {
        None
    }
}

/// Negating twice gives the double back.
pub proof fn negation_is_involutive(bits: u64)
    ensures
        negated(negated(bits)) == bits,
{
    assert((bits ^ 0x8000_0000_0000_0000u64) ^ 0x8000_0000_0000_0000u64 == bits) by (bit_vector);
}

/// Negation keeps the magnitude and flips the sign.
pub proof fn negation_flips_sign(bits: u64)
    ensures
        magnitude(negated(bits)) == magnitude(bits),
        is_negative(negated(bits)) == !is_negative(bits),
{
    assert((bits ^ 0x8000_0000_0000_0000u64) & 0x7FFF_FFFF_FFFF_FFFFu64 == bits
        & 0x7FFF_FFFF_FFFF_FFFFu64) by (bit_vector);
    assert(((bits ^ 0x8000_0000_0000_0000u64) & 0x8000_0000_0000_0000u64 != 0) == !(bits
        & 0x8000_0000_0000_0000u64 != 0)) by (bit_vector);
}

} // verus!
