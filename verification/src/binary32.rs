//! IEEE 754 single-precision numbers, held as their 32-bit patterns.
//!
//! Coordinates cross this library as the bit pattern of a single-precision
//! number: bit 31 is the sign, bits 30..23 the exponent, bits 22..0 the
//! fraction. Every test the library makes on a coordinate is a comparison,
//! and the order of two numbers can be read from their patterns alone: among
//! numbers of one sign the pattern without its sign bit grows with the
//! absolute value. No arithmetic on such numbers is done here.

use vstd::prelude::*;
use vstd::arithmetic::power2::{lemma2_to64, lemma_pow2_adds, lemma_pow2_pos, lemma_pow2_strictly_increases, pow2};

verus! {

/// The sign bit; every pattern at or above it is negative.
pub const SIGN_BIT: u32 = 0x8000_0000;

/// Pattern of positive infinity. A larger magnitude is not a number.
pub const INFINITY: u32 = 0x7f80_0000;

/// Pattern of 1.
pub const ONE: u32 = 0x3f80_0000;

/// Pattern of 100.
pub const HUNDRED: u32 = 0x42c8_0000;

/// Pattern of -100.
pub const MINUS_HUNDRED: u32 = 0xc2c8_0000;

/// The pattern without its sign bit: the pattern of the absolute value.
pub open spec fn magnitude(bits: u32) -> int {
    (bits % SIGN_BIT) as int
}

/// The sign bit is set. Holds of -0 too.
pub open spec fn negative(bits: u32) -> bool {
    bits >= SIGN_BIT
}

/// The pattern is not a number: exponent all ones, fraction not zero.
pub open spec fn nan(bits: u32) -> bool {
    magnitude(bits) > INFINITY
}

/// The pattern is a number other than an infinity.
pub open spec fn finite(bits: u32) -> bool {
    magnitude(bits) < INFINITY
}

/// An integer that orders the numbers as their values do: for patterns
/// `a` and `b` of numbers, `a` is at most `b` exactly if
/// `order_key(a) <= order_key(b)`. Both zeros have key 0.
pub open spec fn order_key(bits: u32) -> int {
    if negative(bits) {
        -magnitude(bits)
    } else {
        magnitude(bits)
    }
}

/// The comparison `a <= b` of the two numbers. False where either is not a
/// number.
pub open spec fn le(a: u32, b: u32) -> bool {
    !nan(a) && !nan(b) && order_key(a) <= order_key(b)
}

/// The comparison `|a| < |b|` of the two absolute values. False where either
/// is not a number.
pub open spec fn abs_lt(a: u32, b: u32) -> bool {
    !nan(a) && !nan(b) && magnitude(a) < magnitude(b)
}

/// Whether `bits` is a number other than an infinity.
pub fn is_finite(bits: u32) -> (r: bool)
    ensures
        r == finite(bits),
{
    bits % SIGN_BIT < INFINITY
}

/// Whether `bits` is not a number.
pub fn is_nan(bits: u32) -> (r: bool)
    ensures
        r == nan(bits),
{
    bits % SIGN_BIT > INFINITY
}

/// The order key of `bits` as a machine integer.
pub fn key_of(bits: u32) -> (k: i64)
    ensures
        k == order_key(bits),
{
    let m: u32 = bits % SIGN_BIT;
    if bits >= SIGN_BIT {
        0 - (m as i64)
    } else {
        m as i64
    }
}

/// Whether the number `a` is at most the number `b`.
pub fn is_le(a: u32, b: u32) -> (r: bool)
    ensures
        r == le(a, b),
{
    !is_nan(a) && !is_nan(b) && key_of(a) <= key_of(b)
}

/// Whether the absolute value of `a` is below that of `b`.
pub fn is_abs_lt(a: u32, b: u32) -> (r: bool)
    ensures
        r == abs_lt(a, b),
{
    !is_nan(a) && !is_nan(b) && a % SIGN_BIT < b % SIGN_BIT
}

/// The exponent field, bits 30..23.
pub open spec fn exponent(bits: u32) -> int {
    magnitude(bits) / 0x80_0000
}

/// The fraction field, bits 22..0.
pub open spec fn fraction(bits: u32) -> int {
    magnitude(bits) % 0x80_0000
}

/// The absolute value of a finite number, counted in steps of 2^-149, the
/// distance between the smallest numbers: a whole number of steps. With the
/// exponent field at 0 the fraction counts the steps; otherwise the value is
/// (1 + fraction / 2^23) * 2^(exponent - 127).
pub open spec fn scaled_magnitude(bits: u32) -> int {
    if exponent(bits) == 0 {
        fraction(bits)
    } else {
        (0x80_0000 + fraction(bits)) * pow2((exponent(bits) - 1) as nat)
    }
}

/// A finite number, counted in steps of 2^-149.
pub open spec fn scaled_value(bits: u32) -> int {
    if negative(bits) {
        -scaled_magnitude(bits)
    } else {
        scaled_magnitude(bits)
    }
}

/// The larger pattern without sign stands for the larger absolute value.
pub proof fn lemma_scaled_magnitude_increases(a: u32, b: u32)
    requires
        magnitude(a) < magnitude(b),
    ensures
        0 <= scaled_magnitude(a) < scaled_magnitude(b),
{
    let (ea, fa) = (exponent(a), fraction(a));
    let (eb, fb) = (exponent(b), fraction(b));
    if ea == 0 {
        if eb > 0 {
            let high = pow2((eb - 1) as nat) as int;
            lemma_pow2_pos((eb - 1) as nat);
            assert(fa < (0x80_0000 + fb) * high) by (nonlinear_arith)
                requires
                    fa < 0x80_0000,
                    fb >= 0,
                    high >= 1,
            ;
        }
    } else {
        let low = pow2((ea - 1) as nat) as int;
        let high = pow2((eb - 1) as nat) as int;
        lemma_pow2_pos((ea - 1) as nat);
        if ea < eb {
            assert(2 * low <= high) by {
                if ea < eb - 1 {
                    lemma_pow2_strictly_increases(ea as nat, (eb - 1) as nat);
                }
                lemma_pow2_adds(1, (ea - 1) as nat);
                lemma2_to64();
            }
            assert((0x80_0000 + fa) * low < (0x80_0000 + fb) * high) by (nonlinear_arith)
                requires
                    0 <= fa < 0x80_0000,
                    fb >= 0,
                    low >= 1,
                    2 * low <= high,
            ;
        } else {
            assert((0x80_0000 + fa) * low < (0x80_0000 + fb) * low) by (nonlinear_arith)
                requires
                    0 <= fa < fb,
                    low >= 1,
            ;
        }
    }
}

/// The order of the keys is the order of the numbers, and the order of the
/// patterns without sign is the order of the absolute values.
pub proof fn lemma_order_is_numeric(a: u32, b: u32)
    ensures
        (order_key(a) <= order_key(b)) == (scaled_value(a) <= scaled_value(b)),
        (magnitude(a) < magnitude(b)) == (scaled_magnitude(a) < scaled_magnitude(b)),
        scaled_magnitude(a) >= 0,
        (magnitude(a) == 0) == (scaled_magnitude(a) == 0),
{
    if magnitude(a) < magnitude(b) {
        lemma_scaled_magnitude_increases(a, b);
    } else if magnitude(b) < magnitude(a) {
        lemma_scaled_magnitude_increases(b, a);
    }
    if magnitude(a) > 0 {
        lemma_scaled_magnitude_increases(0, a);
    }
    if magnitude(b) > 0 {
        lemma_scaled_magnitude_increases(0, b);
    }
}

/// The named patterns stand for 1, 100 and -100.
pub proof fn lemma_named_numbers()
    ensures
        scaled_value(ONE) == pow2(149),
        scaled_value(HUNDRED) == 100 * pow2(149),
        scaled_value(MINUS_HUNDRED) == -100 * pow2(149),
{
    lemma2_to64();
    lemma_pow2_adds(23, 126);
    lemma_pow2_adds(17, 132);
    assert(0xc8_0000 * pow2(132) == 100 * (pow2(17) * pow2(132))) by (nonlinear_arith)
        requires
            pow2(17) == 0x2_0000,
    ;
}

} // verus!
