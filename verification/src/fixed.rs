//! Fixed-point arithmetic.
//!
//! Every quantity that the engine stores or decides on (a sample, a ratio,
//! a magnitude, a frequency in hertz, an offset in cents, a time in
//! milliseconds) is a signed 64-bit count of 10⁻¹² of its unit. The helpers
//! here widen to 128 bits, divide with a floor, and saturate back.

use vstd::prelude::*;
use vstd::arithmetic::div_mod::lemma_fundamental_div_mod_converse;

verus! {

/// The fixed-point representation of 1.
pub const UNIT: i64 = 1_000_000_000_000;

/// `x` clamped to the range of a signed 64-bit integer.
pub open spec fn sat(x: int) -> int {
    if x < i64::MIN {
        i64::MIN as int
    } else if x > i64::MAX {
        i64::MAX as int
    } else {
        x
    }
}

/// `x` clamped to the closed interval `[lo, hi]`.
pub open spec fn clamp(x: int, lo: int, hi: int) -> int {
    if x < lo {
        lo
    } else if x > hi {
        hi
    } else {
        x
    }
}

/// The absolute value of `x`.
pub open spec fn abs(x: int) -> int {
    if x < 0 {
        -x
    } else {
        x
    }
}

/// The greatest integer not above the real quotient `a / b`, for any sign of
/// a nonzero `b`; zero when `b` is zero.
pub open spec fn floor_quot(a: int, b: int) -> int {
    if b > 0 {
        a / b
    } else if b < 0 {
        (-a) / (-b)
    } else {
        0
    }
}

/// The least integer not below the real quotient `a / b`, for any sign of a
/// nonzero `b`; zero when `b` is zero.
pub open spec fn ceil_quot(a: int, b: int) -> int {
    -floor_quot(-a, b)
}

/// Dividing by a positive divisor brings a value no further from zero.
pub proof fn lemma_floor_div_bounded(a: int, b: int)
    requires
        b > 0,
    ensures
        a >= 0 ==> 0 <= a / b <= a,
        a < 0 ==> a <= a / b < 0,
{
    vstd::arithmetic::div_mod::lemma_fundamental_div_mod(a, b);
    vstd::arithmetic::div_mod::lemma_mod_bound(a, b);
    let q: int = a / b;
    let r: int = a % b;
    if a >= 0 {
        assert(0 <= q <= a) by (nonlinear_arith)
            requires
                a == b * q + r,
                0 <= r < b,
                b > 0,
                a >= 0,
        ;
    } else {
        assert(a <= q < 0) by (nonlinear_arith)
            requires
                a == b * q + r,
                0 <= r < b,
                b > 0,
                a < 0,
        ;
    }
}

/// Narrows a 128-bit value to 64 bits, saturating at both ends.
pub fn saturate(x: i128) -> (r: i64)
    ensures
        r == sat(x as int),
{
    if x < i64::MIN as i128 {
        i64::MIN
    } else if x > i64::MAX as i128 {
        i64::MAX
    } else {
        x as i64
    }
}

/// Floor division by a positive divisor.
pub fn floor_div(a: i128, b: i128) -> (q: i128)
    requires
        b > 0,
    ensures
        q == a / b,
        q == floor_quot(a as int, b as int),
{
    if a >= 0 {
        a / b
    } else {
        let m: i128 = -(a + 1);
        let t: i128 = m / b;
        proof {
            let r: int = m as int % b as int;
            vstd::arithmetic::div_mod::lemma_fundamental_div_mod(m as int, b as int);
            vstd::arithmetic::div_mod::lemma_mod_bound(m as int, b as int);
            assert(m == b * t + r);
            assert(a == b * (-t - 1) + (b - 1 - r)) by (nonlinear_arith)
                requires
                    m == b * t + r,
                    m == -(a + 1),
            ;
            lemma_fundamental_div_mod_converse(a as int, b as int, -t - 1, b - 1 - r);
        }
        -t - 1
    }
}

/// The remainder of floor division by a positive divisor: never negative.
pub fn modulo(a: i128, b: i128) -> (r: i128)
    requires
        b > 0,
    ensures
        r == a % b,
        0 <= r < b,
{
    proof {
        vstd::arithmetic::div_mod::lemma_mod_bound(a as int, b as int);
    }
    if a >= 0 {
        a % b
    } else {
        let m: i128 = -(a + 1);
        let t: i128 = m % b;
        proof {
            let q: int = m as int / b as int;
            vstd::arithmetic::div_mod::lemma_fundamental_div_mod(m as int, b as int);
            vstd::arithmetic::div_mod::lemma_mod_bound(m as int, b as int);
            assert(a == b * (-q - 1) + (b - 1 - t)) by (nonlinear_arith)
                requires
                    m == b * q + t,
                    m == -(a + 1),
            ;
            lemma_fundamental_div_mod_converse(a as int, b as int, -q - 1, b - 1 - t);
        }
        b - 1 - t
    }
}

/// Ceiling division of a nonnegative value by a positive divisor.
pub fn ceil_div(a: i128, b: i128) -> (q: i128)
    requires
        b > 0,
        a >= 0,
        a + b <= i128::MAX,
    ensures
        q == ceil_quot(a as int, b as int),
        q >= 0,
{
    proof {
        let t: int = (-a) / (b as int);
        let r: int = (-a) % (b as int);
        vstd::arithmetic::div_mod::lemma_fundamental_div_mod(-a, b as int);
        vstd::arithmetic::div_mod::lemma_mod_bound(-a, b as int);
        assert(a + b - 1 == b * (-t) + (b - 1 - r)) by (nonlinear_arith)
            requires
                -a == b * t + r,
        ;
        lemma_fundamental_div_mod_converse(a + b - 1, b as int, -t, b - 1 - r);
        vstd::arithmetic::div_mod::lemma_div_pos_is_pos(a + b - 1, b as int);
    }
    floor_div(a + b - 1, b)
}

/// The product of two 64-bit values, which always fits in 128 bits.
pub fn mul_wide(a: i64, b: i64) -> (p: i128)
    ensures
        p == a * b,
{
    assert(-0x4000_0000_0000_0000_0000_0000_0000_0000 <= a * b
        <= 0x4000_0000_0000_0000_0000_0000_0000_0000) by (nonlinear_arith)
        requires
            -0x8000_0000_0000_0000 <= a <= 0x8000_0000_0000_0000,
            -0x8000_0000_0000_0000 <= b <= 0x8000_0000_0000_0000,
    ;
    a as i128 * b as i128
}

/// Floor division by any nonzero divisor.
pub fn floor_div_signed(a: i128, b: i128) -> (q: i128)
    requires
        b != 0,
        a > i128::MIN,
        b > i128::MIN,
    ensures
        q == floor_quot(a as int, b as int),
{
    if b > 0 {
        floor_div(a, b)
    } else {
        floor_div(-a, -b)
    }
}

} // verus!
