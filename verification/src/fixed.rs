//! Saturating fixed-point arithmetic for audio samples and DSP
//! coefficients.
//!
//! A value `x` stands for the real number `x / FX_ONE`; full scale (1.0)
//! is `FX_ONE`. All operations clamp their result into
//! `[-FX_SAT, FX_SAT]`, so every value the DSP chain produces stays far
//! inside the `i64` range and products of two values always fit in
//! `i128`.

use vstd::prelude::*;

verus! {

/// Full scale: 1.0 in fixed point (2^24).
pub const FX_ONE: i64 = 0x100_0000;

/// Saturation bound for every fixed-point value (2^50).
pub const FX_SAT: i64 = 0x4_0000_0000_0000;

/// Absolute value, as a mathematical integer.
pub open spec fn spec_abs(x: int) -> int {
    if x < 0 {
        -x
    } else {
        x
    }
}

/// Division truncated towards zero (the semantics of the underlying
/// hardware division), for a positive divisor.
pub open spec fn spec_tdiv(x: int, d: int) -> int {
    if x >= 0 {
        x / d
    } else {
        -((-x) / d)
    }
}

/// Clamp into the saturation range.
pub open spec fn spec_clamp(x: int) -> int {
    if x > FX_SAT {
        FX_SAT as int
    } else if x < -FX_SAT {
        -FX_SAT as int
    } else {
        x
    }
}

pub open spec fn fx_in_range(x: int) -> bool {
    -FX_SAT <= x <= FX_SAT
}

/// Fixed-point product: `a * b / FX_ONE`, truncated towards zero and
/// clamped.
pub open spec fn spec_fx_mul(a: int, b: int) -> int {
    spec_clamp(spec_tdiv(a * b, FX_ONE as int))
}

/// Fixed-point quotient: `a * FX_ONE / b`, truncated towards zero
/// (stated through the magnitudes, which is the same thing) and
/// clamped; division by zero saturates in the direction of the
/// numerator's sign.
pub open spec fn spec_fx_div(a: int, b: int) -> int {
    if b == 0 {
        if a > 0 {
            FX_SAT as int
        } else if a < 0 {
            -FX_SAT as int
        } else {
            0
        }
    } else if (a < 0) != (b < 0) {
        -spec_clamp((spec_abs(a) * FX_ONE) / spec_abs(b))
    } else {
        spec_clamp((spec_abs(a) * FX_ONE) / spec_abs(b))
    }
}

/// Saturating sum.
pub open spec fn spec_fx_add(a: int, b: int) -> int {
    spec_clamp(a + b)
}

/// Saturating difference.
pub open spec fn spec_fx_sub(a: int, b: int) -> int {
    spec_clamp(a - b)
}

/// Clamp an `i128` intermediate into the saturation range.
pub fn clamp128(x: i128) -> (r: i64)
    ensures
        r == spec_clamp(x as int),
        fx_in_range(r as int),
{
    if x > FX_SAT as i128 {
        FX_SAT
    } else if x < -(FX_SAT as i128) {
        -FX_SAT
    } else {
        x as i64
    }
}

/// Magnitude of an `i64` as a `u64` (total, also at `i64::MIN`).
pub fn abs_u64(a: i64) -> (r: u64)
    ensures
        r == spec_abs(a as int),
{
    if a >= 0 {
        a as u64
    } else {
        (-(a as i128)) as u64
    }
}

/// Saturating absolute value.
pub fn fx_abs(a: i64) -> (r: i64)
    ensures
        r == spec_clamp(spec_abs(a as int)),
{
    if a >= 0 {
        clamp128(a as i128)
    } else {
        clamp128(-(a as i128))
    }
}

/// Fixed-point multiplication, truncated towards zero and clamped.
pub fn fx_mul(a: i64, b: i64) -> (r: i64)
    ensures
        r == spec_fx_mul(a as int, b as int),
{
    let ua: u64 = abs_u64(a);
    let ub: u64 = abs_u64(b);
    proof {
        assert((ua as int) * (ub as int) <= 0x8000_0000_0000_0000int * 0x8000_0000_0000_0000int)
            by (nonlinear_arith)
            requires
                0 <= ua as int <= 0x8000_0000_0000_0000int,
                0 <= ub as int <= 0x8000_0000_0000_0000int,
        ;
    }
    let prod: u128 = (ua as u128) * (ub as u128);
    let q: u128 = prod / (FX_ONE as u128);
    let mag: i64 = if q > FX_SAT as u128 {
        FX_SAT
    } else {
        q as i64
    };
    let neg: bool = (a < 0) != (b < 0);
    proof {
        lemma_mul_magnitude_sign(a as int, b as int);
    }
    if neg {
        -mag
    } else {
        mag
    }
}

/// Fixed-point division, truncated towards zero and clamped; division
/// by zero saturates.
pub fn fx_div(a: i64, b: i64) -> (r: i64)
    ensures
        r == spec_fx_div(a as int, b as int),
{
    if b == 0 {
        if a > 0 {
            FX_SAT
        } else if a < 0 {
            -FX_SAT
        } else {
            0
        }
    } else {
        let ua: u64 = abs_u64(a);
        let ub: u64 = abs_u64(b);
        proof {
            assert((ua as int) * (FX_ONE as int) <= 0x8000_0000_0000_0000int * 0x100_0000int)
                by (nonlinear_arith)
                requires
                    0 <= ua as int <= 0x8000_0000_0000_0000int,
            ;
        }
        let num: u128 = (ua as u128) * (FX_ONE as u128);
        let q: u128 = num / (ub as u128);
        let mag: i64 = if q > FX_SAT as u128 {
            FX_SAT
        } else {
            q as i64
        };
        let neg: bool = (a < 0) != (b < 0);
        if neg {
            -mag
        } else {
            mag
        }
    }
}

/// Saturating addition.
pub fn fx_add(a: i64, b: i64) -> (r: i64)
    ensures
        r == spec_fx_add(a as int, b as int),
{
    clamp128(a as i128 + b as i128)
}

/// Saturating subtraction.
pub fn fx_sub(a: i64, b: i64) -> (r: i64)
    ensures
        r == spec_fx_sub(a as int, b as int),
{
    clamp128(a as i128 - b as i128)
}

/// Division of a fixed-point value by a plain positive integer,
/// truncated towards zero.
pub fn fx_div_int(a: i64, n: i64) -> (r: i64)
    requires
        n > 0,
    ensures
        r == spec_tdiv(a as int, n as int),
        spec_abs(r as int) <= spec_abs(a as int),
{
    let ua: u64 = abs_u64(a);
    let q: u64 = ua / (n as u64);
    if a < 0 {
        (-(q as i128)) as i64
    } else {
        q as i64
    }
}

/// Clamp into an arbitrary closed interval.
pub fn fx_clamp_to(x: i64, lo: i64, hi: i64) -> (r: i64)
    requires
        lo <= hi,
    ensures
        r == if x < lo {
            lo as int
        } else if x > hi {
            hi as int
        } else {
            x as int
        },
{
    if x < lo {
        lo
    } else if x > hi {
        hi
    } else {
        x
    }
}

/// `m / FX_ONE` lies in `[0, k]` whenever `m` lies in
/// `[0, FX_ONE * k]`.
pub proof fn lemma_div_le_scaled(m: int, k: int)
    requires
        0 <= m <= FX_ONE * k,
        0 <= k,
    ensures
        0 <= m / (FX_ONE as int) <= k,
{
    vstd::arithmetic::div_mod::lemma_div_is_ordered(m, FX_ONE * k, FX_ONE as int);
    vstd::arithmetic::div_mod::lemma_div_multiples_vanish(k, FX_ONE as int);
    vstd::arithmetic::div_mod::lemma_div_pos_is_pos(m, FX_ONE as int);
}

/// Multiplying by a factor in `[0, FX_ONE]` cannot grow a value's
/// magnitude, and keeps (or zeroes) its sign.
pub proof fn lemma_fx_mul_factor_le_one(c: int, d: int)
    requires
        0 <= c <= FX_ONE,
        -FX_SAT <= d <= FX_SAT,
    ensures
        d >= 0 ==> 0 <= spec_fx_mul(c, d) <= d,
        d < 0 ==> d <= spec_fx_mul(c, d) <= 0,
{
    let m = c * spec_abs(d);
    assert(0 <= c * spec_abs(d) <= FX_ONE * spec_abs(d)) by (nonlinear_arith)
        requires
            0 <= c <= FX_ONE,
            0 <= spec_abs(d),
    ;
    lemma_div_le_scaled(m, spec_abs(d));
    if d >= 0 {
        assert(c * d == m) by (nonlinear_arith)
            requires
                d >= 0,
                m == c * spec_abs(d),
                spec_abs(d) == d,
        ;
    } else {
        assert(c * d == -m) by (nonlinear_arith)
            requires
                d < 0,
                m == c * spec_abs(d),
                spec_abs(d) == -d,
        ;
    }
}

/// A product with a factor of magnitude at most `FX_ONE` cannot grow
/// the other operand's magnitude; the sign is the product's sign.
pub proof fn lemma_fx_mul_contract(a: int, b: int)
    requires
        spec_abs(a) <= FX_ONE,
        spec_abs(b) <= FX_SAT,
    ensures
        spec_abs(spec_fx_mul(a, b)) <= spec_abs(b),
        (a >= 0 && b >= 0) || (a <= 0 && b <= 0) ==> spec_fx_mul(a, b) >= 0,
        (a >= 0 && b <= 0) || (a <= 0 && b >= 0) ==> spec_fx_mul(a, b) <= 0,
{
    assert(0 <= spec_abs(a) * spec_abs(b) <= FX_ONE * spec_abs(b)) by (nonlinear_arith)
        requires
            0 <= spec_abs(a) <= FX_ONE,
            0 <= spec_abs(b),
    ;
    lemma_div_le_scaled(spec_abs(a) * spec_abs(b), spec_abs(b));
    vstd::arithmetic::div_mod::lemma_div_of0(FX_ONE as int);
    if a == 0 || b == 0 {
        assert(a * b == 0) by (nonlinear_arith)
            requires
                a == 0 || b == 0,
        ;
        assert(spec_fx_mul(a, b) == 0);
    } else if a >= 0 && b >= 0 {
        assert(a * b == spec_abs(a) * spec_abs(b)) by (nonlinear_arith)
            requires
                a >= 0,
                b >= 0,
                spec_abs(a) == a,
                spec_abs(b) == b,
        ;
    } else if a < 0 && b < 0 {
        assert(a * b == spec_abs(a) * spec_abs(b)) by (nonlinear_arith)
            requires
                a < 0,
                b < 0,
                spec_abs(a) == -a,
                spec_abs(b) == -b,
        ;
    } else if a >= 0 {
        assert(a * b == -(spec_abs(a) * spec_abs(b))) by (nonlinear_arith)
            requires
                a >= 0,
                b < 0,
                spec_abs(a) == a,
                spec_abs(b) == -b,
        ;
    } else {
        assert(a * b == -(spec_abs(a) * spec_abs(b))) by (nonlinear_arith)
            requires
                a < 0,
                b >= 0,
                spec_abs(a) == -a,
                spec_abs(b) == b,
        ;
    }
}

/// Multiplying a value in range by exactly `FX_ONE` returns it
/// unchanged.
pub proof fn lemma_fx_mul_one(x: int)
    requires
        -FX_SAT <= x <= FX_SAT,
    ensures
        spec_fx_mul(x, FX_ONE as int) == x,
        spec_fx_mul(FX_ONE as int, x) == x,
{
    assert(x * FX_ONE == FX_ONE * x) by (nonlinear_arith);
    if x >= 0 {
        vstd::arithmetic::div_mod::lemma_div_multiples_vanish(x, FX_ONE as int);
    } else {
        assert(-(x * FX_ONE) == FX_ONE * (-x)) by (nonlinear_arith);
        vstd::arithmetic::div_mod::lemma_div_multiples_vanish(-x, FX_ONE as int);
    }
}

/// The fixed-point product does not depend on the operand order.
pub proof fn lemma_fx_mul_comm(a: int, b: int)
    ensures
        spec_fx_mul(a, b) == spec_fx_mul(b, a),
{
    assert(a * b == b * a) by (nonlinear_arith);
}

/// A product's magnitude is the product of the magnitudes, and its
/// sign follows the operands' signs.
proof fn lemma_mul_magnitude_sign(a: int, m: int)
    ensures
        spec_abs(a * m) == spec_abs(a) * spec_abs(m),
        a * m >= 0 <==> (a >= 0 && m >= 0) || (a <= 0 && m <= 0),
{
    assert(spec_abs(a * m) == spec_abs(a) * spec_abs(m)) by (nonlinear_arith);
    assert(a * m >= 0 <==> (a >= 0 && m >= 0) || (a <= 0 && m <= 0)) by (nonlinear_arith);
}

} // verus!
