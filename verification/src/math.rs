//! Elementary functions on fixed-point values: integer square root,
//! sine and cosine on `[0, pi]`, and the exponential — everything the
//! filter-coefficient formulas need.
//!
//! The square root is exact (the floor of the real root). Sine,
//! cosine and the exponential are truncated power series whose
//! contracts state the computed polynomial itself; the series are
//! chosen so the mathematical error is far below the fixed-point
//! resolution of the audio path.

use vstd::prelude::*;

use crate::fixed::{
    FX_ONE,
    fx_add,
    fx_clamp_to,
    fx_div_int,
    fx_mul,
    fx_sub,
    spec_abs,
    spec_clamp,
    spec_fx_add,
    spec_fx_mul,
    spec_fx_sub,
    spec_tdiv,
};

verus! {

/// pi in fixed point (rounded to the nearest representable value).
pub const FX_PI: i64 = 52707179;

/// pi / 2 in fixed point.
pub const FX_HALF_PI: i64 = 26353589;

/// `r` is the floor of the square root of `x` read as a fixed-point
/// value: the greatest non-negative integer whose square is at most
/// `x * FX_ONE`.
pub open spec fn is_sqrt_floor(x: int, r: int) -> bool {
    r >= 0 && r * r <= x * FX_ONE && x * FX_ONE < (r + 1) * (r + 1)
}

/// The fixed-point square root (0 for non-positive input), as the
/// unique root floor.
pub open spec fn spec_fx_sqrt(x: int) -> int {
    if x <= 0 {
        0
    } else {
        choose|r: int| is_sqrt_floor(x, r)
    }
}

/// Two root floors of the same value coincide.
pub proof fn lemma_sqrt_floor_unique(x: int, r1: int, r2: int)
    requires
        is_sqrt_floor(x, r1),
        is_sqrt_floor(x, r2),
    ensures
        r1 == r2,
{
    assert(r1 == r2) by (nonlinear_arith)
        requires
            r1 >= 0,
            r2 >= 0,
            r1 * r1 <= x * FX_ONE,
            x * FX_ONE < (r1 + 1) * (r1 + 1),
            r2 * r2 <= x * FX_ONE,
            x * FX_ONE < (r2 + 1) * (r2 + 1),
    ;
}

/// Square root: the exact floor of the root of `x * FX_ONE`, which is
/// the fixed-point representation of `sqrt(x / FX_ONE)`; 0 for
/// non-positive input.
pub fn fx_sqrt(x: i64) -> (r: i64)
    ensures
        r == spec_fx_sqrt(x as int),
        r >= 0,
        x > 0 ==> is_sqrt_floor(x as int, r as int),
{
    if x <= 0 {
        return 0;
    }
    proof {
        assert((x as int) * (FX_ONE as int) < 0x8000_0000_0000_0000int * 0x100_0000int)
            by (nonlinear_arith)
            requires
                0 < x as int,
                (x as int) < 0x8000_0000_0000_0000int,
        ;
        assert(0x1000_0000_0000int * 0x1000_0000_0000int > 0x8000_0000_0000_0000int
            * 0x100_0000int) by (nonlinear_arith);
    }
    let v: u128 = (x as u128) * (FX_ONE as u128);
    let mut lo: u128 = 0;
    let mut hi: u128 = 0x1000_0000_0000;
    while lo + 1 < hi
        invariant
            0 <= lo < hi <= 0x1000_0000_0000,
            (lo as int) * (lo as int) <= v as int,
            (v as int) < (hi as int) * (hi as int),
        decreases hi - lo,
    {
        let mid: u128 = lo + (hi - lo) / 2;
        proof {
            assert((mid as int) * (mid as int) <= 0x1000_0000_0000int * 0x1000_0000_0000int)
                by (nonlinear_arith)
                requires
                    0 <= mid as int <= 0x1000_0000_0000int,
            ;
        }
        if mid * mid <= v {
            lo = mid;
        } else {
            hi = mid;
        }
    }
    proof {
        assert(is_sqrt_floor(x as int, lo as int));
        assert(exists|r: int| is_sqrt_floor(x as int, r));
        assert(is_sqrt_floor(x as int, choose|r: int| is_sqrt_floor(x as int, r)));
        lemma_sqrt_floor_unique(x as int, lo as int, spec_fx_sqrt(x as int));
    }
    lo as i64
}

/// The truncated sine series on the reduced argument.
pub open spec fn spec_sin_poly(s: int) -> int {
    let s2 = spec_fx_mul(s, s);
    let s3 = spec_fx_mul(s2, s);
    let s5 = spec_fx_mul(s3, s2);
    let s7 = spec_fx_mul(s5, s2);
    let s9 = spec_fx_mul(s7, s2);
    let t = spec_fx_sub(s, spec_tdiv(s3, 6));
    let t = spec_fx_add(t, spec_tdiv(s5, 120));
    let t = spec_fx_sub(t, spec_tdiv(s7, 5040));
    spec_fx_add(t, spec_tdiv(s9, 362880))
}

/// Sine on `[0, pi]` (arguments outside are clamped into it),
/// computed as the odd power series through the ninth power on the
/// quarter wave, clamped into `[0, FX_ONE]`.
pub open spec fn spec_fx_sin(x: int) -> int {
    let xc = if x < 0 {
        0
    } else if x > FX_PI {
        FX_PI as int
    } else {
        x
    };
    let s = if xc <= FX_HALF_PI {
        xc
    } else {
        FX_PI - xc
    };
    let raw = spec_sin_poly(s);
    if raw < 0 {
        0
    } else if raw > FX_ONE {
        FX_ONE as int
    } else {
        raw
    }
}

pub fn fx_sin(x: i64) -> (r: i64)
    ensures
        r == spec_fx_sin(x as int),
        0 <= r <= FX_ONE,
{
    let xc: i64 = fx_clamp_to(x, 0, FX_PI);
    let s: i64 = if xc <= FX_HALF_PI {
        xc
    } else {
        FX_PI - xc
    };
    let s2: i64 = fx_mul(s, s);
    let s3: i64 = fx_mul(s2, s);
    let s5: i64 = fx_mul(s3, s2);
    let s7: i64 = fx_mul(s5, s2);
    let s9: i64 = fx_mul(s7, s2);
    let mut t: i64 = fx_sub(s, fx_div_int(s3, 6));
    t = fx_add(t, fx_div_int(s5, 120));
    t = fx_sub(t, fx_div_int(s7, 5040));
    t = fx_add(t, fx_div_int(s9, 362880));
    fx_clamp_to(t, 0, FX_ONE)
}

/// The truncated cosine series on the reduced argument.
pub open spec fn spec_cos_poly(c: int) -> int {
    let c2 = spec_fx_mul(c, c);
    let c4 = spec_fx_mul(c2, c2);
    let c6 = spec_fx_mul(c4, c2);
    let c8 = spec_fx_mul(c6, c2);
    let t = spec_fx_sub(FX_ONE as int, spec_tdiv(c2, 2));
    let t = spec_fx_add(t, spec_tdiv(c4, 24));
    let t = spec_fx_sub(t, spec_tdiv(c6, 720));
    spec_fx_add(t, spec_tdiv(c8, 40320))
}

/// Cosine on `[0, pi]` (arguments outside are clamped into it),
/// computed as the even power series through the eighth power on the
/// quarter wave and mirrored with a sign flip on the second quarter,
/// clamped into `[-FX_ONE, FX_ONE]`.
pub open spec fn spec_fx_cos(x: int) -> int {
    let xc = if x < 0 {
        0
    } else if x > FX_PI {
        FX_PI as int
    } else {
        x
    };
    if xc <= FX_HALF_PI {
        let raw = spec_cos_poly(xc);
        if raw < -FX_ONE {
            -FX_ONE as int
        } else if raw > FX_ONE {
            FX_ONE as int
        } else {
            raw
        }
    } else {
        let raw = spec_cos_poly(FX_PI - xc);
        let clamped = if raw < -FX_ONE {
            -FX_ONE as int
        } else if raw > FX_ONE {
            FX_ONE as int
        } else {
            raw
        };
        -clamped
    }
}

pub fn fx_cos(x: i64) -> (r: i64)
    ensures
        r == spec_fx_cos(x as int),
        -FX_ONE <= r <= FX_ONE,
{
    let xc: i64 = fx_clamp_to(x, 0, FX_PI);
    let (c, flip): (i64, bool) = if xc <= FX_HALF_PI {
        (xc, false)
    } else {
        (FX_PI - xc, true)
    };
    let c2: i64 = fx_mul(c, c);
    let c4: i64 = fx_mul(c2, c2);
    let c6: i64 = fx_mul(c4, c2);
    let c8: i64 = fx_mul(c6, c2);
    let mut t: i64 = fx_sub(FX_ONE, fx_div_int(c2, 2));
    t = fx_add(t, fx_div_int(c4, 24));
    t = fx_sub(t, fx_div_int(c6, 720));
    t = fx_add(t, fx_div_int(c8, 40320));
    let clamped: i64 = fx_clamp_to(t, -FX_ONE, FX_ONE);
    if flip {
        -clamped
    } else {
        clamped
    }
}

/// The truncated exponential series on the reduced argument, clamped
/// to stay non-negative.
pub open spec fn spec_exp_poly(t: int) -> int {
    let t2 = spec_fx_mul(t, t);
    let t3 = spec_fx_mul(t2, t);
    let t4 = spec_fx_mul(t3, t);
    let t5 = spec_fx_mul(t4, t);
    let t6 = spec_fx_mul(t5, t);
    let p = spec_fx_add(FX_ONE as int, t);
    let p = spec_fx_add(p, spec_tdiv(t2, 2));
    let p = spec_fx_add(p, spec_tdiv(t3, 6));
    let p = spec_fx_add(p, spec_tdiv(t4, 24));
    let p = spec_fx_add(p, spec_tdiv(t5, 120));
    let p = spec_fx_add(p, spec_tdiv(t6, 720));
    if p < 0 {
        0
    } else {
        p
    }
}

/// The exponential on `[-4, 4]` (arguments outside are clamped into
/// it): the sixth-order series on a sixteenth of the argument, raised
/// to the sixteenth power by repeated squaring. Always non-negative.
pub open spec fn spec_fx_exp(x: int) -> int {
    let xc = if x < -4 * FX_ONE {
        -4 * FX_ONE
    } else if x > 4 * FX_ONE {
        4 * FX_ONE
    } else {
        x
    };
    let p = spec_exp_poly(spec_tdiv(xc, 16));
    let p2 = spec_fx_mul(p, p);
    let p4 = spec_fx_mul(p2, p2);
    let p8 = spec_fx_mul(p4, p4);
    spec_fx_mul(p8, p8)
}

pub fn fx_exp(x: i64) -> (r: i64)
    ensures
        r == spec_fx_exp(x as int),
        r >= 0,
        x <= 0 ==> r <= FX_ONE,
{
    let xc: i64 = fx_clamp_to(x, -4 * FX_ONE, 4 * FX_ONE);
    let t: i64 = fx_div_int(xc, 16);
    let t2: i64 = fx_mul(t, t);
    let t3: i64 = fx_mul(t2, t);
    let t4: i64 = fx_mul(t3, t);
    let t5: i64 = fx_mul(t4, t);
    let t6: i64 = fx_mul(t5, t);
    proof {
        if x <= 0 {
            vstd::arithmetic::div_mod::lemma_div_is_ordered(-(xc as int), 4 * FX_ONE, 16);
            vstd::arithmetic::div_mod::lemma_div_pos_is_pos(-(xc as int), 16);
            lemma_exp_powers_small(t as int, t2 as int, t3 as int, t4 as int, t5 as int, t6 as int);
        }
    }
    let mut p: i64 = fx_add(FX_ONE, t);
    p = fx_add(p, fx_div_int(t2, 2));
    p = fx_add(p, fx_div_int(t3, 6));
    p = fx_add(p, fx_div_int(t4, 24));
    p = fx_add(p, fx_div_int(t5, 120));
    p = fx_add(p, fx_div_int(t6, 720));
    if p < 0 {
        p = 0;
    }
    proof {
        if x <= 0 {
            assert(0 <= p <= FX_ONE);
            crate::fixed::lemma_fx_mul_contract(p as int, p as int);
        }
    }
    let p2: i64 = fx_mul(p, p);
    proof {
        if x <= 0 {
            crate::fixed::lemma_fx_mul_contract(p2 as int, p2 as int);
        }
    }
    let p4: i64 = fx_mul(p2, p2);
    proof {
        if x <= 0 {
            crate::fixed::lemma_fx_mul_contract(p4 as int, p4 as int);
        }
    }
    let p8: i64 = fx_mul(p4, p4);
    proof {
        if x <= 0 {
            crate::fixed::lemma_fx_mul_contract(p8 as int, p8 as int);
        }
        lemma_fx_mul_nonneg(p8 as int, p8 as int);
    }
    let r: i64 = fx_mul(p8, p8);
    r
}

/// For a non-positive reduced argument `t` (at least `-FX_ONE/4`),
/// the exponential series' positive terms together stay below `-t`,
/// so the polynomial stays at or below one.
proof fn lemma_exp_powers_small(t: int, t2: int, t3: int, t4: int, t5: int, t6: int)
    requires
        -FX_ONE / 4 <= t <= 0,
        t2 == spec_fx_mul(t, t),
        t3 == spec_fx_mul(t2, t),
        t4 == spec_fx_mul(t3, t),
        t5 == spec_fx_mul(t4, t),
        t6 == spec_fx_mul(t5, t),
    ensures
        0 <= t2 <= -t,
        -(-t) <= t3 <= 0,
        0 <= t4 <= -t,
        -(-t) <= t5 <= 0,
        0 <= t6 <= -t,
        spec_tdiv(t2, 2) + spec_tdiv(t3, 6) + spec_tdiv(t4, 24) + spec_tdiv(t5, 120) + spec_tdiv(
            t6,
            720,
        ) <= -t,
        spec_tdiv(t3, 6) <= 0,
        spec_tdiv(t5, 120) <= 0,
{
    crate::fixed::lemma_fx_mul_contract(t, t);
    crate::fixed::lemma_fx_mul_contract(t2, t);
    crate::fixed::lemma_fx_mul_comm(t2, t);
    crate::fixed::lemma_fx_mul_contract(t3, t);
    crate::fixed::lemma_fx_mul_comm(t3, t);
    crate::fixed::lemma_fx_mul_contract(t4, t);
    crate::fixed::lemma_fx_mul_comm(t4, t);
    crate::fixed::lemma_fx_mul_contract(t5, t);
    crate::fixed::lemma_fx_mul_comm(t5, t);
    let a = -t;
    assert(spec_tdiv(t2, 2) == t2 / 2 && spec_tdiv(t4, 24) == t4 / 24 && spec_tdiv(t6, 720) == t6
        / 720);
    vstd::arithmetic::div_mod::lemma_div_is_ordered(t2, a, 2);
    vstd::arithmetic::div_mod::lemma_div_is_ordered(t4, a, 24);
    vstd::arithmetic::div_mod::lemma_div_is_ordered(t6, a, 720);
    assert(a / 2 + a / 24 + a / 720 <= a) by (nonlinear_arith)
        requires
            a >= 0,
    ;
    vstd::arithmetic::div_mod::lemma_div_pos_is_pos(t2, 2);
    vstd::arithmetic::div_mod::lemma_div_pos_is_pos(t4, 24);
    vstd::arithmetic::div_mod::lemma_div_pos_is_pos(t6, 720);
    vstd::arithmetic::div_mod::lemma_div_pos_is_pos(-t3, 6);
    vstd::arithmetic::div_mod::lemma_div_pos_is_pos(-t5, 120);
}

/// `ln(10) / 40` in fixed point: the factor that turns decibels into
/// the exponent of `10^(db/40)`.
pub const FX_LN10_OVER_40: i64 = 965780;

/// `ln(10) / 20` in fixed point: the factor that turns decibels into
/// the exponent of `10^(db/20)`.
pub const FX_LN10_OVER_20: i64 = 1931560;

/// `10^(db/40)` — the RBJ cookbook's shelf amplitude for a gain in
/// decibels.
pub open spec fn spec_db_to_amp(db: int) -> int {
    spec_fx_exp(spec_fx_mul(db, FX_LN10_OVER_40 as int))
}

pub fn fx_db_to_amp(db: i64) -> (r: i64)
    ensures
        r == spec_db_to_amp(db as int),
        r >= 0,
{
    fx_exp(fx_mul(db, FX_LN10_OVER_40))
}

/// `10^(db/20)` — a gain in decibels as a linear factor.
pub open spec fn spec_db_to_gain(db: int) -> int {
    spec_fx_exp(spec_fx_mul(db, FX_LN10_OVER_20 as int))
}

pub fn fx_db_to_gain(db: i64) -> (r: i64)
    ensures
        r == spec_db_to_gain(db as int),
        r >= 0,
{
    fx_exp(fx_mul(db, FX_LN10_OVER_20))
}

/// The fixed-point product of two non-negative values is
/// non-negative.
pub proof fn lemma_fx_mul_nonneg(a: int, b: int)
    requires
        a >= 0,
        b >= 0,
    ensures
        spec_fx_mul(a, b) >= 0,
{
    assert(a * b >= 0) by (nonlinear_arith)
        requires
            a >= 0,
            b >= 0,
    ;
}

} // verus!
