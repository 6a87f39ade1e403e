//! Second-order IIR filter (biquad), direct-form-II transposed, with
//! coefficients computed from the standard RBJ cookbook formulas in
//! saturating fixed point.
//!
//! State `(z1, z2)` is zeroed on construction and on [`BiquadFilter::reset`];
//! a coefficient update preserves the state, so adaptive gain changes
//! do not click.

use vstd::prelude::*;

use crate::fixed::{
    FX_ONE,
    fx_add,
    fx_div,
    fx_div_int,
    fx_mul,
    fx_sub,
    spec_fx_add,
    spec_fx_div,
    spec_fx_mul,
    spec_fx_sub,
    spec_tdiv,
};
use crate::math::{FX_PI, fx_cos, fx_db_to_amp, fx_sin, fx_sqrt, spec_db_to_amp, spec_fx_cos,
    spec_fx_sin};

verus! {

/// The filter shapes the coefficient formulas support.
#[derive(Clone, Copy, Debug, PartialEq, Eq, Structural)]
pub enum FilterType {
    HighPass,
    LowShelf,
    LowPass,
    HighShelf,
}

/// A biquad's five normalised coefficients.
pub struct Coeffs {
    pub b0: int,
    pub b1: int,
    pub b2: int,
    pub a1: int,
    pub a2: int,
}

/// The angular frequency `2*pi*frequency/sample_rate`, clamped by the
/// trig functions into `[0, pi]`; `frequency` is in fixed-point Hz.
pub open spec fn spec_omega(sample_rate: int, frequency: int) -> int {
    spec_fx_div(spec_fx_mul(2 * FX_PI, frequency), sample_rate * FX_ONE)
}

/// The floor of the fixed-point square root, as [`crate::math::fx_sqrt`]
/// computes it.
pub open spec fn spec_sqrt_floor(x: int) -> int {
    crate::math::spec_fx_sqrt(x)
}

/// The RBJ cookbook coefficients for a filter shape, in fixed point
/// (the shelf terms carry the cookbook's `2*sqrt(A)` factor on
/// alpha); every arithmetic step saturates exactly as the
/// executable code does.
pub open spec fn spec_rbj(ft: FilterType, sample_rate: int, frequency: int, q: int, gain_db: int) -> Coeffs {
    let w0 = spec_omega(sample_rate, frequency);
    let cs = spec_fx_cos(w0);
    let sn = spec_fx_sin(w0);
    let a = spec_db_to_amp(gain_db);
    match ft {
        FilterType::HighPass => {
            let alpha = spec_fx_div(sn, spec_fx_add(q, q));
            let b0 = spec_tdiv(spec_fx_add(FX_ONE as int, cs), 2);
            let b1 = -spec_fx_add(FX_ONE as int, cs);
            let b2 = b0;
            let a0 = spec_fx_add(FX_ONE as int, alpha);
            let a1 = spec_fx_mul(-2 * FX_ONE, cs);
            let a2 = spec_fx_sub(FX_ONE as int, alpha);
            Coeffs {
                b0: spec_fx_div(b0, a0),
                b1: spec_fx_div(b1, a0),
                b2: spec_fx_div(b2, a0),
                a1: spec_fx_div(a1, a0),
                a2: spec_fx_div(a2, a0),
            }
        },
        FilterType::LowPass => {
            let alpha = spec_fx_div(sn, spec_fx_add(q, q));
            let b0 = spec_tdiv(spec_fx_sub(FX_ONE as int, cs), 2);
            let b1 = spec_fx_sub(FX_ONE as int, cs);
            let b2 = b0;
            let a0 = spec_fx_add(FX_ONE as int, alpha);
            let a1 = spec_fx_mul(-2 * FX_ONE, cs);
            let a2 = spec_fx_sub(FX_ONE as int, alpha);
            Coeffs {
                b0: spec_fx_div(b0, a0),
                b1: spec_fx_div(b1, a0),
                b2: spec_fx_div(b2, a0),
                a1: spec_fx_div(a1, a0),
                a2: spec_fx_div(a2, a0),
            }
        },
        FilterType::LowShelf => {
            let inner = spec_fx_add(
                spec_fx_mul(
                    spec_fx_add(a, spec_fx_div(FX_ONE as int, a)),
                    spec_fx_sub(spec_fx_div(FX_ONE as int, q), FX_ONE as int),
                ),
                2 * FX_ONE,
            );
            let alpha = spec_fx_mul(spec_tdiv(sn, 2), spec_sqrt_floor(inner));
            let salpha = spec_fx_mul(spec_fx_mul(2 * FX_ONE, spec_sqrt_floor(a)), alpha);
            let ap1 = spec_fx_add(a, FX_ONE as int);
            let am1 = spec_fx_sub(a, FX_ONE as int);
            let b0 = spec_fx_mul(a, spec_fx_add(spec_fx_sub(ap1, spec_fx_mul(am1, cs)), salpha));
            let b1 = spec_fx_mul(
                spec_fx_add(a, a),
                spec_fx_sub(am1, spec_fx_mul(ap1, cs)),
            );
            let b2 = spec_fx_mul(a, spec_fx_sub(spec_fx_sub(ap1, spec_fx_mul(am1, cs)), salpha));
            let a0 = spec_fx_add(spec_fx_add(ap1, spec_fx_mul(am1, cs)), salpha);
            let a1 = spec_fx_mul(-2 * FX_ONE, spec_fx_add(am1, spec_fx_mul(ap1, cs)));
            let a2 = spec_fx_sub(spec_fx_add(ap1, spec_fx_mul(am1, cs)), salpha);
            Coeffs {
                b0: spec_fx_div(b0, a0),
                b1: spec_fx_div(b1, a0),
                b2: spec_fx_div(b2, a0),
                a1: spec_fx_div(a1, a0),
                a2: spec_fx_div(a2, a0),
            }
        },
        FilterType::HighShelf => {
            let inner = spec_fx_add(
                spec_fx_mul(
                    spec_fx_add(a, spec_fx_div(FX_ONE as int, a)),
                    spec_fx_sub(spec_fx_div(FX_ONE as int, q), FX_ONE as int),
                ),
                2 * FX_ONE,
            );
            let alpha = spec_fx_mul(spec_tdiv(sn, 2), spec_sqrt_floor(inner));
            let salpha = spec_fx_mul(spec_fx_mul(2 * FX_ONE, spec_sqrt_floor(a)), alpha);
            let ap1 = spec_fx_add(a, FX_ONE as int);
            let am1 = spec_fx_sub(a, FX_ONE as int);
            let b0 = spec_fx_mul(a, spec_fx_add(spec_fx_add(ap1, spec_fx_mul(am1, cs)), salpha));
            let b1 = spec_fx_mul(
                -spec_fx_add(a, a),
                spec_fx_add(am1, spec_fx_mul(ap1, cs)),
            );
            let b2 = spec_fx_mul(a, spec_fx_sub(spec_fx_add(ap1, spec_fx_mul(am1, cs)), salpha));
            let a0 = spec_fx_add(spec_fx_sub(ap1, spec_fx_mul(am1, cs)), salpha);
            let a1 = spec_fx_mul(2 * FX_ONE, spec_fx_sub(am1, spec_fx_mul(ap1, cs)));
            let a2 = spec_fx_sub(spec_fx_sub(ap1, spec_fx_mul(am1, cs)), salpha);
            Coeffs {
                b0: spec_fx_div(b0, a0),
                b1: spec_fx_div(b1, a0),
                b2: spec_fx_div(b2, a0),
                a1: spec_fx_div(a1, a0),
                a2: spec_fx_div(a2, a0),
            }
        },
    }
}

/// One direct-form-II-transposed step: the output and the two new
/// state values.
pub open spec fn spec_biquad_step(b0: int, b1: int, b2: int, a1: int, a2: int, z1: int, z2: int, x: int) -> (int, int, int) {
    let y = spec_fx_add(spec_fx_mul(b0, x), z1);
    let nz1 = spec_fx_add(spec_fx_sub(spec_fx_mul(b1, x), spec_fx_mul(a1, y)), z2);
    let nz2 = spec_fx_sub(spec_fx_mul(b2, x), spec_fx_mul(a2, y));
    (y, nz1, nz2)
}

/// The same step at the filter level: the filter after one sample,
/// and the output sample.
pub open spec fn spec_filter_step(f: BiquadFilter, x: i64) -> (BiquadFilter, i64) {
    let (y, nz1, nz2) = spec_biquad_step(
        f.b0 as int,
        f.b1 as int,
        f.b2 as int,
        f.a1 as int,
        f.a2 as int,
        f.z1 as int,
        f.z2 as int,
        x as int,
    );
    (BiquadFilter { z1: nz1 as i64, z2: nz2 as i64, ..f }, y as i64)
}

/// A second-order IIR section over fixed-point samples.
pub struct BiquadFilter {
    pub b0: i64,
    pub b1: i64,
    pub b2: i64,
    pub a1: i64,
    pub a2: i64,
    pub z1: i64,
    pub z2: i64,
}

impl BiquadFilter {
    /// The filter's coefficients equal the cookbook formula's result
    /// for these parameters.
    pub open spec fn coeffs_match(&self, ft: FilterType, sample_rate: int, frequency: int, q: int, gain_db: int) -> bool {
        let c = spec_rbj(ft, sample_rate, frequency, q, gain_db);
        self.b0 == c.b0 && self.b1 == c.b1 && self.b2 == c.b2 && self.a1 == c.a1 && self.a2
            == c.a2
    }

    /// Build a filter with zero state; `frequency`, `q` and `gain_db`
    /// are fixed-point values, `sample_rate` is in Hz.
    pub fn new(ft: FilterType, sample_rate: u32, frequency: i64, q: i64, gain_db: i64) -> (r:
        BiquadFilter)
        ensures
            r.coeffs_match(ft, sample_rate as int, frequency as int, q as int, gain_db as int),
            r.z1 == 0,
            r.z2 == 0,
    {
        let mut f = BiquadFilter { b0: FX_ONE, b1: 0, b2: 0, a1: 0, a2: 0, z1: 0, z2: 0 };
        f.update(ft, sample_rate, frequency, q, gain_db);
        f
    }

    /// Recompute the coefficients for new parameters; the state
    /// `(z1, z2)` is preserved, so an update mid-stream cannot click.
    pub fn update(&mut self, ft: FilterType, sample_rate: u32, frequency: i64, q: i64, gain_db: i64)
        ensures
            final(self).coeffs_match(
                ft,
                sample_rate as int,
                frequency as int,
                q as int,
                gain_db as int,
            ),
            final(self).z1 == old(self).z1,
            final(self).z2 == old(self).z2,
    {
        let rate_fx: i64 = (sample_rate as i64) * FX_ONE;
        let w0: i64 = fx_div(fx_mul(2 * FX_PI, frequency), rate_fx);
        let cs: i64 = fx_cos(w0);
        let sn: i64 = fx_sin(w0);
        let a: i64 = fx_db_to_amp(gain_db);
        match ft {
            FilterType::HighPass => {
                let alpha: i64 = fx_div(sn, fx_add(q, q));
                let b0: i64 = fx_div_int(fx_add(FX_ONE, cs), 2);
                let b1: i64 = -fx_add(FX_ONE, cs);
                let b2: i64 = b0;
                let a0: i64 = fx_add(FX_ONE, alpha);
                let a1: i64 = fx_mul(-2 * FX_ONE, cs);
                let a2: i64 = fx_sub(FX_ONE, alpha);
                self.b0 = fx_div(b0, a0);
                self.b1 = fx_div(b1, a0);
                self.b2 = fx_div(b2, a0);
                self.a1 = fx_div(a1, a0);
                self.a2 = fx_div(a2, a0);
            },
            FilterType::LowPass => {
                let alpha: i64 = fx_div(sn, fx_add(q, q));
                let b0: i64 = fx_div_int(fx_sub(FX_ONE, cs), 2);
                let b1: i64 = fx_sub(FX_ONE, cs);
                let b2: i64 = b0;
                let a0: i64 = fx_add(FX_ONE, alpha);
                let a1: i64 = fx_mul(-2 * FX_ONE, cs);
                let a2: i64 = fx_sub(FX_ONE, alpha);
                self.b0 = fx_div(b0, a0);
                self.b1 = fx_div(b1, a0);
                self.b2 = fx_div(b2, a0);
                self.a1 = fx_div(a1, a0);
                self.a2 = fx_div(a2, a0);
            },
            FilterType::LowShelf => {
                let inner: i64 = fx_add(
                    fx_mul(fx_add(a, fx_div(FX_ONE, a)), fx_sub(fx_div(FX_ONE, q), FX_ONE)),
                    2 * FX_ONE,
                );
                let alpha: i64 = fx_mul(fx_div_int(sn, 2), fx_sqrt(inner));
                let salpha: i64 = fx_mul(fx_mul(2 * FX_ONE, fx_sqrt(a)), alpha);
                let ap1: i64 = fx_add(a, FX_ONE);
                let am1: i64 = fx_sub(a, FX_ONE);
                let b0: i64 = fx_mul(a, fx_add(fx_sub(ap1, fx_mul(am1, cs)), salpha));
                let b1: i64 = fx_mul(fx_add(a, a), fx_sub(am1, fx_mul(ap1, cs)));
                let b2: i64 = fx_mul(a, fx_sub(fx_sub(ap1, fx_mul(am1, cs)), salpha));
                let a0: i64 = fx_add(fx_add(ap1, fx_mul(am1, cs)), salpha);
                let a1: i64 = fx_mul(-2 * FX_ONE, fx_add(am1, fx_mul(ap1, cs)));
                let a2: i64 = fx_sub(fx_add(ap1, fx_mul(am1, cs)), salpha);
                self.b0 = fx_div(b0, a0);
                self.b1 = fx_div(b1, a0);
                self.b2 = fx_div(b2, a0);
                self.a1 = fx_div(a1, a0);
                self.a2 = fx_div(a2, a0);
            },
            FilterType::HighShelf => {
                let inner: i64 = fx_add(
                    fx_mul(fx_add(a, fx_div(FX_ONE, a)), fx_sub(fx_div(FX_ONE, q), FX_ONE)),
                    2 * FX_ONE,
                );
                let alpha: i64 = fx_mul(fx_div_int(sn, 2), fx_sqrt(inner));
                let salpha: i64 = fx_mul(fx_mul(2 * FX_ONE, fx_sqrt(a)), alpha);
                let ap1: i64 = fx_add(a, FX_ONE);
                let am1: i64 = fx_sub(a, FX_ONE);
                let b0: i64 = fx_mul(a, fx_add(fx_add(ap1, fx_mul(am1, cs)), salpha));
                let b1: i64 = fx_mul(-fx_add(a, a), fx_add(am1, fx_mul(ap1, cs)));
                let b2: i64 = fx_mul(a, fx_sub(fx_add(ap1, fx_mul(am1, cs)), salpha));
                let a0: i64 = fx_add(fx_sub(ap1, fx_mul(am1, cs)), salpha);
                let a1: i64 = fx_mul(2 * FX_ONE, fx_sub(am1, fx_mul(ap1, cs)));
                let a2: i64 = fx_sub(fx_sub(ap1, fx_mul(am1, cs)), salpha);
                self.b0 = fx_div(b0, a0);
                self.b1 = fx_div(b1, a0);
                self.b2 = fx_div(b2, a0);
                self.a1 = fx_div(a1, a0);
                self.a2 = fx_div(a2, a0);
            },
        }
    }

    /// Process one sample.
    pub fn process(&mut self, x: i64) -> (y: i64)
        ensures
            ({
                let (sy, nz1, nz2) = spec_biquad_step(
                    old(self).b0 as int,
                    old(self).b1 as int,
                    old(self).b2 as int,
                    old(self).a1 as int,
                    old(self).a2 as int,
                    old(self).z1 as int,
                    old(self).z2 as int,
                    x as int,
                );
                y == sy && final(self).z1 == nz1 && final(self).z2 == nz2
            }),
            *final(self) == spec_filter_step(*old(self), x).0,
            y == spec_filter_step(*old(self), x).1,
            final(self).b0 == old(self).b0,
            final(self).b1 == old(self).b1,
            final(self).b2 == old(self).b2,
            final(self).a1 == old(self).a1,
            final(self).a2 == old(self).a2,
    {
        let y: i64 = fx_add(fx_mul(self.b0, x), self.z1);
        let nz1: i64 = fx_add(fx_sub(fx_mul(self.b1, x), fx_mul(self.a1, y)), self.z2);
        let nz2: i64 = fx_sub(fx_mul(self.b2, x), fx_mul(self.a2, y));
        self.z1 = nz1;
        self.z2 = nz2;
        y
    }

    /// Zero the state, keeping the coefficients.
    pub fn reset(&mut self)
        ensures
            final(self).z1 == 0,
            final(self).z2 == 0,
            final(self).b0 == old(self).b0,
            final(self).b1 == old(self).b1,
            final(self).b2 == old(self).b2,
            final(self).a1 == old(self).a1,
            final(self).a2 == old(self).a2,
    {
        self.z1 = 0;
        self.z2 = 0;
    }
}

/// From zero state, a zero input sample produces a zero output and
/// leaves the state zero — so after a reset, any run of zero inputs
/// yields only zeros, whatever the coefficients.
pub proof fn lemma_zero_in_zero_out(b0: int, b1: int, b2: int, a1: int, a2: int)
    ensures
        spec_biquad_step(b0, b1, b2, a1, a2, 0, 0, 0) == (0int, 0int, 0int),
{
    assert(b0 * 0 == 0) by (nonlinear_arith);
    assert(b1 * 0 == 0) by (nonlinear_arith);
    assert(b2 * 0 == 0) by (nonlinear_arith);
    assert(a1 * 0 == 0) by (nonlinear_arith);
    assert(a2 * 0 == 0) by (nonlinear_arith);
}

} // verus!
