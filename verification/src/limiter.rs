//! Per-channel peak limiter: an envelope follower with separate
//! attack and release time constants, a gain that is smoothed towards
//! its target, and a threshold just below full scale.
//!
//! Proved here: a signal that stays at or below the threshold while
//! the limiter is idle passes through bit-exactly, and the limiter
//! never amplifies.

use vstd::prelude::*;

use crate::fixed::{
    FX_ONE,
    FX_SAT,
    fx_abs,
    fx_add,
    fx_div,
    fx_div_int,
    fx_mul,
    fx_sub,
    lemma_fx_mul_factor_le_one,
    spec_abs,
    spec_clamp,
    spec_fx_add,
    spec_fx_div,
    spec_fx_mul,
    spec_fx_sub,
    spec_tdiv,
};
use crate::math::{fx_db_to_gain, fx_exp, spec_db_to_gain, spec_fx_exp};

verus! {

/// A peak limiter over fixed-point samples.
pub struct Limiter {
    /// Linear threshold (full scale is `FX_ONE`).
    pub threshold: i64,
    /// Envelope coefficient while the input exceeds the envelope.
    pub attack_coeff: i64,
    /// Envelope coefficient while the input is below the envelope.
    pub release_coeff: i64,
    /// One-pole smoothing coefficient for the applied gain.
    pub smoothing_coeff: i64,
    /// Follower state: the tracked peak envelope.
    pub envelope: i64,
    /// Applied gain, smoothed towards its per-sample target.
    pub gain: i64,
}

/// `exp(-1 / (rate * tau))` where `tau = num / den` seconds, the
/// classic one-pole coefficient for a time constant.
pub open spec fn spec_limiter_coeff(rate: int, tau_num: int, tau_den: int) -> int {
    spec_fx_exp(spec_fx_div(-FX_ONE, tau_num * spec_tdiv(rate * FX_ONE, tau_den)))
}

/// One limiter step at the filter level: the limiter after the
/// sample, and the output sample.
pub open spec fn spec_limiter_apply(l: Limiter, x: i64) -> (Limiter, i64) {
    let (y, env, gain) = spec_limiter_step(l, x as int);
    (Limiter { envelope: env as i64, gain: gain as i64, ..l }, y as i64)
}

/// One limiter step: the output sample, the new envelope and the new
/// gain.
pub open spec fn spec_limiter_step(l: Limiter, x: int) -> (int, int, int) {
    let e = spec_clamp(spec_abs(x));
    let env = if e > l.envelope {
        spec_fx_add(spec_fx_mul(l.attack_coeff as int, spec_fx_sub(l.envelope as int, e)), e)
    } else {
        spec_fx_add(spec_fx_mul(l.release_coeff as int, spec_fx_sub(l.envelope as int, e)), e)
    };
    let target = if env > l.threshold {
        spec_fx_div(l.threshold as int, env)
    } else {
        FX_ONE as int
    };
    let gain = spec_fx_add(
        spec_fx_mul(l.smoothing_coeff as int, spec_fx_sub(l.gain as int, target)),
        target,
    );
    (spec_fx_mul(x, gain), env, gain)
}

impl Limiter {
    /// Build a limiter with the threshold given in decibels
    /// (fixed-point), attack 5 ms, release 150 ms, gain smoothing
    /// 10 ms.
    pub fn new(threshold_db: i64, sample_rate: u32) -> (r: Limiter)
        ensures
            r.threshold == spec_db_to_gain(threshold_db as int),
            r.attack_coeff == spec_limiter_coeff(sample_rate as int, 1, 200),
            r.release_coeff == spec_limiter_coeff(sample_rate as int, 3, 20),
            r.smoothing_coeff == spec_limiter_coeff(sample_rate as int, 1, 100),
            r.envelope == 0,
            r.gain == FX_ONE,
            0 <= r.threshold <= FX_SAT,
            0 <= r.attack_coeff <= FX_ONE,
            0 <= r.release_coeff <= FX_ONE,
            0 <= r.smoothing_coeff <= FX_ONE,
    {
        let rate_fx: i64 = (sample_rate as i64) * FX_ONE;
        let attack: i64 = fx_exp(fx_div(-FX_ONE, fx_div_int(rate_fx, 200)));
        let release: i64 = fx_exp(fx_div(-FX_ONE, 3 * fx_div_int(rate_fx, 20)));
        let smoothing: i64 = fx_exp(fx_div(-FX_ONE, fx_div_int(rate_fx, 100)));
        Limiter {
            threshold: fx_db_to_gain(threshold_db),
            attack_coeff: attack,
            release_coeff: release,
            smoothing_coeff: smoothing,
            envelope: 0,
            gain: FX_ONE,
        }
    }

    /// Process one sample: track the envelope, aim the gain at
    /// `threshold / envelope` when the envelope exceeds the
    /// threshold (1 otherwise), smooth the gain, and scale the input.
    pub fn process(&mut self, input: i64) -> (y: i64)
        ensures
            ({
                let (sy, env, gain) = spec_limiter_step(*old(self), input as int);
                y == sy && final(self).envelope == env && final(self).gain == gain
            }),
            *final(self) == spec_limiter_apply(*old(self), input).0,
            y == spec_limiter_apply(*old(self), input).1,
            final(self).threshold == old(self).threshold,
            final(self).attack_coeff == old(self).attack_coeff,
            final(self).release_coeff == old(self).release_coeff,
            final(self).smoothing_coeff == old(self).smoothing_coeff,
    {
        let e: i64 = fx_abs(input);
        if e > self.envelope {
            self.envelope = fx_add(fx_mul(self.attack_coeff, fx_sub(self.envelope, e)), e);
        } else {
            self.envelope = fx_add(fx_mul(self.release_coeff, fx_sub(self.envelope, e)), e);
        }
        let target: i64 = if self.envelope > self.threshold {
            fx_div(self.threshold, self.envelope)
        } else {
            FX_ONE
        };
        self.gain = fx_add(fx_mul(self.smoothing_coeff, fx_sub(self.gain, target)), target);
        fx_mul(input, self.gain)
    }

    /// Return to the idle state: empty envelope, unity gain.
    pub fn reset(&mut self)
        ensures
            final(self).envelope == 0,
            final(self).gain == FX_ONE,
            final(self).threshold == old(self).threshold,
            final(self).attack_coeff == old(self).attack_coeff,
            final(self).release_coeff == old(self).release_coeff,
            final(self).smoothing_coeff == old(self).smoothing_coeff,
    {
        self.envelope = 0;
        self.gain = FX_ONE;
    }

    /// A limiter state is well formed when its threshold is a valid
    /// fixed-point level, its coefficients are genuine one-pole
    /// factors (below one), and its follower state is in range.
    pub open spec fn wf(&self) -> bool {
        &&& 0 <= self.threshold <= FX_SAT
        &&& 0 <= self.attack_coeff <= FX_ONE
        &&& 0 <= self.release_coeff <= FX_ONE
        &&& 0 <= self.smoothing_coeff <= FX_ONE
        &&& 0 <= self.envelope <= FX_SAT
        &&& 0 <= self.gain <= FX_ONE
    }
}

/// While the envelope has never exceeded the threshold and the gain
/// sits at unity, a sample whose magnitude is at most the threshold
/// passes through the limiter exactly, the envelope stays at or
/// below the threshold, and the gain stays at unity — so a
/// below-threshold signal is reproduced bit for bit, indefinitely.
pub proof fn lemma_limiter_transparent(l: Limiter, x: int)
    requires
        l.wf(),
        l.gain == FX_ONE,
        l.envelope <= l.threshold,
        spec_abs(x) <= l.threshold,
    ensures
        ({
            let (y, env, gain) = spec_limiter_step(l, x);
            y == x && 0 <= env <= l.threshold && gain == FX_ONE
        }),
{
    let e = spec_clamp(spec_abs(x));
    assert(e == spec_abs(x));
    let d = spec_fx_sub(l.envelope as int, e);
    assert(d == l.envelope - e);
    let c = if e > l.envelope {
        l.attack_coeff as int
    } else {
        l.release_coeff as int
    };
    lemma_fx_mul_factor_le_one(c, d);
    let m = spec_fx_mul(c, d);
    let env = spec_fx_add(m, e);
    assert(0 <= m + e <= l.threshold);
    assert(env == m + e);
    let target = FX_ONE as int;
    lemma_fx_mul_factor_le_one(l.smoothing_coeff as int, spec_fx_sub(FX_ONE as int, target));
    let gain = spec_fx_add(
        spec_fx_mul(l.smoothing_coeff as int, spec_fx_sub(FX_ONE as int, target)),
        target,
    );
    assert(spec_fx_sub(FX_ONE as int, target) == 0);
    assert(spec_fx_mul(l.smoothing_coeff as int, 0) == 0) by {
        assert(l.smoothing_coeff * 0 == 0) by (nonlinear_arith);
    }
    assert(gain == FX_ONE);
    crate::fixed::lemma_fx_mul_one(x);
}

/// Whatever the input, a well-formed limiter's gain stays within
/// `[0, FX_ONE]` and the output's magnitude never exceeds the
/// input's: the limiter never amplifies.
pub proof fn lemma_limiter_never_amplifies(l: Limiter, x: int)
    requires
        l.wf(),
        -FX_SAT <= x <= FX_SAT,
    ensures
        ({
            let (y, env, gain) = spec_limiter_step(l, x);
            spec_abs(y) <= spec_abs(x) && 0 <= gain <= FX_ONE && 0 <= env <= FX_SAT
        }),
{
    let e = spec_clamp(spec_abs(x));
    let d = spec_fx_sub(l.envelope as int, e);
    let c = if e > l.envelope {
        l.attack_coeff as int
    } else {
        l.release_coeff as int
    };
    lemma_fx_mul_factor_le_one(c, d);
    let env = spec_fx_add(spec_fx_mul(c, d), e);
    let target = if env > l.threshold {
        spec_fx_div(l.threshold as int, env)
    } else {
        FX_ONE as int
    };
    if env > l.threshold {
        lemma_div_target_le_one(l.threshold as int, env);
    }
    assert(0 <= target <= FX_ONE);
    let u = spec_fx_sub(l.gain as int, target);
    lemma_fx_mul_factor_le_one(l.smoothing_coeff as int, u);
    let gain = spec_fx_add(spec_fx_mul(l.smoothing_coeff as int, u), target);
    assert(0 <= gain <= FX_ONE);
    lemma_fx_mul_factor_le_one(gain, x);
    crate::fixed::lemma_fx_mul_comm(gain, x);
}

/// Once the attack has converged — the envelope sits on the loud
/// input's level and the applied gain has reached its aim of
/// `threshold / envelope` — the output is capped at the threshold:
/// `|y| <= T` even though `|x| > T`. The envelope and the gain then
/// hold steady, so the cap persists for as long as the input does.
pub proof fn lemma_limiter_caps_converged(l: Limiter, x: int)
    requires
        l.wf(),
        l.threshold < l.envelope,
        spec_abs(x) == l.envelope,
        l.gain == spec_fx_div(l.threshold as int, l.envelope as int),
    ensures
        ({
            let (y, env, gain) = spec_limiter_step(l, x);
            spec_abs(y) <= l.threshold && env == l.envelope && gain == l.gain
        }),
{
    let th = l.threshold as int;
    let env = l.envelope as int;
    let e = spec_clamp(spec_abs(x));
    assert(e == env);
    let d = spec_fx_sub(env, e);
    assert(d == 0);
    assert(l.release_coeff * 0 == 0) by (nonlinear_arith);
    vstd::arithmetic::div_mod::lemma_div_of0(FX_ONE as int);
    assert(spec_fx_mul(l.release_coeff as int, 0) == 0);
    let env2 = spec_fx_add(spec_fx_mul(l.release_coeff as int, d), e);
    assert(env2 == env);
    lemma_div_target_le_one(th, env);
    let q = (th * FX_ONE) / env;
    assert(spec_fx_div(th, env) == q) by {
        assert(th * FX_ONE >= 0) by (nonlinear_arith)
            requires
                th >= 0,
        ;
        vstd::arithmetic::div_mod::lemma_div_pos_is_pos(th * FX_ONE, env);
        assert(spec_abs(th) == th && spec_abs(env) == env);
    }
    let target = q;
    assert(l.smoothing_coeff * 0 == 0) by (nonlinear_arith);
    assert(spec_fx_mul(l.smoothing_coeff as int, spec_fx_sub(l.gain as int, target)) == 0);
    let gain2 = spec_fx_add(
        spec_fx_mul(l.smoothing_coeff as int, spec_fx_sub(l.gain as int, target)),
        target,
    );
    assert(gain2 == target);
    assert(env * q <= th * FX_ONE) by {
        vstd::arithmetic::div_mod::lemma_fundamental_div_mod(th * FX_ONE, env);
        vstd::arithmetic::div_mod::lemma_mod_bound(th * FX_ONE, env);
    }
    vstd::arithmetic::div_mod::lemma_div_is_ordered(env * q, th * FX_ONE, FX_ONE as int);
    vstd::arithmetic::div_mod::lemma_div_multiples_vanish(th, FX_ONE as int);
    assert(th * FX_ONE == FX_ONE * th) by (nonlinear_arith);
    assert((env * q) / (FX_ONE as int) <= th);
    if x >= 0 {
        assert(x * q == env * q) by (nonlinear_arith)
            requires
                x == env,
        ;
        vstd::arithmetic::div_mod::lemma_div_pos_is_pos(env * q, FX_ONE as int);
    } else {
        assert(x * q == -(env * q)) by (nonlinear_arith)
            requires
                x == -env,
        ;
        vstd::arithmetic::div_mod::lemma_div_pos_is_pos(env * q, FX_ONE as int);
    }
}

/// When the envelope strictly exceeds the (non-negative) threshold,
/// the aimed gain `threshold / envelope` lies in `[0, FX_ONE]`.
proof fn lemma_div_target_le_one(th: int, env: int)
    requires
        0 <= th <= FX_SAT,
        th < env,
    ensures
        0 <= spec_fx_div(th, env) <= FX_ONE,
{
    let q = (th * FX_ONE) / env;
    assert(th * FX_ONE >= 0) by (nonlinear_arith)
        requires
            th >= 0,
    ;
    vstd::arithmetic::div_mod::lemma_div_pos_is_pos(th * FX_ONE, env);
    assert(th * FX_ONE <= env * FX_ONE - FX_ONE) by (nonlinear_arith)
        requires
            th < env,
    ;
    vstd::arithmetic::div_mod::lemma_div_is_ordered(th * FX_ONE, env * FX_ONE - FX_ONE, env);
    assert((env * FX_ONE - FX_ONE) / env <= FX_ONE) by {
        assert(env * FX_ONE - FX_ONE < FX_ONE * env) by (nonlinear_arith)
            requires
                env > 0,
        ;
        vstd::arithmetic::div_mod::lemma_div_is_ordered(env * FX_ONE - FX_ONE, FX_ONE * env, env);
        vstd::arithmetic::div_mod::lemma_div_multiples_vanish(FX_ONE as int, env);
        assert(FX_ONE * env == env * FX_ONE) by (nonlinear_arith);
    }
    assert(spec_abs(th) == th && spec_abs(env) == env);
}

} // verus!
