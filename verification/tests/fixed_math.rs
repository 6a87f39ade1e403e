//! The fixed-point arithmetic core and the elementary functions,
//! checked against exact values and against floating-point
//! references.

use audio_core::fixed::{FX_ONE, FX_SAT, fx_abs, fx_add, fx_clamp_to, fx_div, fx_div_int, fx_mul,
    fx_sub};
use audio_core::math::{FX_HALF_PI, FX_PI, fx_cos, fx_db_to_amp, fx_db_to_gain, fx_exp, fx_sin,
    fx_sqrt};

fn to_f64(x: i64) -> f64 {
    x as f64 / FX_ONE as f64
}

fn from_f64(x: f64) -> i64 {
    (x * FX_ONE as f64).round() as i64
}

#[test]
fn mul_exact_values() {
    assert_eq!(fx_mul(FX_ONE, FX_ONE), FX_ONE);
    assert_eq!(fx_mul(2 * FX_ONE, 3 * FX_ONE), 6 * FX_ONE);
    assert_eq!(fx_mul(-2 * FX_ONE, 3 * FX_ONE), -6 * FX_ONE);
    assert_eq!(fx_mul(FX_ONE / 2, FX_ONE / 2), FX_ONE / 4);
    assert_eq!(fx_mul(0, 12345), 0);
    // saturation
    assert_eq!(fx_mul(FX_SAT, FX_SAT), FX_SAT);
    assert_eq!(fx_mul(-FX_SAT, FX_SAT), -FX_SAT);
}

#[test]
fn div_exact_values() {
    assert_eq!(fx_div(6 * FX_ONE, 3 * FX_ONE), 2 * FX_ONE);
    assert_eq!(fx_div(-6 * FX_ONE, 3 * FX_ONE), -2 * FX_ONE);
    assert_eq!(fx_div(FX_ONE, 2 * FX_ONE), FX_ONE / 2);
    // division by zero saturates in the numerator's direction
    assert_eq!(fx_div(FX_ONE, 0), FX_SAT);
    assert_eq!(fx_div(-FX_ONE, 0), -FX_SAT);
    assert_eq!(fx_div(0, 0), 0);
}

#[test]
fn add_sub_clamp() {
    assert_eq!(fx_add(FX_ONE, FX_ONE), 2 * FX_ONE);
    assert_eq!(fx_add(FX_SAT, FX_SAT), FX_SAT);
    assert_eq!(fx_sub(-FX_SAT, FX_SAT), -FX_SAT);
    assert_eq!(fx_abs(-3 * FX_ONE), 3 * FX_ONE);
    assert_eq!(fx_abs(i64::MIN), FX_SAT);
    assert_eq!(fx_clamp_to(5, 0, 3), 3);
    assert_eq!(fx_clamp_to(-5, 0, 3), 0);
    assert_eq!(fx_div_int(-7, 2), -3);
    assert_eq!(fx_div_int(7, 2), 3);
}

#[test]
fn sqrt_exact() {
    // sqrt(4.0) == 2.0 exactly in fixed point
    assert_eq!(fx_sqrt(4 * FX_ONE), 2 * FX_ONE);
    assert_eq!(fx_sqrt(0), 0);
    assert_eq!(fx_sqrt(-5), 0);
    // floor semantics: the result squared never exceeds the input
    for &x in &[1i64, 2, 3, 10, 12345, 7 * FX_ONE, FX_ONE / 3] {
        let r = fx_sqrt(x);
        let v = x as i128 * FX_ONE as i128;
        assert!((r as i128) * (r as i128) <= v);
        assert!(((r + 1) as i128) * ((r + 1) as i128) > v);
    }
}

#[test]
fn sin_cos_against_reference() {
    let steps: i64 = 64;
    for i in 0..=steps {
        let x = FX_PI * i / steps;
        let s = to_f64(fx_sin(x));
        let c = to_f64(fx_cos(x));
        let xr = to_f64(x);
        assert!((s - xr.sin()).abs() < 1e-3, "sin({}) = {}", xr, s);
        assert!((c - xr.cos()).abs() < 1e-3, "cos({}) = {}", xr, c);
    }
    assert_eq!(fx_sin(0), 0);
    // the quarter-wave peak is full scale
    assert_eq!(fx_sin(FX_HALF_PI), FX_ONE);
    assert_eq!(fx_cos(0), FX_ONE);
}

#[test]
fn exp_against_reference() {
    for &xr in &[-2.0f64, -1.0, -0.5, -0.1, 0.0, 0.1, 0.5, 1.0, 1.38] {
        let r = to_f64(fx_exp(from_f64(xr)));
        assert!((r - xr.exp()).abs() < 2e-3, "exp({}) = {}", xr, r);
    }
    // arguments at or below zero never exceed one
    for &xr in &[-4.0f64, -3.3, -0.7, -0.001, 0.0] {
        assert!(fx_exp(from_f64(xr)) <= FX_ONE);
    }
}

#[test]
fn db_conversions() {
    // 10^(0/40) == 1 and 10^(0/20) == 1 exactly
    assert_eq!(fx_db_to_amp(0), FX_ONE);
    assert_eq!(fx_db_to_gain(0), FX_ONE);
    // -0.1 dB as a linear gain is about 0.98855
    let g = to_f64(fx_db_to_gain(from_f64(-0.1)));
    assert!((g - 0.98855).abs() < 1e-3, "gain {}", g);
    // +8 dB shelf amplitude: 10^(8/40) is about 1.58489
    let a = to_f64(fx_db_to_amp(from_f64(8.0)));
    assert!((a - 1.58489).abs() < 5e-3, "amp {}", a);
}
