//! The DSP chain: biquad behaviour, limiter transparency and
//! capping, the high-shelf trim, and the adaptive bass boost.

use audio_core::bass::{BassProcessor, GAIN_STEP};
use audio_core::biquad::{BiquadFilter, FilterType};
use audio_core::dsp_chain::DspChain;
use audio_core::eq::HighFreqEQ;
use audio_core::fixed::{FX_ONE, fx_abs};
use audio_core::limiter::Limiter;

#[test]
fn biquad_zero_state_zero_input_stays_zero() {
    let mut f = BiquadFilter::new(FilterType::HighPass, 44100, 30 * FX_ONE, 11861492, 0);
    for _ in 0..1000 {
        assert_eq!(f.process(0), 0);
        assert_eq!(f.z1, 0);
        assert_eq!(f.z2, 0);
    }
    // also after processing real data and resetting
    for i in 0..100 {
        f.process((i - 50) * (FX_ONE / 100));
    }
    f.reset();
    for _ in 0..1000 {
        assert_eq!(f.process(0), 0);
    }
}

#[test]
fn biquad_update_preserves_state() {
    let mut f = BiquadFilter::new(FilterType::LowShelf, 44100, 100 * FX_ONE, 11744051, 0);
    for i in 0..64 {
        f.process(i * (FX_ONE / 64));
    }
    let z1 = f.z1;
    let z2 = f.z2;
    f.update(FilterType::LowShelf, 44100, 100 * FX_ONE, 11744051, 2 * FX_ONE);
    assert_eq!(f.z1, z1);
    assert_eq!(f.z2, z2);
}

#[test]
fn biquad_high_pass_attenuates_dc() {
    let mut f = BiquadFilter::new(FilterType::HighPass, 44100, 30 * FX_ONE, 11861492, 0);
    let x = FX_ONE / 2;
    let mut y: i64 = 0;
    for _ in 0..44100 {
        y = f.process(x);
    }
    // after a second of constant input, the high-pass output has
    // decayed to nearly nothing
    assert!(fx_abs(y) < FX_ONE / 1000, "residual {}", y);
}

#[test]
fn limiter_transparent_below_threshold() {
    let mut l = Limiter::new(-1677722, 44100);
    let t = l.threshold;
    // a signal at or below the threshold passes through bit-exactly
    for i in 0..5000 {
        let x = ((i % 100) - 50) * (t / 50);
        assert!(x.abs() <= t);
        assert_eq!(l.process(x), x);
    }
    assert_eq!(l.gain, FX_ONE);
}

#[test]
fn limiter_caps_loud_signal() {
    let mut l = Limiter::new(-1677722, 44100);
    let loud = 4 * FX_ONE;
    let mut y: i64 = 0;
    for _ in 0..44100 {
        y = l.process(loud);
    }
    // after attack convergence the output sits near the threshold,
    // far below the 4x input
    assert!(y <= l.threshold + l.threshold / 8, "limited output {}", y);
    // and the limiter never amplifies
    assert!(y.abs() <= loud);
    l.reset();
    assert_eq!(l.envelope, 0);
    assert_eq!(l.gain, FX_ONE);
}

#[test]
fn eq_preserves_length_and_config() {
    let mut eq = HighFreqEQ::new(44100, 2);
    let mut samples: Vec<i64> = (0..256).map(|i| (i % 17) * (FX_ONE / 20)).collect();
    eq.process(&mut samples);
    assert_eq!(samples.len(), 256);
    assert_eq!(eq.channels, 2);
    assert_eq!(eq.filters.len(), 2);
}

#[test]
fn bass_disabled_keeps_target_zero() {
    let mut b = BassProcessor::new(44100, 2);
    assert!(!b.enabled);
    assert_eq!(b.target_gain, 0);
    // run several adapt windows of strong signal: disabled means the
    // target stays at zero
    let mut block: Vec<i64> = vec![FX_ONE / 2; 4096];
    for _ in 0..3 {
        b.process(&mut block);
    }
    assert_eq!(b.target_gain, 0);
}

#[test]
fn bass_adapts_up_on_bass_shy_signal_then_disable_zeroes() {
    let mut b = BassProcessor::new(44100, 2);
    b.set_enabled(true);
    b.set_intensity(100 * FX_ONE);
    // a constant (very low frequency) signal is removed by the
    // 30 Hz high-pass, so the measured bass ratio collapses and the
    // target gain steps up at the adapt boundaries
    for _ in 0..5 {
        let mut block: Vec<i64> = vec![FX_ONE / 2; 4096];
        b.process(&mut block);
    }
    assert!(b.target_gain > 0, "target {}", b.target_gain);
    assert!(b.target_gain >= GAIN_STEP);
    // switching the boost off zeroes the target at once
    b.set_enabled(false);
    assert_eq!(b.target_gain, 0);
    // and the next adapt boundary keeps it there
    for _ in 0..2 {
        let mut block: Vec<i64> = vec![FX_ONE / 2; 4096];
        b.process(&mut block);
    }
    assert_eq!(b.target_gain, 0);
}

#[test]
fn bass_intensity_clamped() {
    let mut b = BassProcessor::new(44100, 2);
    b.set_intensity(500 * FX_ONE);
    assert_eq!(b.intensity, 100 * FX_ONE);
    b.set_intensity(-5);
    assert_eq!(b.intensity, 0);
}

#[test]
fn chain_processes_in_place() {
    let mut chain = DspChain::new(48000, 2);
    let mut samples: Vec<i64> = (0..512).map(|i| ((i % 32) - 16) * (FX_ONE / 40)).collect();
    let before = samples.clone();
    chain.process(&mut samples);
    assert_eq!(samples.len(), before.len());
    // a quiet signal stays quiet: filter memory can move energy
    // between neighbouring samples, but nothing approaches the
    // limiter's full-scale threshold
    for y in samples.iter() {
        assert!(y.abs() <= FX_ONE / 2, "y {}", y);
    }
    chain.set_bass_enabled(true);
    assert!(chain.bass.enabled);
    chain.set_bass_enabled(false);
    assert!(!chain.bass.enabled);
    assert_eq!(chain.bass.target_gain, 0);
}
