//! Adaptive bass boost: per channel, a rumble-removing high-pass
//! followed by a low-shelf whose gain adapts to the measured balance
//! of low-frequency energy against total energy.
//!
//! Every `ADAPT_FRAMES` accumulated frames the target gain is
//! re-decided from the energy accumulators; the applied gain drifts
//! smoothly towards the target and the shelf coefficients are
//! recomputed without touching filter state, so gain changes do not
//! click. Disabling the boost zeroes the target at once, and every
//! adapt decision while disabled keeps it at zero.

use vstd::prelude::*;

use crate::biquad::{BiquadFilter, FilterType, spec_filter_step, spec_rbj};
use crate::eq::lemma_interleaved_index_in_bounds;
use crate::fixed::{
    FX_ONE,
    fx_abs,
    fx_add,
    fx_clamp_to,
    fx_div,
    fx_div_int,
    fx_mul,
    fx_sub,
    spec_abs,
    spec_clamp,
    spec_fx_add,
    spec_fx_div,
    spec_fx_mul,
    spec_fx_sub,
    spec_tdiv,
};
use crate::math::{fx_sqrt, spec_fx_sqrt};

verus! {

/// High-pass rumble filter: 30 Hz, in fixed-point Hz.
pub const BASS_HP_FREQ: i64 = 30 * 0x100_0000;

/// High-pass quality factor, 0.707 in fixed point.
pub const BASS_HP_Q: i64 = 11861492;

/// Low-shelf centre frequency: 100 Hz, in fixed-point Hz.
pub const BASS_SHELF_FREQ: i64 = 100 * 0x100_0000;

/// Low-shelf quality factor, 0.7 in fixed point.
pub const BASS_SHELF_Q: i64 = 11744051;

/// Frames between adapt decisions.
pub const ADAPT_FRAMES: usize = 2048;

/// Per-sample gain smoothing factor, 0.001 in fixed point.
pub const GAIN_SMOOTHING: i64 = 16777;

/// Gain differences at most this much, 0.001 in fixed point, are not
/// worth a coefficient recomputation.
pub const GAIN_EPS: i64 = 16777;

/// A channel with average energy at most this, 0.0001 in fixed
/// point, contributes a zero bass ratio.
pub const CHANNEL_EPS: i64 = 1678;

/// Overall signal level, 0.001 in fixed point, below which the gain
/// is not raised.
pub const SIGNAL_EPS: i64 = 16777;

/// Bass ratio, 0.4 in fixed point, under which the boost is raised.
pub const RATIO_LOW: i64 = 6710886;

/// Bass ratio, 0.6 in fixed point, over which the boost is lowered.
pub const RATIO_HIGH: i64 = 10066330;

/// Gain step per adapt decision, 0.2 dB in fixed point.
pub const GAIN_STEP: i64 = 3355443;

/// The adaptive bass processor.
pub struct BassProcessor {
    pub high_passes: Vec<BiquadFilter>,
    pub low_shelves: Vec<BiquadFilter>,
    pub channels: usize,
    pub sample_rate: u32,
    /// Per-channel accumulated post-high-pass magnitude.
    pub low_energy: Vec<i64>,
    /// Per-channel accumulated input magnitude.
    pub total_energy: Vec<i64>,
    /// Frames accumulated since the last adapt decision.
    pub sample_count: usize,
    /// Adaptation goal for the shelf gain, in fixed-point decibels.
    pub target_gain: i64,
    /// Gain currently installed in the shelves.
    pub current_gain: i64,
    pub enabled: bool,
    /// Boost intensity in fixed point, 0 to 100.
    pub intensity: i64,
}

/// The per-channel bass ratio: the square root of the averaged low
/// energy over the averaged total energy, or zero when the channel
/// carries next to no signal.
pub open spec fn spec_channel_ratio(low: int, total: int, count: int) -> int {
    let avg_total = spec_tdiv(total, count);
    let avg_low = spec_tdiv(low, count);
    if avg_total > CHANNEL_EPS {
        spec_fx_sqrt(spec_fx_div(avg_low, avg_total))
    } else {
        0
    }
}

/// Saturating sum of the first `n` channel ratios.
pub open spec fn spec_ratio_sum(low: Seq<i64>, total: Seq<i64>, count: int, n: int) -> int
    decreases n,
{
    if n <= 0 {
        0
    } else {
        spec_fx_add(
            spec_ratio_sum(low, total, count, n - 1),
            spec_channel_ratio(low[n - 1] as int, total[n - 1] as int, count),
        )
    }
}

/// Saturating sum of the first `n` channels' averaged total energy.
pub open spec fn spec_avg_total_sum(total: Seq<i64>, count: int, n: int) -> int
    decreases n,
{
    if n <= 0 {
        0
    } else {
        spec_fx_add(
            spec_avg_total_sum(total, count, n - 1),
            spec_tdiv(total[n - 1] as int, count),
        )
    }
}

/// The adapt decision: with the boost disabled the target is zero;
/// otherwise the target is stepped up when a strong enough signal is
/// bass-shy, stepped down when it is bass-heavy, clamped into
/// `[0, intensity/100 * 8 dB]`.
pub open spec fn spec_adapt_decision(
    target: int,
    enabled: bool,
    intensity: int,
    avg_ratio: int,
    avg_total: int,
) -> int {
    if !enabled {
        0
    } else {
        let max_gain = spec_fx_mul(spec_tdiv(intensity, 100), 8 * FX_ONE);
        let stepped = if avg_total > SIGNAL_EPS && avg_ratio < RATIO_LOW {
            let up = spec_fx_add(target, GAIN_STEP as int);
            if up > max_gain {
                max_gain
            } else if up < 0 {
                0
            } else {
                up
            }
        } else if avg_ratio > RATIO_HIGH {
            let down = spec_fx_sub(target, GAIN_STEP as int);
            if down < 0 {
                0
            } else {
                down
            }
        } else {
            target
        };
        if stepped > max_gain {
            max_gain
        } else {
            stepped
        }
    }
}

/// While the boost is disabled, every adapt decision leaves the
/// target gain at zero, whatever the accumulated energies say.
pub proof fn lemma_disabled_adapt_zeroes_target(
    target: int,
    intensity: int,
    avg_ratio: int,
    avg_total: int,
)
    ensures
        spec_adapt_decision(target, false, intensity, avg_ratio, avg_total) == 0,
{
}

/// The applied gain after one smoothing move: drift towards the
/// target by the smoothing factor when the difference is material,
/// else hold.
pub open spec fn spec_smoothed_gain(target: i64, current: i64) -> i64 {
    let diff = spec_fx_sub(target as int, current as int);
    if spec_abs(diff) > GAIN_EPS {
        spec_fx_add(current as int, spec_fx_mul(diff, GAIN_SMOOTHING as int)) as i64
    } else {
        current
    }
}

/// A shelf with its coefficients recomputed for a new gain and its
/// state kept.
pub open spec fn spec_refreshed_shelf(f: BiquadFilter, rate: u32, gain: i64) -> BiquadFilter {
    let c = spec_rbj(
        FilterType::LowShelf,
        rate as int,
        BASS_SHELF_FREQ as int,
        BASS_SHELF_Q as int,
        gain as int,
    );
    BiquadFilter {
        b0: c.b0 as i64,
        b1: c.b1 as i64,
        b2: c.b2 as i64,
        a1: c.a1 as i64,
        a2: c.a2 as i64,
        ..f
    }
}

/// The shelf bank after one smoothing move: refreshed at the moved
/// gain when the move is material, untouched otherwise.
pub open spec fn spec_smoothed_shelves(
    sh: Seq<BiquadFilter>,
    rate: u32,
    target: i64,
    current: i64,
) -> Seq<BiquadFilter> {
    let diff = spec_fx_sub(target as int, current as int);
    if spec_abs(diff) > GAIN_EPS {
        Seq::new(sh.len(), |j: int| spec_refreshed_shelf(sh[j], rate, spec_smoothed_gain(target, current)))
    } else {
        sh
    }
}

/// Everything a block of bass processing moves: the two filter
/// banks, the energy accumulators, the frame counter, the adaptation
/// target, and the samples themselves.
pub struct BassStage {
    pub hp: Seq<BiquadFilter>,
    pub sh: Seq<BiquadFilter>,
    pub low: Seq<i64>,
    pub total: Seq<i64>,
    pub count: int,
    pub target: i64,
    pub samples: Seq<i64>,
}

/// One channel of one frame: accumulate the input magnitude, run the
/// channel's high-pass, accumulate the post-high-pass magnitude, run
/// the channel's shelf, and write the result back in place.
pub open spec fn spec_bass_sample(st: BassStage, i: int, ch: int, channels: int) -> BassStage {
    let idx = i * channels + ch;
    let x = st.samples[idx];
    let total2 = st.total.update(
        ch,
        spec_fx_add(st.total[ch] as int, spec_clamp(spec_abs(x as int))) as i64,
    );
    let (hp2, h) = spec_filter_step(st.hp[ch], x);
    let low2 = st.low.update(
        ch,
        spec_fx_add(st.low[ch] as int, spec_clamp(spec_abs(h as int))) as i64,
    );
    let (sh2, y) = spec_filter_step(st.sh[ch], h);
    BassStage {
        hp: st.hp.update(ch, hp2),
        sh: st.sh.update(ch, sh2),
        low: low2,
        total: total2,
        samples: st.samples.update(idx, y),
        ..st
    }
}

/// The first `ch` channels of frame `i`, in order.
pub open spec fn spec_bass_channels(st: BassStage, i: int, channels: int, ch: int) -> BassStage
    decreases ch,
{
    if ch <= 0 {
        st
    } else {
        spec_bass_sample(spec_bass_channels(st, i, channels, ch - 1), i, ch - 1, channels)
    }
}

/// The adapt boundary: re-decide the target from the accumulated
/// energies and start a fresh accumulation window.
pub open spec fn spec_bass_adapt_state(
    st: BassStage,
    enabled: bool,
    intensity: i64,
    channels: int,
) -> BassStage {
    BassStage {
        target: spec_adapt_decision(
            st.target as int,
            enabled,
            intensity as int,
            spec_tdiv(spec_ratio_sum(st.low, st.total, st.count, channels), channels),
            spec_tdiv(spec_avg_total_sum(st.total, st.count, channels), channels),
        ) as i64,
        low: Seq::new(st.low.len(), |j: int| 0i64),
        total: Seq::new(st.total.len(), |j: int| 0i64),
        count: 0,
        ..st
    }
}

/// One whole frame: every channel, the counter, and — when the
/// counter reaches the window — the adapt decision.
pub open spec fn spec_bass_frame(
    st: BassStage,
    i: int,
    channels: int,
    enabled: bool,
    intensity: i64,
) -> BassStage {
    let st1 = spec_bass_channels(st, i, channels, channels);
    let st2 = BassStage { count: st1.count + 1, ..st1 };
    if st2.count >= ADAPT_FRAMES as int {
        spec_bass_adapt_state(st2, enabled, intensity, channels)
    } else {
        st2
    }
}

/// The first `frames` frames, in order.
pub open spec fn spec_bass_frames(
    st: BassStage,
    frames: int,
    channels: int,
    enabled: bool,
    intensity: i64,
) -> BassStage
    decreases frames,
{
    if frames <= 0 {
        st
    } else {
        spec_bass_frame(
            spec_bass_frames(st, frames - 1, channels, enabled, intensity),
            frames - 1,
            channels,
            enabled,
            intensity,
        )
    }
}

/// The stage a block starts from: the gain smoothing move has
/// refreshed the shelves, everything else is as the processor holds
/// it.
pub open spec fn spec_bass_stage0(b: BassProcessor, s: Seq<i64>) -> BassStage {
    BassStage {
        hp: b.high_passes@,
        sh: spec_smoothed_shelves(b.low_shelves@, b.sample_rate, b.target_gain, b.current_gain),
        low: b.low_energy@,
        total: b.total_energy@,
        count: b.sample_count as int,
        target: b.target_gain,
        samples: s,
    }
}

/// The stage after a whole block: the smoothing move, then every
/// frame of the block through [`spec_bass_frame`].
pub open spec fn spec_bass_post(b: BassProcessor, s: Seq<i64>) -> BassStage {
    spec_bass_frames(
        spec_bass_stage0(b, s),
        s.len() as int / b.channels as int,
        b.channels as int,
        b.enabled,
        b.intensity,
    )
}

impl BassProcessor {
    /// Structural well-formedness: one filter and one accumulator per
    /// channel, a channel count a real device can have, and the
    /// gains and intensity inside their working ranges.
    pub open spec fn wf_lens(&self) -> bool {
        &&& self.high_passes@.len() == self.channels
        &&& self.low_shelves@.len() == self.channels
        &&& self.low_energy@.len() == self.channels
        &&& self.total_energy@.len() == self.channels
        &&& 1 <= self.channels <= 8
        &&& 0 <= self.target_gain <= 8 * FX_ONE
        &&& 0 <= self.current_gain <= 8 * FX_ONE
        &&& 0 <= self.intensity <= 100 * FX_ONE
    }

    /// Well-formedness between blocks: structurally sound, with the
    /// frame counter inside the adapt window.
    pub open spec fn wf(&self) -> bool {
        &&& self.wf_lens()
        &&& self.sample_count <= ADAPT_FRAMES
    }

    pub fn new(sample_rate: u32, channels: usize) -> (r: BassProcessor)
        requires
            1 <= channels <= 8,
        ensures
            r.wf(),
            r.channels == channels,
            r.sample_rate == sample_rate,
            !r.enabled,
            r.intensity == 50 * FX_ONE,
            r.target_gain == 0,
            r.current_gain == 0,
            r.sample_count == 0,
            forall|j: int|
                0 <= j < channels ==> (#[trigger] r.high_passes@[j]).coeffs_match(
                    FilterType::HighPass,
                    sample_rate as int,
                    BASS_HP_FREQ as int,
                    BASS_HP_Q as int,
                    0,
                ) && r.high_passes@[j].z1 == 0 && r.high_passes@[j].z2 == 0,
            forall|j: int|
                0 <= j < channels ==> (#[trigger] r.low_shelves@[j]).coeffs_match(
                    FilterType::LowShelf,
                    sample_rate as int,
                    BASS_SHELF_FREQ as int,
                    BASS_SHELF_Q as int,
                    0,
                ) && r.low_shelves@[j].z1 == 0 && r.low_shelves@[j].z2 == 0,
            forall|j: int| 0 <= j < channels ==> r.low_energy@[j] == 0,
            forall|j: int| 0 <= j < channels ==> r.total_energy@[j] == 0,
    {
        let mut high_passes: Vec<BiquadFilter> = Vec::new();
        let mut low_shelves: Vec<BiquadFilter> = Vec::new();
        let mut low_energy: Vec<i64> = Vec::new();
        let mut total_energy: Vec<i64> = Vec::new();
        let mut ch: usize = 0;
        while ch < channels
            invariant
                ch <= channels,
                high_passes@.len() == ch,
                low_shelves@.len() == ch,
                low_energy@.len() == ch,
                total_energy@.len() == ch,
                forall|j: int|
                    0 <= j < ch ==> (#[trigger] high_passes@[j]).coeffs_match(
                        FilterType::HighPass,
                        sample_rate as int,
                        BASS_HP_FREQ as int,
                        BASS_HP_Q as int,
                        0,
                    ) && high_passes@[j].z1 == 0 && high_passes@[j].z2 == 0,
                forall|j: int|
                    0 <= j < ch ==> (#[trigger] low_shelves@[j]).coeffs_match(
                        FilterType::LowShelf,
                        sample_rate as int,
                        BASS_SHELF_FREQ as int,
                        BASS_SHELF_Q as int,
                        0,
                    ) && low_shelves@[j].z1 == 0 && low_shelves@[j].z2 == 0,
                forall|j: int| 0 <= j < ch ==> low_energy@[j] == 0,
                forall|j: int| 0 <= j < ch ==> total_energy@[j] == 0,
            decreases channels - ch,
        {
            high_passes.push(BiquadFilter::new(FilterType::HighPass, sample_rate, BASS_HP_FREQ,
                BASS_HP_Q, 0));
            low_shelves.push(BiquadFilter::new(FilterType::LowShelf, sample_rate, BASS_SHELF_FREQ,
                BASS_SHELF_Q, 0));
            low_energy.push(0);
            total_energy.push(0);
            ch = ch + 1;
        }
        BassProcessor {
            high_passes,
            low_shelves,
            channels,
            sample_rate,
            low_energy,
            total_energy,
            sample_count: 0,
            target_gain: 0,
            current_gain: 0,
            enabled: false,
            intensity: 50 * FX_ONE,
        }
    }

    /// Enable or disable the boost; disabling zeroes the adaptation
    /// target at once.
    pub fn set_enabled(&mut self, enabled: bool)
        ensures
            final(self).enabled == enabled,
            final(self).target_gain == if enabled {
                old(self).target_gain as int
            } else {
                0int
            },
            *final(self) == (BassProcessor {
                enabled,
                target_gain: final(self).target_gain,
                ..*old(self)
            }),
    {
        self.enabled = enabled;
        if !enabled {
            self.target_gain = 0;
        }
    }

    /// Set the boost intensity; values are clamped into
    /// `[0, 100]` (fixed point).
    pub fn set_intensity(&mut self, intensity: i64)
        ensures
            final(self).intensity == if intensity < 0 {
                0int
            } else if intensity > 100 * FX_ONE {
                100 * (FX_ONE as int)
            } else {
                intensity as int
            },
            *final(self) == (BassProcessor { intensity: final(self).intensity, ..*old(self) }),
    {
        self.intensity = fx_clamp_to(intensity, 0, 100 * FX_ONE);
    }

    /// Zero both energy accumulators and the frame counter.
    fn reset_accumulators(&mut self)
        requires
            old(self).wf_lens(),
        ensures
            final(self).wf(),
            forall|j: int|
                0 <= j < final(self).low_energy@.len() ==> final(self).low_energy@[j] == 0,
            forall|j: int|
                0 <= j < final(self).total_energy@.len() ==> final(self).total_energy@[j] == 0,
            final(self).sample_count == 0,
            final(self).low_energy@.len() == old(self).low_energy@.len(),
            final(self).total_energy@.len() == old(self).total_energy@.len(),
            final(self).high_passes == old(self).high_passes,
            final(self).low_shelves == old(self).low_shelves,
            final(self).channels == old(self).channels,
            final(self).sample_rate == old(self).sample_rate,
            final(self).target_gain == old(self).target_gain,
            final(self).current_gain == old(self).current_gain,
            final(self).enabled == old(self).enabled,
            final(self).intensity == old(self).intensity,
    {
        let mut ch: usize = 0;
        while ch < self.channels
            invariant
                ch <= self.channels,
                self.low_energy@.len() == self.channels,
                self.total_energy@.len() == self.channels,
                forall|j: int| 0 <= j < ch ==> self.low_energy@[j] == 0,
                forall|j: int| 0 <= j < ch ==> self.total_energy@[j] == 0,
                self.high_passes == old(self).high_passes,
                self.low_shelves == old(self).low_shelves,
                self.channels == old(self).channels,
                self.sample_rate == old(self).sample_rate,
                self.sample_count == old(self).sample_count,
                self.wf_lens(),
                self.target_gain == old(self).target_gain,
                self.current_gain == old(self).current_gain,
                self.enabled == old(self).enabled,
                self.intensity == old(self).intensity,
            decreases self.channels - ch,
        {
            self.low_energy[ch] = 0;
            self.total_energy[ch] = 0;
            ch = ch + 1;
        }
        self.sample_count = 0;
    }

    /// The adapt decision at a block boundary: recompute the target
    /// gain from the accumulated energies, then start a fresh
    /// accumulation window.
    fn update_adaptive_gain(&mut self)
        requires
            old(self).wf_lens(),
            0 < old(self).sample_count <= ADAPT_FRAMES + 1,
        ensures
            final(self).wf(),
            final(self).target_gain == spec_adapt_decision(
                old(self).target_gain as int,
                old(self).enabled,
                old(self).intensity as int,
                spec_tdiv(
                    spec_ratio_sum(
                        old(self).low_energy@,
                        old(self).total_energy@,
                        old(self).sample_count as int,
                        old(self).channels as int,
                    ),
                    old(self).channels as int,
                ),
                spec_tdiv(
                    spec_avg_total_sum(
                        old(self).total_energy@,
                        old(self).sample_count as int,
                        old(self).channels as int,
                    ),
                    old(self).channels as int,
                ),
            ),
            final(self).sample_count == 0,
            final(self).low_energy@ == Seq::new(old(self).low_energy@.len(), |j: int| 0i64),
            final(self).total_energy@ == Seq::new(old(self).total_energy@.len(), |j: int| 0i64),
            0 <= final(self).target_gain <= 8 * FX_ONE,
            final(self).high_passes == old(self).high_passes,
            final(self).low_shelves == old(self).low_shelves,
            final(self).channels == old(self).channels,
            final(self).sample_rate == old(self).sample_rate,
            final(self).current_gain == old(self).current_gain,
            final(self).enabled == old(self).enabled,
            final(self).intensity == old(self).intensity,
            !old(self).enabled ==> final(self).target_gain == 0,
    {
        if !self.enabled {
            self.target_gain = 0;
            self.reset_accumulators();
            proof {
                assert(self.low_energy@ =~= Seq::new(old(self).low_energy@.len(), |j: int| 0i64));
                assert(self.total_energy@ =~= Seq::new(
                    old(self).total_energy@.len(),
                    |j: int| 0i64,
                ));
            }
            return ;
        }
        let count: i64 = self.sample_count as i64;
        let mut ratio_sum: i64 = 0;
        let mut total_sum: i64 = 0;
        let mut ch: usize = 0;
        while ch < self.channels
            invariant
                self == old(self),
                self.wf_lens(),
                0 < self.sample_count <= ADAPT_FRAMES + 1,
                count == self.sample_count as i64,
                ch <= self.channels,
                ratio_sum == spec_ratio_sum(
                    self.low_energy@,
                    self.total_energy@,
                    count as int,
                    ch as int,
                ),
                total_sum == spec_avg_total_sum(self.total_energy@, count as int, ch as int),
            decreases self.channels - ch,
        {
            let avg_total: i64 = fx_div_int(self.total_energy[ch], count);
            let avg_low: i64 = fx_div_int(self.low_energy[ch], count);
            let ratio: i64 = if avg_total > CHANNEL_EPS {
                fx_sqrt(fx_div(avg_low, avg_total))
            } else {
                0
            };
            ratio_sum = fx_add(ratio_sum, ratio);
            total_sum = fx_add(total_sum, avg_total);
            ch = ch + 1;
        }
        let chans: i64 = self.channels as i64;
        let avg_ratio: i64 = fx_div_int(ratio_sum, chans);
        let avg_total: i64 = fx_div_int(total_sum, chans);
        let q: i64 = fx_div_int(self.intensity, 100);
        proof {
            vstd::arithmetic::div_mod::lemma_div_is_ordered(
                self.intensity as int,
                100 * FX_ONE,
                100,
            );
            vstd::arithmetic::div_mod::lemma_div_multiples_vanish(FX_ONE as int, 100);
            vstd::arithmetic::div_mod::lemma_div_pos_is_pos(self.intensity as int, 100);
            crate::fixed::lemma_fx_mul_factor_le_one(q as int, 8 * FX_ONE);
        }
        let max_gain: i64 = fx_mul(q, 8 * FX_ONE);
        let stepped: i64 = if avg_total > SIGNAL_EPS && avg_ratio < RATIO_LOW {
            let up: i64 = fx_add(self.target_gain, GAIN_STEP);
            if up > max_gain {
                max_gain
            } else if up < 0 {
                0
            } else {
                up
            }
        } else if avg_ratio > RATIO_HIGH {
            let down: i64 = fx_sub(self.target_gain, GAIN_STEP);
            if down < 0 {
                0
            } else {
                down
            }
        } else {
            self.target_gain
        };
        self.target_gain = if stepped > max_gain {
            max_gain
        } else {
            stepped
        };
        self.reset_accumulators();
        proof {
            assert(self.low_energy@ =~= Seq::new(old(self).low_energy@.len(), |j: int| 0i64));
            assert(self.total_energy@ =~= Seq::new(old(self).total_energy@.len(), |j: int| 0i64));
        }
    }

    /// Drift the applied gain towards the target and, when the move
    /// is material, reinstall the shelf coefficients while keeping
    /// the filter state.
    fn update_filters(&mut self)
        requires
            old(self).wf_lens(),
        ensures
            final(self).wf_lens(),
            final(self).sample_count == old(self).sample_count,
            final(self).current_gain == spec_smoothed_gain(
                old(self).target_gain,
                old(self).current_gain,
            ),
            final(self).low_shelves@ == spec_smoothed_shelves(
                old(self).low_shelves@,
                old(self).sample_rate,
                old(self).target_gain,
                old(self).current_gain,
            ),
            ({
                let diff = spec_fx_sub(old(self).target_gain as int, old(self).current_gain as int);
                if spec_abs(diff) > GAIN_EPS {
                    &&& final(self).current_gain == spec_fx_add(
                        old(self).current_gain as int,
                        spec_fx_mul(diff, GAIN_SMOOTHING as int),
                    )
                    &&& forall|j: int|
                        0 <= j < final(self).low_shelves@.len()
                            ==> (#[trigger] final(self).low_shelves@[j]).coeffs_match(
                            FilterType::LowShelf,
                            old(self).sample_rate as int,
                            BASS_SHELF_FREQ as int,
                            BASS_SHELF_Q as int,
                            final(self).current_gain as int,
                        )
                    &&& forall|j: int|
                        0 <= j < final(self).low_shelves@.len()
                            ==> (#[trigger] final(self).low_shelves@[j]).z1 == old(
                            self,
                        ).low_shelves@[j].z1 && final(self).low_shelves@[j].z2 == old(
                            self,
                        ).low_shelves@[j].z2
                } else {
                    final(self).current_gain == old(self).current_gain && final(self).low_shelves
                        == old(self).low_shelves
                }
            }),
            final(self).low_shelves@.len() == old(self).low_shelves@.len(),
            final(self).high_passes == old(self).high_passes,
            final(self).low_energy == old(self).low_energy,
            final(self).total_energy == old(self).total_energy,
            final(self).channels == old(self).channels,
            final(self).sample_rate == old(self).sample_rate,
            final(self).sample_count == old(self).sample_count,
            final(self).target_gain == old(self).target_gain,
            final(self).enabled == old(self).enabled,
            final(self).intensity == old(self).intensity,
    {
        let diff: i64 = fx_sub(self.target_gain, self.current_gain);
        if fx_abs(diff) > GAIN_EPS {
            self.current_gain = fx_add(self.current_gain, fx_mul(diff, GAIN_SMOOTHING));
            let mut ch: usize = 0;
            while ch < self.channels
                invariant
                    ch <= self.channels,
                    self.wf_lens(),
                    self.low_shelves@.len() == old(self).low_shelves@.len(),
                    forall|j: int|
                        0 <= j < ch ==> (#[trigger] self.low_shelves@[j]).coeffs_match(
                            FilterType::LowShelf,
                            self.sample_rate as int,
                            BASS_SHELF_FREQ as int,
                            BASS_SHELF_Q as int,
                            self.current_gain as int,
                        ),
                    forall|j: int|
                        ch <= j < self.low_shelves@.len() ==> self.low_shelves@[j] == old(
                            self,
                        ).low_shelves@[j],
                    forall|j: int|
                        0 <= j < self.low_shelves@.len() ==> self.low_shelves@[j].z1 == old(
                            self,
                        ).low_shelves@[j].z1 && self.low_shelves@[j].z2 == old(
                            self,
                        ).low_shelves@[j].z2,
                    self.high_passes == old(self).high_passes,
                    self.low_energy == old(self).low_energy,
                    self.total_energy == old(self).total_energy,
                    self.channels == old(self).channels,
                    self.sample_rate == old(self).sample_rate,
                    self.sample_count == old(self).sample_count,
                    self.target_gain == old(self).target_gain,
                    self.enabled == old(self).enabled,
                    self.intensity == old(self).intensity,
                    self.current_gain == spec_fx_add(
                        old(self).current_gain as int,
                        spec_fx_mul(
                            spec_fx_sub(
                                old(self).target_gain as int,
                                old(self).current_gain as int,
                            ),
                            GAIN_SMOOTHING as int,
                        ),
                    ),
                decreases self.channels - ch,
            {
                let gain: i64 = self.current_gain;
                let rate: u32 = self.sample_rate;
                proof {
                    assert(self.low_shelves@[ch as int] == old(self).low_shelves@[ch as int]);
                }
                self.low_shelves[ch].update(FilterType::LowShelf, rate, BASS_SHELF_FREQ,
                    BASS_SHELF_Q, gain);
                ch = ch + 1;
            }
            proof {
                let g = spec_smoothed_gain(old(self).target_gain, old(self).current_gain);
                assert(self.current_gain == g);
                assert forall|j: int| 0 <= j < self.low_shelves@.len() implies self.low_shelves@[j]
                    == spec_refreshed_shelf(
                    old(self).low_shelves@[j],
                    old(self).sample_rate,
                    g,
                ) by {
                    assert(self.low_shelves@[j].coeffs_match(
                        FilterType::LowShelf,
                        self.sample_rate as int,
                        BASS_SHELF_FREQ as int,
                        BASS_SHELF_Q as int,
                        self.current_gain as int,
                    ));
                    assert(self.low_shelves@[j].z1 == old(self).low_shelves@[j].z1
                        && self.low_shelves@[j].z2 == old(self).low_shelves@[j].z2);
                }
                assert(self.low_shelves@ =~= spec_smoothed_shelves(
                    old(self).low_shelves@,
                    old(self).sample_rate,
                    old(self).target_gain,
                    old(self).current_gain,
                ));
            }
        }
    }

    /// Process a block of interleaved samples: accumulate energies,
    /// high-pass, low-shelf, and adapt every `ADAPT_FRAMES` frames.
    /// The buffer's length and the processor's configuration are
    /// unchanged.
    pub fn process(&mut self, samples: &mut Vec<i64>)
        requires
            old(self).wf(),
        ensures
            final(self).wf(),
            final(samples)@.len() == old(samples)@.len(),
            final(self).channels == old(self).channels,
            final(self).sample_rate == old(self).sample_rate,
            final(self).enabled == old(self).enabled,
            final(self).intensity == old(self).intensity,
            !old(self).enabled ==> final(self).target_gain == 0 || final(self).target_gain == old(
                self,
            ).target_gain,
            final(self).current_gain == spec_smoothed_gain(
                old(self).target_gain,
                old(self).current_gain,
            ),
            ({
                let st = spec_bass_post(*old(self), old(samples)@);
                &&& final(self).high_passes@ == st.hp
                &&& final(self).low_shelves@ == st.sh
                &&& final(self).low_energy@ == st.low
                &&& final(self).total_energy@ == st.total
                &&& final(self).sample_count as int == st.count
                &&& final(self).target_gain == st.target
                &&& final(samples)@ == st.samples
            }),
    {
        self.update_filters();
        let ghost st0 = spec_bass_stage0(*old(self), old(samples)@);
        let ghost en = old(self).enabled;
        let ghost inten = old(self).intensity;
        let ghost cs = self.channels as int;
        let total: usize = samples.len();
        let frames: usize = total / self.channels;
        let mut i: usize = 0;
        while i < frames
            invariant
                i <= frames,
                self.wf(),
                cs == self.channels as int,
                self.channels == old(self).channels,
                self.sample_rate == old(self).sample_rate,
                self.enabled == en,
                self.intensity == inten,
                en == old(self).enabled,
                inten == old(self).intensity,
                st0 == spec_bass_stage0(*old(self), old(samples)@),
                self.current_gain == spec_smoothed_gain(
                    old(self).target_gain,
                    old(self).current_gain,
                ),
                !old(self).enabled ==> self.target_gain == 0 || self.target_gain == old(
                    self,
                ).target_gain,
                samples@.len() == old(samples)@.len(),
                total == samples@.len(),
                frames == old(samples)@.len() as int / cs,
                ({
                    let st = spec_bass_frames(st0, i as int, cs, en, inten);
                    self.high_passes@ == st.hp && self.low_shelves@ == st.sh && self.low_energy@
                        == st.low && self.total_energy@ == st.total && self.sample_count as int
                        == st.count && self.target_gain == st.target && samples@ == st.samples
                }),
            decreases frames - i,
        {
            let ghost stf = spec_bass_frames(st0, i as int, cs, en, inten);
            let mut ch: usize = 0;
            while ch < self.channels
                invariant
                    self.wf(),
                    cs == self.channels as int,
                    ch <= self.channels,
                    i < frames,
                    self.channels == old(self).channels,
                    self.sample_rate == old(self).sample_rate,
                    self.enabled == en,
                    self.intensity == inten,
                    self.current_gain == spec_smoothed_gain(
                        old(self).target_gain,
                        old(self).current_gain,
                    ),
                    !old(self).enabled ==> self.target_gain == 0 || self.target_gain == old(
                        self,
                    ).target_gain,
                    samples@.len() == old(samples)@.len(),
                    total == samples@.len(),
                    frames == old(samples)@.len() as int / cs,
                    ({
                        let st = spec_bass_channels(stf, i as int, cs, ch as int);
                        self.high_passes@ == st.hp && self.low_shelves@ == st.sh
                            && self.low_energy@ == st.low && self.total_energy@ == st.total
                            && self.sample_count as int == st.count && self.target_gain
                            == st.target && samples@ == st.samples
                    }),
                decreases self.channels - ch,
            {
                proof {
                    lemma_interleaved_index_in_bounds(
                        i as int,
                        ch as int,
                        cs,
                        samples@.len() as int,
                    );
                }
                let idx: usize = i * self.channels + ch;
                let ghost pre = spec_bass_channels(stf, i as int, cs, ch as int);
                let x: i64 = samples[idx];
                let te: i64 = self.total_energy[ch];
                self.total_energy[ch] = fx_add(te, fx_abs(x));
                let hp_out: i64 = self.high_passes[ch].process(x);
                let le: i64 = self.low_energy[ch];
                self.low_energy[ch] = fx_add(le, fx_abs(hp_out));
                let y: i64 = self.low_shelves[ch].process(hp_out);
                samples[idx] = y;
                proof {
                    let post = spec_bass_sample(pre, i as int, ch as int, cs);
                    assert(x == pre.samples[i as int * cs + ch as int]);
                    assert(self.total_energy@ == post.total);
                    assert(self.high_passes@ == post.hp);
                    assert(self.low_energy@ == post.low);
                    assert(self.low_shelves@ == post.sh);
                    assert(samples@ == post.samples);
                    assert(spec_bass_channels(stf, i as int, cs, ch as int + 1) == post);
                }
                ch = ch + 1;
            }
            proof {
                assert(spec_bass_channels(stf, i as int, cs, cs) == spec_bass_channels(
                    stf,
                    i as int,
                    cs,
                    self.channels as int,
                ));
            }
            let ghost st1 = spec_bass_channels(stf, i as int, cs, cs);
            self.sample_count = self.sample_count + 1;
            let ghost st2 = BassStage { count: st1.count + 1, ..st1 };
            if self.sample_count >= ADAPT_FRAMES {
                self.update_adaptive_gain();
                proof {
                    let sta = spec_bass_adapt_state(st2, en, inten, cs);
                    assert(self.low_energy@ == sta.low);
                    assert(self.total_energy@ == sta.total);
                    assert(self.target_gain == sta.target);
                    assert(spec_bass_frames(st0, i as int + 1, cs, en, inten) == sta);
                }
            } else {
                proof {
                    assert(spec_bass_frames(st0, i as int + 1, cs, en, inten) == st2);
                }
            }
            i = i + 1;
        }
    }
}

} // verus!
