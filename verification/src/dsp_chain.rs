//! The fixed per-channel DSP cascade, applied in order: adaptive bass
//! boost, high-shelf trim, peak limiter.

use vstd::prelude::*;

use crate::bass::{BassProcessor, spec_bass_post, spec_smoothed_gain};
use crate::eq::{HighFreqEQ, lemma_interleaved_index_in_bounds, spec_bank_fold};
use crate::limiter::{Limiter, spec_limiter_apply};

verus! {

/// The limiter threshold: -0.1 dB in fixed point.
pub const LIMITER_THRESHOLD_DB: i64 = -1677722;

/// A per-channel limiter bank folded over the first `n` interleaved
/// samples, in order: sample `idx` passes through limiter
/// `idx % channels`, which carries its state to the next frame.
pub open spec fn spec_limiter_bank_fold(
    limiters: Seq<Limiter>,
    s: Seq<i64>,
    channels: int,
    n: int,
) -> (Seq<Limiter>, Seq<i64>)
    decreases n,
{
    if n <= 0 {
        (limiters, s)
    } else {
        let (ls, ss) = spec_limiter_bank_fold(limiters, s, channels, n - 1);
        let ch = (n - 1) % channels;
        let (nl, y) = spec_limiter_apply(ls[ch], ss[n - 1]);
        (ls.update(ch, nl), ss.update(n - 1, y))
    }
}

pub struct DspChain {
    pub bass: BassProcessor,
    pub hf_eq: HighFreqEQ,
    pub limiter: Vec<Limiter>,
    pub channels: usize,
}

impl DspChain {
    pub open spec fn wf(&self) -> bool {
        &&& self.bass.wf()
        &&& self.bass.channels == self.channels
        &&& self.hf_eq.wf()
        &&& self.hf_eq.channels == self.channels
        &&& self.limiter@.len() == self.channels
        &&& 1 <= self.channels <= 8
    }

    pub fn new(sample_rate: u32, channels: usize) -> (r: DspChain)
        requires
            1 <= channels <= 8,
        ensures
            r.wf(),
            r.channels == channels,
            !r.bass.enabled,
            r.bass.sample_rate == sample_rate,
            r.bass.intensity == 50 * crate::fixed::FX_ONE,
            r.bass.target_gain == 0,
            r.bass.current_gain == 0,
            r.bass.sample_count == 0,
            r.hf_eq.configured(sample_rate as int),
            forall|j: int|
                0 <= j < channels ==> (#[trigger] r.limiter@[j]).threshold
                    == crate::math::spec_db_to_gain(LIMITER_THRESHOLD_DB as int) && r.limiter@[j].envelope
                    == 0 && r.limiter@[j].gain == crate::fixed::FX_ONE,
    {
        let mut limiter: Vec<Limiter> = Vec::new();
        let mut ch: usize = 0;
        while ch < channels
            invariant
                ch <= channels,
                limiter@.len() == ch,
                forall|j: int|
                    0 <= j < ch ==> (#[trigger] limiter@[j]).threshold
                        == crate::math::spec_db_to_gain(LIMITER_THRESHOLD_DB as int)
                        && limiter@[j].envelope == 0 && limiter@[j].gain == crate::fixed::FX_ONE,
            decreases channels - ch,
        {
            limiter.push(Limiter::new(LIMITER_THRESHOLD_DB, sample_rate));
            ch = ch + 1;
        }
        DspChain {
            bass: BassProcessor::new(sample_rate, channels),
            hf_eq: HighFreqEQ::new(sample_rate, channels),
            limiter,
            channels,
        }
    }

    /// Enable or disable the adaptive bass boost.
    pub fn set_bass_enabled(&mut self, enabled: bool)
        ensures
            final(self).bass.enabled == enabled,
            !enabled ==> final(self).bass.target_gain == 0,
            enabled ==> final(self).bass.target_gain == old(self).bass.target_gain,
            old(self).wf() ==> final(self).wf(),
            final(self).channels == old(self).channels,
            final(self).bass.intensity == old(self).bass.intensity,
            final(self).bass.sample_rate == old(self).bass.sample_rate,
            final(self).hf_eq == old(self).hf_eq,
            final(self).limiter == old(self).limiter,
    {
        self.bass.set_enabled(enabled);
    }

    /// Set the bass boost intensity, clamped into `[0, 100]` fixed
    /// point.
    pub fn set_bass_intensity(&mut self, intensity: i64)
        ensures
            old(self).wf() ==> final(self).wf(),
            final(self).channels == old(self).channels,
            final(self).bass.enabled == old(self).bass.enabled,
            final(self).bass.intensity == if intensity < 0 {
                0int
            } else if intensity > 100 * crate::fixed::FX_ONE {
                100 * (crate::fixed::FX_ONE as int)
            } else {
                intensity as int
            },
            final(self).bass.target_gain == old(self).bass.target_gain,
            final(self).bass.sample_rate == old(self).bass.sample_rate,
            final(self).hf_eq == old(self).hf_eq,
            final(self).limiter == old(self).limiter,
    {
        self.bass.set_intensity(intensity);
    }

    /// Run a block of interleaved samples through the whole cascade,
    /// in order: the adaptive bass stage, then the high-shelf bank,
    /// then the per-channel limiters.
    pub fn process(&mut self, samples: &mut Vec<i64>)
        requires
            old(self).wf(),
        ensures
            final(self).wf(),
            final(samples)@.len() == old(samples)@.len(),
            final(self).channels == old(self).channels,
            final(self).bass.enabled == old(self).bass.enabled,
            final(self).bass.intensity == old(self).bass.intensity,
            final(self).bass.sample_rate == old(self).bass.sample_rate,
            ({
                let cs = old(self).channels as int;
                let n = (old(samples)@.len() as int / cs) * cs;
                let bs = spec_bass_post(old(self).bass, old(samples)@);
                let eqr = spec_bank_fold(old(self).hf_eq.filters@, bs.samples, cs, n);
                let lr = spec_limiter_bank_fold(old(self).limiter@, eqr.1, cs, n);
                &&& final(self).bass.high_passes@ == bs.hp
                &&& final(self).bass.low_shelves@ == bs.sh
                &&& final(self).bass.low_energy@ == bs.low
                &&& final(self).bass.total_energy@ == bs.total
                &&& final(self).bass.sample_count as int == bs.count
                &&& final(self).bass.target_gain == bs.target
                &&& final(self).bass.current_gain == spec_smoothed_gain(
                    old(self).bass.target_gain,
                    old(self).bass.current_gain,
                )
                &&& final(self).hf_eq.filters@ == eqr.0
                &&& final(self).limiter@ == lr.0
                &&& final(samples)@ == lr.1
            }),
    {
        let ghost cs = self.channels as int;
        let ghost n0 = old(samples)@.len() as int / cs * cs;
        let ghost bs = spec_bass_post(old(self).bass, old(samples)@);
        self.bass.process(samples);
        proof {
            assert(samples@ == bs.samples);
        }
        let ghost eqr = spec_bank_fold(old(self).hf_eq.filters@, bs.samples, cs, n0);
        self.hf_eq.process(samples);
        proof {
            assert(self.hf_eq.filters@ == eqr.0 && samples@ == eqr.1);
        }
        let total: usize = samples.len();
        let frames: usize = total / self.channels;
        let mut i: usize = 0;
        while i < frames
            invariant
                i <= frames,
                self.wf(),
                cs == self.channels as int,
                self.channels == old(self).channels,
                bs == spec_bass_post(old(self).bass, old(samples)@),
                eqr == spec_bank_fold(old(self).hf_eq.filters@, bs.samples, cs, n0),
                self.bass.high_passes@ == bs.hp,
                self.bass.low_shelves@ == bs.sh,
                self.bass.low_energy@ == bs.low,
                self.bass.total_energy@ == bs.total,
                self.bass.sample_count as int == bs.count,
                self.bass.target_gain == bs.target,
                self.bass.current_gain == spec_smoothed_gain(
                    old(self).bass.target_gain,
                    old(self).bass.current_gain,
                ),
                self.bass.enabled == old(self).bass.enabled,
                self.bass.intensity == old(self).bass.intensity,
                self.bass.sample_rate == old(self).bass.sample_rate,
                self.hf_eq.filters@ == eqr.0,
                samples@.len() == old(samples)@.len(),
                total == samples@.len(),
                frames == old(samples)@.len() as int / cs,
                n0 == frames * cs,
                ({
                    let lr = spec_limiter_bank_fold(
                        old(self).limiter@,
                        eqr.1,
                        cs,
                        i as int * cs,
                    );
                    self.limiter@ == lr.0 && samples@ == lr.1
                }),
            decreases frames - i,
        {
            let mut ch: usize = 0;
            while ch < self.channels
                invariant
                    self.wf(),
                    cs == self.channels as int,
                    ch <= self.channels,
                    i < frames,
                    self.channels == old(self).channels,
                    bs == spec_bass_post(old(self).bass, old(samples)@),
                    eqr == spec_bank_fold(old(self).hf_eq.filters@, bs.samples, cs, n0),
                    n0 == frames * cs,
                    self.bass.high_passes@ == bs.hp,
                    self.bass.low_shelves@ == bs.sh,
                    self.bass.low_energy@ == bs.low,
                    self.bass.total_energy@ == bs.total,
                    self.bass.sample_count as int == bs.count,
                    self.bass.target_gain == bs.target,
                    self.bass.current_gain == spec_smoothed_gain(
                        old(self).bass.target_gain,
                        old(self).bass.current_gain,
                    ),
                    self.bass.enabled == old(self).bass.enabled,
                    self.bass.intensity == old(self).bass.intensity,
                    self.bass.sample_rate == old(self).bass.sample_rate,
                    self.hf_eq.filters@ == eqr.0,
                    samples@.len() == old(samples)@.len(),
                    total == samples@.len(),
                    frames == old(samples)@.len() as int / cs,
                    ({
                        let lr = spec_limiter_bank_fold(
                            old(self).limiter@,
                            eqr.1,
                            cs,
                            i as int * cs + ch as int,
                        );
                        self.limiter@ == lr.0 && samples@ == lr.1
                    }),
                decreases self.channels - ch,
            {
                proof {
                    lemma_interleaved_index_in_bounds(
                        i as int,
                        ch as int,
                        cs,
                        samples@.len() as int,
                    );
                }
                let idx: usize = i * self.channels + ch;
                let ghost pre_l = self.limiter@;
                let ghost pre_s = samples@;
                let x: i64 = samples[idx];
                let y: i64 = self.limiter[ch].process(x);
                samples[idx] = y;
                proof {
                    let m0 = i as int * cs + ch as int;
                    vstd::arithmetic::div_mod::lemma_mod_multiples_vanish(i as int, ch as int, cs);
                    vstd::arithmetic::div_mod::lemma_small_mod(ch as nat, self.channels as nat);
                    assert(cs * (i as int) + ch as int == m0) by (nonlinear_arith)
                        requires
                            m0 == i as int * cs + ch as int,
                    ;
                    assert(m0 % cs == ch as int);
                    assert(spec_limiter_bank_fold(old(self).limiter@, eqr.1, cs, m0) == (
                        pre_l,
                        pre_s,
                    ));
                    let step = spec_limiter_apply(pre_l[ch as int], pre_s[m0]);
                    assert(x == pre_s[m0]);
                    assert(self.limiter@ == pre_l.update(ch as int, step.0));
                    assert(samples@ == pre_s.update(m0, step.1));
                    assert(spec_limiter_bank_fold(old(self).limiter@, eqr.1, cs, m0 + 1) == (
                        self.limiter@,
                        samples@,
                    ));
                }
                ch = ch + 1;
            }
            proof {
                assert((i as int + 1) * cs == i as int * cs + cs) by (nonlinear_arith);
            }
            i = i + 1;
        }
    }
}

} // verus!
