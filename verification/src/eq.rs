//! Fixed high-shelf equaliser: one biquad per channel at 12 kHz,
//! Q 0.7, -1.5 dB — a gentle trim of the very top of the spectrum.

use vstd::prelude::*;

use crate::biquad::{BiquadFilter, FilterType, spec_filter_step};

verus! {

/// The shelf's centre frequency in fixed-point Hz.
pub const EQ_FREQ: i64 = 12000 * 0x100_0000;

/// The shelf's quality factor, 0.7 in fixed point.
pub const EQ_Q: i64 = 11744051;

/// The shelf's gain, -1.5 dB in fixed point.
pub const EQ_GAIN_DB: i64 = -25165824;

/// A per-channel filter bank folded over the first `n` interleaved
/// samples, in order: sample `idx` passes through filter
/// `idx % channels`, which carries its state to the next frame.
/// Returns the filters and the buffer after those `n` samples.
pub open spec fn spec_bank_fold(
    filters: Seq<BiquadFilter>,
    s: Seq<i64>,
    channels: int,
    n: int,
) -> (Seq<BiquadFilter>, Seq<i64>)
    decreases n,
{
    if n <= 0 {
        (filters, s)
    } else {
        let (fs, ss) = spec_bank_fold(filters, s, channels, n - 1);
        let ch = (n - 1) % channels;
        let (nf, y) = spec_filter_step(fs[ch], ss[n - 1]);
        (fs.update(ch, nf), ss.update(n - 1, y))
    }
}

/// A per-channel cascade of identical high-shelf filters over
/// interleaved samples.
pub struct HighFreqEQ {
    pub filters: Vec<BiquadFilter>,
    pub channels: usize,
}

impl HighFreqEQ {
    /// One filter per channel, each freshly configured.
    pub open spec fn wf(&self) -> bool {
        self.filters@.len() == self.channels
    }

    /// All filters carry the shelf's cookbook coefficients for this
    /// sample rate.
    pub open spec fn configured(&self, sample_rate: int) -> bool {
        forall|j: int|
            0 <= j < self.filters@.len() ==> #[trigger] self.filters@[j].coeffs_match(
                FilterType::HighShelf,
                sample_rate,
                EQ_FREQ as int,
                EQ_Q as int,
                EQ_GAIN_DB as int,
            )
    }

    pub fn new(sample_rate: u32, channels: usize) -> (r: HighFreqEQ)
        ensures
            r.wf(),
            r.channels == channels,
            r.configured(sample_rate as int),
    {
        let mut filters: Vec<BiquadFilter> = Vec::new();
        let mut ch: usize = 0;
        while ch < channels
            invariant
                ch <= channels,
                filters@.len() == ch,
                forall|j: int|
                    0 <= j < filters@.len() ==> #[trigger] filters@[j].coeffs_match(
                        FilterType::HighShelf,
                        sample_rate as int,
                        EQ_FREQ as int,
                        EQ_Q as int,
                        EQ_GAIN_DB as int,
                    ),
            decreases channels - ch,
        {
            filters.push(BiquadFilter::new(FilterType::HighShelf, sample_rate, EQ_FREQ, EQ_Q,
                EQ_GAIN_DB));
            ch = ch + 1;
        }
        HighFreqEQ { filters, channels }
    }

    /// Run every interleaved sample through its channel's shelf. The
    /// buffer's length and the filters' coefficients are unchanged;
    /// only the filter states and the sample values move.
    pub fn process(&mut self, samples: &mut Vec<i64>)
        requires
            old(self).wf(),
        ensures
            final(self).wf(),
            final(self).channels == old(self).channels,
            final(samples)@.len() == old(samples)@.len(),
            final(self).filters@.len() == old(self).filters@.len(),
            forall|j: int|
                0 <= j < final(self).filters@.len() ==> #[trigger] coeffs_eq(
                    final(self).filters@[j],
                    old(self).filters@[j],
                ),
            old(self).channels >= 1 ==> ({
                let cs = old(self).channels as int;
                let frames = old(samples)@.len() as int / cs;
                let (fs, ss) = spec_bank_fold(
                    old(self).filters@,
                    old(samples)@,
                    cs,
                    frames * cs,
                );
                final(self).filters@ == fs && final(samples)@ == ss
            }),
            old(self).channels == 0 ==> final(samples)@ == old(samples)@ && *final(self) == *old(
                self,
            ),
    {
        if self.channels == 0 {
            return ;
        }
        let total: usize = samples.len();
        let frames: usize = total / self.channels;
        let mut i: usize = 0;
        while i < frames
            invariant
                i <= frames,
                self.channels == old(self).channels,
                self.channels > 0,
                self.filters@.len() == old(self).filters@.len(),
                self.filters@.len() == self.channels,
                samples@.len() == old(samples)@.len(),
                total == samples@.len(),
                frames == old(samples)@.len() as int / self.channels as int,
                forall|j: int|
                    0 <= j < self.filters@.len() ==> #[trigger] coeffs_eq(
                        self.filters@[j],
                        old(self).filters@[j],
                    ),
                ({
                    let (fs, ss) = spec_bank_fold(
                        old(self).filters@,
                        old(samples)@,
                        self.channels as int,
                        i as int * self.channels as int,
                    );
                    self.filters@ == fs && samples@ == ss
                }),
            decreases frames - i,
        {
            let mut ch: usize = 0;
            while ch < self.channels
                invariant
                    self.channels == old(self).channels,
                    self.channels > 0,
                    ch <= self.channels,
                    i < frames,
                    self.filters@.len() == old(self).filters@.len(),
                    self.filters@.len() == self.channels,
                    samples@.len() == old(samples)@.len(),
                    total == samples@.len(),
                    frames == old(samples)@.len() as int / self.channels as int,
                    forall|j: int|
                        0 <= j < self.filters@.len() ==> #[trigger] coeffs_eq(
                            self.filters@[j],
                            old(self).filters@[j],
                        ),
                    ({
                        let (fs, ss) = spec_bank_fold(
                            old(self).filters@,
                            old(samples)@,
                            self.channels as int,
                            i as int * self.channels as int + ch as int,
                        );
                        self.filters@ == fs && samples@ == ss
                    }),
                decreases self.channels - ch,
            {
                proof {
                    lemma_interleaved_index_in_bounds(
                        i as int,
                        ch as int,
                        self.channels as int,
                        samples@.len() as int,
                    );
                }
                let idx: usize = i * self.channels + ch;
                proof {
                    assert(coeffs_eq(self.filters@[ch as int], old(self).filters@[ch as int]));
                }
                let ghost pre_f = self.filters@;
                let ghost pre_s = samples@;
                let x: i64 = samples[idx];
                let y: i64 = self.filters[ch].process(x);
                samples[idx] = y;
                proof {
                    let cs = self.channels as int;
                    let n0 = i as int * cs + ch as int;
                    vstd::arithmetic::div_mod::lemma_mod_multiples_vanish(i as int, ch as int, cs);
                    vstd::arithmetic::div_mod::lemma_small_mod(ch as nat, self.channels as nat);
                    assert(n0 % cs == ch as int);
                    assert(spec_bank_fold(old(self).filters@, old(samples)@, cs, n0) == (
                        pre_f,
                        pre_s,
                    ));
                    let step = spec_filter_step(pre_f[ch as int], pre_s[n0]);
                    assert(x == pre_s[n0]);
                    assert(self.filters@ == pre_f.update(ch as int, step.0));
                    assert(samples@ == pre_s.update(n0, step.1));
                    assert(spec_bank_fold(old(self).filters@, old(samples)@, cs, n0 + 1) == (
                        self.filters@,
                        samples@,
                    ));
                }
                ch = ch + 1;
            }
            proof {
                assert((i as int + 1) * (self.channels as int) == i as int * self.channels as int
                    + self.channels as int) by (nonlinear_arith);
            }
            i = i + 1;
        }
    }
}

/// Two filters carry the same coefficients (their states may
/// differ).
pub open spec fn coeffs_eq(a: BiquadFilter, b: BiquadFilter) -> bool {
    a.b0 == b.b0 && a.b1 == b.b1 && a.b2 == b.b2 && a.a1 == b.a1 && a.a2 == b.a2
}

/// An interleaved index `frame * channels + ch` is inside the buffer
/// whenever the frame lies below `len / channels`.
pub proof fn lemma_interleaved_index_in_bounds(i: int, ch: int, channels: int, len: int)
    requires
        channels > 0,
        0 <= ch < channels,
        0 <= i < len / channels,
        len >= 0,
    ensures
        0 <= i * channels + ch < len,
{
    vstd::arithmetic::div_mod::lemma_fundamental_div_mod(len, channels);
    vstd::arithmetic::div_mod::lemma_mod_bound(len, channels);
    assert(i * channels + ch < len) by (nonlinear_arith)
        requires
            channels > 0,
            0 <= ch < channels,
            0 <= i,
            i + 1 <= len / channels,
            channels * (len / channels) + len % channels == len,
            0 <= len % channels,
    ;
    assert(i * channels + ch >= 0) by (nonlinear_arith)
        requires
            0 <= i,
            0 <= ch,
            channels > 0,
    ;
}

} // verus!
