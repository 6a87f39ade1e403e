//! Fixed-input-chunk sample-rate and channel conversion. The staging
//! discipline — gather input until a full chunk is available, convert
//! whole chunks, keep the tail — is verified here; the conversion of
//! one chunk is the job of an outside resampling library behind the
//! [`ChunkConverter`] trait, which the host implements.

use vstd::prelude::*;

verus! {

/// The frames a resampler consumes per conversion.
pub const CHUNK_FRAMES: usize = 1024;

/// One fixed-size conversion step: the engine's interface to the
/// resampling library. `convert` takes exactly one interleaved chunk
/// of `chunk_frames * in_channels` source samples and returns the
/// converted interleaved samples at the target rate and channel
/// count, however many frames the conversion produces.
pub trait ChunkConverter: Sized {
    /// Build a converter, or nothing when the configuration is
    /// unsupported.
    fn make(
        source_rate: u32,
        target_rate: u32,
        in_channels: usize,
        out_channels: usize,
        chunk_frames: usize,
    ) -> (r: Option<Self>);

    /// Convert one full interleaved chunk.
    fn convert(&mut self, chunk: &Vec<i64>) -> (r: Vec<i64>);
}

/// The first `m` whole `k`-sample chunks of a stream, oldest first.
pub open spec fn spec_chunk_seq(s: Seq<i64>, k: int, m: int) -> Seq<Seq<i64>>
    decreases m,
{
    if m <= 0 {
        Seq::empty()
    } else {
        spec_chunk_seq(s, k, m - 1).push(s.subrange((m - 1) * k, m * k))
    }
}

/// A chunk split of `m` chunks holds `m` blocks.
pub proof fn lemma_chunk_seq_len(s: Seq<i64>, k: int, m: int)
    requires
        m >= 0,
    ensures
        spec_chunk_seq(s, k, m).len() == m,
    decreases m,
{
    if m > 0 {
        lemma_chunk_seq_len(s, k, m - 1);
    }
}

/// The blocks of a sequence of blocks, laid end to end in order.
pub open spec fn spec_concat(xs: Seq<Seq<i64>>) -> Seq<i64>
    decreases xs.len(),
{
    if xs.len() == 0 {
        Seq::empty()
    } else {
        spec_concat(xs.drop_last()) + xs.last()
    }
}

/// A staged resampler around a [`ChunkConverter`].
pub struct Resampler<C: ChunkConverter> {
    pub converter: C,
    /// The source stream's channel count (the staging layout).
    pub channels: usize,
    /// The channel count the conversion emits.
    pub out_channels: usize,
    /// Frames per conversion chunk.
    pub chunk_size: usize,
    /// Staged input samples, always less than one full chunk between
    /// calls.
    pub buffer: Vec<i64>,
    /// Every full chunk handed to the converter, oldest first.
    pub fed: Ghost<Seq<Seq<i64>>>,
    /// What the converter returned for each handed chunk, in the
    /// same order.
    pub got: Ghost<Seq<Seq<i64>>>,
}

impl<C: ChunkConverter> Resampler<C> {
    /// Samples per conversion chunk.
    pub open spec fn chunk_samples(&self) -> int {
        self.chunk_size * self.channels
    }

    pub open spec fn wf(&self) -> bool {
        &&& 1 <= self.channels <= 8
        &&& 1 <= self.out_channels <= 8
        &&& 1 <= self.chunk_size <= 0x10000
        &&& self.buffer@.len() < self.chunk_samples()
        &&& self.fed@.len() == self.got@.len()
    }

    /// Build a resampler converting `source_rate` Hz over `channels`
    /// channels to `target_rate` Hz over `out_channels` channels,
    /// staging `chunk_size` frames per conversion; nothing when the
    /// underlying library rejects the configuration.
    pub fn new(
        source_rate: u32,
        target_rate: u32,
        channels: usize,
        out_channels: usize,
        chunk_size: usize,
    ) -> (r: Option<Resampler<C>>)
        requires
            1 <= channels <= 8,
            1 <= out_channels <= 8,
            1 <= chunk_size <= 0x10000,
        ensures
            r matches Some(rs) ==> rs.wf() && rs.buffer@.len() == 0 && rs.channels == channels
                && rs.out_channels == out_channels && rs.chunk_size == chunk_size && rs.fed@.len()
                == 0 && rs.got@.len() == 0,
    {
        proof {
            assert(1 <= chunk_size * channels) by (nonlinear_arith)
                requires
                    1 <= chunk_size,
                    1 <= channels,
            ;
        }
        match C::make(source_rate, target_rate, channels, out_channels, chunk_size) {
            Some(converter) => Some(
                Resampler {
                    converter,
                    channels,
                    out_channels,
                    chunk_size,
                    buffer: Vec::new(),
                    fed: Ghost(Seq::empty()),
                    got: Ghost(Seq::empty()),
                },
            ),
            None => None,
        }
    }

    /// The chunk size in frames that each conversion consumes.
    pub fn input_frames_next(&self) -> (r: usize)
        ensures
            r == self.chunk_size,
    {
        self.chunk_size
    }

    /// Stage `input`, then convert and emit whole chunks while at
    /// least one is staged. Afterwards the staging buffer holds
    /// exactly the tail of the combined stream that does not fill a
    /// chunk.
    pub fn process(&mut self, input: &Vec<i64>) -> (out: Vec<i64>)
        requires
            old(self).wf(),
        ensures
            final(self).wf(),
            final(self).channels == old(self).channels,
            final(self).out_channels == old(self).out_channels,
            final(self).chunk_size == old(self).chunk_size,
            ({
                let comb = old(self).buffer@ + input@;
                let k = old(self).chunk_samples();
                final(self).buffer@ == comb.skip(comb.len() - (comb.len() % (k as nat)))
            }),
            old(self).buffer@.len() + input@.len() < old(self).chunk_samples()
                ==> final(self).buffer@ == old(self).buffer@ + input@ && out@.len() == 0,
            ({
                let comb = old(self).buffer@ + input@;
                let k = old(self).chunk_samples();
                let m = comb.len() as int / k;
                &&& final(self).fed@ == old(self).fed@ + spec_chunk_seq(comb, k, m)
                &&& final(self).got@.len() == old(self).got@.len() + m
                &&& out@ == spec_concat(final(self).got@.skip(old(self).got@.len() as int))
            }),
    {
        let ghost comb = self.buffer@ + input@;
        proof {
            assert(self.chunk_size * self.channels <= 0x10000 * 8) by (nonlinear_arith)
                requires
                    1 <= self.chunk_size <= 0x10000,
                    1 <= self.channels <= 8,
            ;
        }
        let k: usize = self.chunk_size * self.channels;
        let mut j: usize = 0;
        while j < input.len()
            invariant
                j <= input@.len(),
                self.buffer@ == old(self).buffer@ + input@.subrange(0, j as int),
                self.channels == old(self).channels,
                self.out_channels == old(self).out_channels,
                self.chunk_size == old(self).chunk_size,
                self.fed@ == old(self).fed@,
                self.got@ == old(self).got@,
            decreases input@.len() - j,
        {
            self.buffer.push(input[j]);
            j = j + 1;
        }
        proof {
            assert(input@.subrange(0, input@.len() as int) =~= input@);
            assert(self.buffer@ =~= comb);
            assert(comb.skip(0) =~= comb);
        }
        let ghost consumed: int = 0;
        let ghost m: int = 0;
        let mut out: Vec<i64> = Vec::new();
        proof {
            assert(old(self).fed@ + spec_chunk_seq(comb, k as int, 0) =~= old(self).fed@);
            assert(self.got@.skip(old(self).got@.len() as int) =~= Seq::empty());
            assert(out@ =~= Seq::empty());
        }
        while self.buffer.len() >= k
            invariant
                k == old(self).chunk_samples(),
                1 <= k <= 0x10000 * 8,
                self.channels == old(self).channels,
                self.out_channels == old(self).out_channels,
                self.chunk_size == old(self).chunk_size,
                0 <= consumed <= comb.len(),
                consumed % (k as int) == 0,
                consumed == m * (k as int),
                0 <= m,
                self.buffer@ == comb.skip(consumed),
                consumed == 0 ==> out@.len() == 0,
                self.fed@ == old(self).fed@ + spec_chunk_seq(comb, k as int, m),
                self.got@.len() == old(self).got@.len() + m,
                out@ == spec_concat(self.got@.skip(old(self).got@.len() as int)),
            decreases self.buffer@.len(),
        {
            let mut chunk: Vec<i64> = Vec::new();
            let mut a: usize = 0;
            while a < k
                invariant
                    a <= k,
                    k <= self.buffer@.len(),
                    chunk@ == self.buffer@.subrange(0, a as int),
                decreases k - a,
            {
                chunk.push(self.buffer[a]);
                a = a + 1;
            }
            let mut rest: Vec<i64> = Vec::new();
            let mut b: usize = k;
            while b < self.buffer.len()
                invariant
                    k <= b <= self.buffer@.len(),
                    rest@ == self.buffer@.subrange(k as int, b as int),
                decreases self.buffer@.len() - b,
            {
                rest.push(self.buffer[b]);
                b = b + 1;
            }
            proof {
                assert(rest@ =~= self.buffer@.skip(k as int));
                assert(comb.skip(consumed).skip(k as int) =~= comb.skip(consumed + k));
                vstd::arithmetic::div_mod::lemma_mod_self_0(k as int);
                vstd::arithmetic::div_mod::lemma_mod_adds(consumed, k as int, k as int);
                assert((consumed + k) % (k as int) == 0);
            }
            proof {
                assert((m + 1) * (k as int) == m * (k as int) + k) by (nonlinear_arith);
                assert(chunk@ =~= comb.subrange(m * (k as int), (m + 1) * (k as int)));
                assert(spec_chunk_seq(comb, k as int, m + 1) == spec_chunk_seq(
                    comb,
                    k as int,
                    m,
                ).push(comb.subrange(m * (k as int), (m + 1) * (k as int))));
                self.fed@ = self.fed@.push(chunk@);
                assert(self.fed@ =~= old(self).fed@ + spec_chunk_seq(comb, k as int, m + 1));
            }
            self.buffer = rest;
            proof {
                consumed = consumed + k;
            }
            let converted: Vec<i64> = self.converter.convert(&chunk);
            let ghost out_pre = out@;
            let mut c: usize = 0;
            while c < converted.len()
                invariant
                    c <= converted@.len(),
                    out@ == out_pre + converted@.subrange(0, c as int),
                decreases converted@.len() - c,
            {
                out.push(converted[c]);
                c = c + 1;
            }
            proof {
                let start = old(self).got@.len() as int;
                let pre_got = self.got@;
                self.got@ = self.got@.push(converted@);
                assert(converted@.subrange(0, converted@.len() as int) =~= converted@);
                assert(self.got@.skip(start) =~= pre_got.skip(start).push(converted@));
                assert(spec_concat(pre_got.skip(start).push(converted@)) == spec_concat(
                    pre_got.skip(start),
                ) + converted@) by {
                    let q = pre_got.skip(start).push(converted@);
                    assert(q.drop_last() =~= pre_got.skip(start));
                    assert(q.last() == converted@);
                }
                assert(out@ == spec_concat(self.got@.skip(start)));
                m = m + 1;
            }
        }
        proof {
            assert(self.buffer@.len() == comb.len() - consumed);
            vstd::arithmetic::div_mod::lemma_fundamental_div_mod_converse(
                comb.len() as int,
                k as int,
                m,
                comb.len() - consumed,
            );
            assert(comb.len() % (k as nat) == comb.len() - consumed);
            assert(m == comb.len() as int / (k as int));
            lemma_chunk_seq_len(comb, k as int, m);
            if (comb.len() as int) < k as int {
                assert(m == 0) by (nonlinear_arith)
                    requires
                        m >= 0,
                        consumed == m * (k as int),
                        consumed <= comb.len(),
                        (comb.len() as int) < k as int,
                        k >= 1,
                ;
                assert(comb.skip(0) =~= comb);
            }
        }
        out
    }

    /// Flush: pad whatever is staged with zero samples up to one full
    /// chunk and convert it. With an empty staging buffer this is a
    /// no-op that emits nothing, so a flush straight after
    /// construction yields an empty output.
    pub fn flush(&mut self) -> (out: Vec<i64>)
        requires
            old(self).wf(),
        ensures
            final(self).wf(),
            final(self).channels == old(self).channels,
            final(self).out_channels == old(self).out_channels,
            final(self).chunk_size == old(self).chunk_size,
            final(self).buffer@.len() == 0,
            old(self).buffer@.len() == 0 ==> out@.len() == 0 && final(self).fed@ == old(
                self,
            ).fed@ && final(self).got@ == old(self).got@,
            old(self).buffer@.len() > 0 ==> ({
                let padded = old(self).buffer@ + Seq::new(
                    (old(self).chunk_samples() - old(self).buffer@.len()) as nat,
                    |j: int| 0i64,
                );
                &&& final(self).fed@ == old(self).fed@.push(padded)
                &&& final(self).got@.len() == old(self).got@.len() + 1
                &&& out@ == final(self).got@.last()
            }),
    {
        if self.buffer.len() == 0 {
            return Vec::new();
        }
        proof {
            assert(self.chunk_size * self.channels <= 0x10000 * 8) by (nonlinear_arith)
                requires
                    1 <= self.chunk_size <= 0x10000,
                    1 <= self.channels <= 8,
            ;
        }
        let k: usize = self.chunk_size * self.channels;
        let mut chunk: Vec<i64> = Vec::new();
        let mut a: usize = 0;
        let staged: usize = self.buffer.len();
        while a < staged
            invariant
                a <= staged,
                staged == self.buffer@.len(),
                chunk@ == self.buffer@.subrange(0, a as int),
            decreases staged - a,
        {
            chunk.push(self.buffer[a]);
            a = a + 1;
        }
        proof {
            assert(chunk@ =~= self.buffer@ + Seq::new((staged - staged) as nat, |j: int| 0i64));
        }
        let mut b: usize = staged;
        while b < k
            invariant
                staged <= b <= k,
                staged == self.buffer@.len(),
                chunk@ == self.buffer@ + Seq::new((b - staged) as nat, |j: int| 0i64),
            decreases k - b,
        {
            chunk.push(0);
            b = b + 1;
            proof {
                assert(chunk@ =~= self.buffer@ + Seq::new((b - staged) as nat, |j: int| 0i64));
            }
        }
        proof {
            assert(chunk@ == old(self).buffer@ + Seq::new(
                (old(self).chunk_samples() - old(self).buffer@.len()) as nat,
                |j: int| 0i64,
            ));
            self.fed@ = self.fed@.push(chunk@);
        }
        self.buffer = Vec::new();
        let converted: Vec<i64> = self.converter.convert(&chunk);
        proof {
            self.got@ = self.got@.push(converted@);
            assert(self.got@.last() == converted@);
        }
        converted
    }
}

} // verus!
