//! The decoding interface the producer worker pulls from, and a
//! scripted decoder whose output is fully known to the verifier.
//!
//! A real host implements [`AudioDecoder`] over a demuxing/decoding
//! library and hands the worker interleaved fixed-point blocks; the
//! scripted [`QueueDecoder`] replays a fixed list of blocks and backs
//! the engine's tests.

use vstd::prelude::*;

verus! {

/// A source of interleaved fixed-point sample blocks.
///
/// `decode_next` hands out the next block, or nothing on end of
/// stream or an unrecoverable error (transient errors are absorbed by
/// the implementation). Block sizes are the implementation's choice
/// and need not be constant.
///
/// A decoder value models the rest of its stream as a sequence of
/// blocks, next first: each successful decode delivers and consumes
/// the head, and an exhausted stream stays exhausted. The scripted
/// decoder below realises the model exactly; a host's I/O-backed
/// decoder is trusted to deliver one such stream.
pub trait AudioDecoder {
    /// The blocks still to come, next first. The default models an
    /// exhausted stream; an implementation whose stream carries
    /// audio overrides it (and an unverified host implementation is
    /// trusted to its model either way).
    open spec fn stream(&self) -> Seq<Seq<i64>> {
        Seq::empty()
    }

    /// The model's sample rate, fixed for an opened source.
    open spec fn spec_rate(&self) -> u32 {
        44100
    }

    /// The model's channel count, fixed for an opened source.
    open spec fn spec_channels(&self) -> u32 {
        2
    }

    fn decode_next(&mut self) -> (r: Option<Vec<i64>>)
        ensures
            old(self).stream().len() > 0 ==> (r matches Some(b) && b@ == old(self).stream()[0]
                && final(self).stream() == old(self).stream().skip(1)),
            old(self).stream().len() == 0 ==> (r is None && final(self).stream().len() == 0),
            final(self).spec_rate() == old(self).spec_rate(),
            final(self).spec_channels() == old(self).spec_channels(),
    ;

    /// The stream's native sample rate in Hz.
    fn sample_rate(&self) -> (r: u32)
        ensures
            r == self.spec_rate(),
    ;

    /// The stream's native channel count; every real stream has
    /// between one and eight channels.
    fn channels(&self) -> (r: u32)
        ensures
            r == self.spec_channels(),
            1 <= r <= 8,
    ;

    /// Best-effort seek; errors are absorbed. The stream is
    /// repositioned (its remaining blocks are the implementation's),
    /// the source's rate and channel count stand.
    fn seek(&mut self, time_micros: u64)
        ensures
            final(self).spec_rate() == old(self).spec_rate(),
            final(self).spec_channels() == old(self).spec_channels(),
    ;

    /// Total duration in microseconds, where known.
    fn duration_micros(&self) -> (r: Option<u64>);
}

/// A decoder that replays a prepared list of blocks: the engine's
/// fully-modelled source. `seek` rewinds to the first block.
pub struct QueueDecoder {
    pub blocks: Vec<Vec<i64>>,
    pub next: usize,
    pub rate: u32,
    pub chans: u32,
    pub duration: Option<u64>,
}

impl QueueDecoder {
    pub fn new(blocks: Vec<Vec<i64>>, rate: u32, chans: u32, duration: Option<u64>) -> (r:
        QueueDecoder)
        requires
            1 <= chans <= 8,
        ensures
            r.blocks == blocks,
            r.next == 0,
            r.rate == rate,
            r.chans == chans,
            r.duration == duration,
    {
        QueueDecoder { blocks, next: 0, rate, chans, duration }
    }
}

impl AudioDecoder for QueueDecoder {
    /// The scripted blocks not yet replayed, next first (an
    /// over-advanced cursor, which no operation produces, reads as
    /// an exhausted stream).
    open spec fn stream(&self) -> Seq<Seq<i64>> {
        if self.next as int <= self.blocks@.len() {
            self.blocks@.map(|i: int, b: Vec<i64>| b@).skip(self.next as int)
        } else {
            Seq::empty()
        }
    }

    open spec fn spec_rate(&self) -> u32 {
        self.rate
    }

    /// The channel count the decoder reports: the scripted value,
    /// clamped into the device range.
    open spec fn spec_channels(&self) -> u32 {
        if self.chans < 1 {
            1
        } else if self.chans > 8 {
            8
        } else {
            self.chans
        }
    }

    /// Replays the scripted blocks in order, then reports end of
    /// stream for ever.
    fn decode_next(&mut self) -> (r: Option<Vec<i64>>)
        ensures
            old(self).next < old(self).blocks@.len() ==> (r matches Some(b) && b@ == old(
                self,
            ).blocks@[old(self).next as int]@ && final(self).next == old(self).next + 1),
            old(self).next >= old(self).blocks@.len() ==> (r is None && final(self).next == old(
                self,
            ).next),
            final(self).blocks == old(self).blocks,
            final(self).rate == old(self).rate,
            final(self).chans == old(self).chans,
    {
        if self.next < self.blocks.len() {
            let mut b: Vec<i64> = Vec::new();
            let src: &Vec<i64> = &self.blocks[self.next];
            let mut j: usize = 0;
            while j < src.len()
                invariant
                    j <= src@.len(),
                    b@ == src@.subrange(0, j as int),
                decreases src@.len() - j,
            {
                b.push(src[j]);
                j = j + 1;
            }
            proof {
                assert(b@ =~= src@);
                assert(b@ == old(self).stream()[0]);
                assert(old(self).blocks@.map(|i: int, bb: Vec<i64>| bb@).skip(
                    self.next as int + 1,
                ) =~= old(self).stream().skip(1));
            }
            self.next = self.next + 1;
            Some(b)
        } else {
            proof {
                assert(old(self).stream().len() == 0);
            }
            None
        }
    }

    fn sample_rate(&self) -> (r: u32)
        ensures
            r == self.rate,
    {
        self.rate
    }

    fn channels(&self) -> (r: u32)
        ensures
            1 <= r <= 8,
    {
        if self.chans < 1 {
            1
        } else if self.chans > 8 {
            8
        } else {
            self.chans
        }
    }

    /// The scripted decoder rewinds to the start, whatever position
    /// is asked for.
    fn seek(&mut self, time_micros: u64)
        ensures
            final(self).next == 0,
            final(self).blocks == old(self).blocks,
            final(self).rate == old(self).rate,
            final(self).chans == old(self).chans,
    {
        self.next = 0;
    }

    fn duration_micros(&self) -> (r: Option<u64>)
        ensures
            r == self.duration,
    {
        self.duration
    }
}

} // verus!
