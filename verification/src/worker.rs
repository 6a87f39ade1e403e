//! The producer side of the pipeline: pull blocks from the decoder,
//! resample them to the output configuration, run the DSP chain, and
//! push the result into the ring — while reacting to host commands
//! and to output reconfiguration.
//!
//! The worker is written as a step function: each call does one
//! bounded piece of work and reports whether it made progress, wants
//! a short sleep (backpressure), or has finished. A host thread loops
//! over [`ProducerWorker::step`] with the current output
//! configuration, sleeping when asked to; tests drive the very same
//! function.

use vstd::prelude::*;

use crate::buffer::AudioBufferProducer;
use crate::decoder::AudioDecoder;
use crate::dsp_chain::DspChain;
use crate::fixed::FX_ONE;
use crate::resampler::{CHUNK_FRAMES, ChunkConverter, Resampler};

verus! {

/// Push more only when at least this many slots are free.
pub const REFILL_THRESHOLD: usize = 1024;

/// Commands the host sends to the producer worker.
#[derive(Clone, Copy, Debug, PartialEq, Eq, Structural)]
pub enum DecoderCommand {
    /// Seek to a position in microseconds.
    Seek(u64),
    /// Stop decoding and exit.
    Stop,
    /// Enable or disable the bass boost.
    SetBassBoost(bool),
    /// Set the bass boost intensity (fixed point, 0 to 100).
    SetBassIntensity(i64),
}

/// What one worker step did.
#[derive(Clone, Copy, Debug, PartialEq, Eq, Structural)]
pub enum WorkerStatus {
    /// Progress was made; call again at once.
    Running,
    /// Backpressure or an empty command queue: sleep briefly first.
    Sleeping,
    /// The stream ended; the resampler tail has been flushed and
    /// pushed.
    FinishedEos,
    /// A stop command was honoured.
    FinishedStopped,
}

#[verifier::external_type_specification]
#[verifier::external_body]
#[verifier::reject_recursive_types(T)]
pub struct ExSender<T>(std::sync::mpsc::Sender<T>);

#[verifier::external_type_specification]
#[verifier::external_body]
#[verifier::reject_recursive_types(T)]
pub struct ExReceiver<T>(std::sync::mpsc::Receiver<T>);

/// Relies on `std::sync::mpsc::channel`: a connected sender/receiver
/// pair for worker commands.
#[verifier::external_body]
pub fn command_channel() -> (r: (
    std::sync::mpsc::Sender<DecoderCommand>,
    std::sync::mpsc::Receiver<DecoderCommand>,
)) {
    std::sync::mpsc::channel()
}

/// Relies on `std::sync::mpsc::Sender::send`: delivers the command
/// unless the receiving end is gone.
#[verifier::external_body]
pub fn send_command(tx: &std::sync::mpsc::Sender<DecoderCommand>, cmd: DecoderCommand) -> (r: bool) {
    tx.send(cmd).is_ok()
}

/// Relies on `std::sync::mpsc::Receiver::try_recv`: a pending
/// command, or nothing, without blocking.
#[verifier::external_body]
pub fn try_recv_command(rx: &std::sync::mpsc::Receiver<DecoderCommand>) -> (r: Option<
    DecoderCommand,
>) {
    match rx.try_recv() {
        Ok(c) => Some(c),
        Err(_) => None,
    }
}

/// The intensity value the DSP chain holds for a requested value:
/// clamped into `[0, 100]` fixed point.
pub open spec fn spec_intensity_clamped(v: i64) -> int {
    if v < 0 {
        0
    } else if v > 100 * FX_ONE {
        100 * (FX_ONE as int)
    } else {
        v as int
    }
}

/// The producer worker: decoder, optional resampler, DSP chain, the
/// ring's producer endpoint, and the command receiver.
pub struct ProducerWorker<D: AudioDecoder, C: ChunkConverter> {
    pub decoder: D,
    pub resampler: Option<Resampler<C>>,
    pub dsp: DspChain,
    pub producer: AudioBufferProducer,
    pub commands: std::sync::mpsc::Receiver<DecoderCommand>,
    pub out_rate: u32,
    pub out_channels: u32,
    pub dec_rate: u32,
    pub dec_channels: u32,
    pub bass_enabled: bool,
    pub bass_intensity: i64,
    /// Samples processed but not yet pushed into the ring.
    pub pending: Vec<i64>,
    /// How much of `pending` has been pushed.
    pub pending_pos: usize,
    /// The decoder reported end of stream and the tail was flushed.
    pub eos: bool,
    /// The worker has exited (stop honoured, or stream over and tail
    /// pushed).
    pub done: bool,
    /// How many blocks the decoder has delivered to this worker.
    pub consumed: Ghost<nat>,
}

impl<D: AudioDecoder, C: ChunkConverter> ProducerWorker<D, C> {
    /// Whatever staging the resampler holds is empty (vacuously so
    /// without a resampler).
    pub open spec fn staging_empty(&self) -> bool {
        match self.resampler {
            Some(rs) => rs.buffer@.len() == 0,
            None => true,
        }
    }

    pub open spec fn wf(&self) -> bool {
        &&& self.dsp.wf()
        &&& self.dsp.channels == self.out_channels
        &&& 1 <= self.out_channels <= 8
        &&& 1 <= self.dec_channels <= 8
        &&& self.pending_pos <= self.pending@.len()
        &&& self.dsp.bass.enabled == self.bass_enabled
        &&& self.dsp.bass.intensity == spec_intensity_clamped(self.bass_intensity)
        &&& self.dsp.bass.sample_rate == self.out_rate
        &&& match self.resampler {
            Some(rs) => rs.wf() && rs.channels == self.dec_channels && rs.out_channels as int
                == self.out_channels as int && (self.dec_rate != self.out_rate
                || self.dec_channels != self.out_channels),
            None => true,
        }
    }

    /// Build a worker for the given decoder and output
    /// configuration. When a needed resampler cannot be constructed
    /// the load fails, and the ring's producer endpoint comes back
    /// untouched.
    pub fn new(
        decoder: D,
        producer: AudioBufferProducer,
        commands: std::sync::mpsc::Receiver<DecoderCommand>,
        out_rate: u32,
        out_channels: u32,
        bass_enabled: bool,
        bass_intensity: i64,
    ) -> (r: Result<ProducerWorker<D, C>, AudioBufferProducer>)
        requires
            1 <= out_channels <= 8,
        ensures
            r matches Ok(w) ==> w.wf() && !w.done && !w.eos && w.pending@.len() == 0
                && w.staging_empty() && w.producer.capacity() == producer.capacity()
                && w.producer.pushed_count() == producer.pushed_count() && w.out_rate == out_rate
                && w.out_channels == out_channels && w.consumed@ == 0,
            r matches Err(p) ==> p.capacity() == producer.capacity() && p.pushed_count()
                == producer.pushed_count(),
            decoder.spec_rate() == out_rate && decoder.spec_channels() == out_channels ==> r is Ok,
    {
        let dec_rate: u32 = decoder.sample_rate();
        let dec_channels: u32 = decoder.channels();
        let resampler: Option<Resampler<C>> = if dec_rate != out_rate || dec_channels
            != out_channels {
            match Resampler::<C>::new(dec_rate, out_rate, dec_channels as usize,
                out_channels as usize, CHUNK_FRAMES) {
                Some(rs) => Some(rs),
                None => {
                    return Err(producer);
                },
            }
        } else {
            None
        };
        let mut dsp = DspChain::new(out_rate, out_channels as usize);
        dsp.set_bass_enabled(bass_enabled);
        dsp.set_bass_intensity(bass_intensity);
        Ok(
            ProducerWorker {
                decoder,
                resampler,
                dsp,
                producer,
                commands,
                out_rate,
                out_channels,
                dec_rate,
                dec_channels,
                bass_enabled,
                bass_intensity,
                pending: Vec::new(),
                pending_pos: 0,
                eos: false,
                done: false,
                consumed: Ghost(0nat),
            },
        )
    }

    /// Bring the worker's output configuration in line with the
    /// clock's: rebuild the resampler (needed only when the decoder
    /// and output configurations differ) and the DSP chain, reapply
    /// the bass settings, and drop samples processed for the old
    /// configuration.
    fn reconfigure(&mut self, out_rate: u32, out_channels: u32)
        requires
            old(self).wf(),
            1 <= out_channels <= 8,
        ensures
            final(self).wf(),
            final(self).out_rate == out_rate,
            final(self).out_channels == out_channels,
            final(self).producer.capacity() == old(self).producer.capacity(),
            final(self).producer.pushed_count() == old(self).producer.pushed_count(),
            final(self).producer.known_vacant() == old(self).producer.known_vacant(),
            final(self).pending@.len() == 0,
            final(self).staging_empty(),
            final(self).done == old(self).done,
            final(self).eos == old(self).eos,
            final(self).consumed@ == old(self).consumed@,
    {
        self.out_rate = out_rate;
        self.out_channels = out_channels;
        self.resampler = if self.dec_rate != out_rate || self.dec_channels != out_channels {
            match Resampler::<C>::new(self.dec_rate, out_rate, self.dec_channels as usize,
                out_channels as usize, CHUNK_FRAMES) {
                Some(rs) => Some(rs),
                // A converter the library refuses to build for the
                // new configuration leaves the worker feeding the
                // decoder's samples through unconverted rather than
                // killing playback.
                None => None,
            }
        } else {
            None
        };
        let mut dsp = DspChain::new(out_rate, out_channels as usize);
        dsp.set_bass_enabled(self.bass_enabled);
        dsp.set_bass_intensity(self.bass_intensity);
        self.dsp = dsp;
        self.pending = Vec::new();
        self.pending_pos = 0;
    }

    /// One bounded piece of the worker's main loop, against the
    /// output configuration currently in the clock.
    ///
    /// When the decoder reports end of stream with nothing staged and
    /// nothing pending, the step finishes without pushing a single
    /// sample: the flush of an empty resampler is empty.
    pub fn step(&mut self, out_rate: u32, out_channels: u32) -> (r: WorkerStatus)
        requires
            old(self).wf(),
            1 <= out_channels <= 8,
        ensures
            final(self).wf(),
            final(self).producer.capacity() == old(self).producer.capacity(),
            final(self).producer.pushed_count() >= old(self).producer.pushed_count(),
            !old(self).done ==> final(self).out_rate == out_rate && final(self).out_channels
                == out_channels,
            r == WorkerStatus::FinishedEos && !old(self).done && old(self).pending@.len() == 0
                && old(self).staging_empty() ==> final(self).producer.pushed_count() == old(
                self,
            ).producer.pushed_count(),
            final(self).done ==> r == WorkerStatus::FinishedEos || r
                == WorkerStatus::FinishedStopped,
            r == WorkerStatus::FinishedEos ==> final(self).done && final(self).eos,
            r == WorkerStatus::FinishedStopped ==> final(self).done,
            old(self).eos ==> final(self).eos,
            r == WorkerStatus::Sleeping && !old(self).done
                ==> final(self).pending_pos < final(self).pending@.len()
                || final(self).producer.known_vacant() < REFILL_THRESHOLD,
            r == WorkerStatus::Running && !old(self).done && !old(self).eos && old(
                self,
            ).pending_pos >= old(self).pending@.len() ==> final(self).pending_pos == 0
                && (final(self).consumed@ == old(self).consumed@ + 1 || final(self).eos),
            !old(self).done && (out_rate != old(self).out_rate || out_channels != old(
                self,
            ).out_channels) ==> final(self).producer.pushed_count() == old(
                self,
            ).producer.pushed_count(),
            !old(self).done && !old(self).eos && final(self).eos && out_rate == old(self).out_rate
                && out_channels == old(self).out_channels ==> final(self).pending_pos == 0 && ({
                match (old(self).resampler, final(self).resampler) {
                    (Some(rs0), Some(rs1)) => {
                        &&& rs1.buffer@.len() == 0
                        &&& (rs0.buffer@.len() == 0 ==> final(self).pending@.len() == 0
                            && rs1.fed@ == rs0.fed@ && rs1.got@ == rs0.got@)
                        &&& (rs0.buffer@.len() > 0 ==> rs1.fed@ == rs0.fed@.push(
                            rs0.buffer@ + Seq::new(
                                (rs0.chunk_samples() - rs0.buffer@.len()) as nat,
                                |j: int| 0i64,
                            ),
                        ) && rs1.got@.len() == rs0.got@.len() + 1 && final(self).pending@
                            == rs1.got@.last())
                    },
                    (None, None) => final(self).pending@.len() == 0,
                    _ => false,
                }
            }),
    {
        if self.done {
            if self.eos {
                return WorkerStatus::FinishedEos;
            }
            return WorkerStatus::FinishedStopped;
        }
        if out_rate != self.out_rate || out_channels != self.out_channels {
            self.reconfigure(out_rate, out_channels);
        } else {
            self.out_rate = out_rate;
            self.out_channels = out_channels;
        }
        let mut drained: usize = 0;
        while drained < 16
            invariant
                self.wf(),
                self.out_rate == out_rate,
                self.out_channels == out_channels,
                self.producer.capacity() == old(self).producer.capacity(),
                self.producer.pushed_count() == old(self).producer.pushed_count(),
                self.producer.known_vacant() == old(self).producer.known_vacant(),
                old(self).pending@.len() == 0 && old(self).staging_empty() ==> self.pending@.len()
                    == 0 && self.staging_empty(),
                !self.done,
                self.eos == old(self).eos,
                self.consumed@ == old(self).consumed@,
                out_rate == old(self).out_rate && out_channels == old(self).out_channels
                    ==> self.resampler == old(self).resampler,
                out_rate != old(self).out_rate || out_channels != old(self).out_channels
                    ==> self.pending@.len() == 0,
                self.pending_pos >= self.pending@.len() || (self.pending == old(self).pending
                    && self.pending_pos == old(self).pending_pos),
                drained <= 16,
            decreases 16 - drained,
        {
            match try_recv_command(&self.commands) {
                Some(DecoderCommand::Seek(t)) => {
                    // The producer endpoint cannot drop samples the
                    // ring already holds, so a seek here discards
                    // only the block in flight; draining the ring is
                    // the output side's job, keyed off the clock's
                    // clear flag, which the host raises with every
                    // seek. A block pushed between that drain and
                    // this command's arrival rides on the ring until
                    // the drain, which bounds — but does not
                    // eliminate — pre-seek samples.
                    self.decoder.seek(t);
                    self.pending = Vec::new();
                    self.pending_pos = 0;
                },
                Some(DecoderCommand::Stop) => {
                    self.done = true;
                    return WorkerStatus::FinishedStopped;
                },
                Some(DecoderCommand::SetBassBoost(b)) => {
                    self.bass_enabled = b;
                    self.dsp.set_bass_enabled(b);
                },
                Some(DecoderCommand::SetBassIntensity(v)) => {
                    self.bass_intensity = v;
                    self.dsp.set_bass_intensity(v);
                },
                None => {
                    break ;
                },
            }
            drained = drained + 1;
        }
        if self.pending_pos < self.pending.len() {
            let n: usize = self.producer.push_slice_from(&self.pending, self.pending_pos);
            self.pending_pos = self.pending_pos + n;
            if self.pending_pos == self.pending.len() {
                self.pending = Vec::new();
                self.pending_pos = 0;
                return WorkerStatus::Running;
            }
            return WorkerStatus::Sleeping;
        }
        if self.eos {
            self.done = true;
            return WorkerStatus::FinishedEos;
        }
        if self.producer.vacant_len() < REFILL_THRESHOLD {
            return WorkerStatus::Sleeping;
        }
        match self.decoder.decode_next() {
            Some(block) => {
                proof {
                    self.consumed@ = self.consumed@ + 1;
                }
                let mut processed: Vec<i64> = match &mut self.resampler {
                    Some(rs) => rs.process(&block),
                    None => block,
                };
                self.dsp.process(&mut processed);
                self.pending = processed;
                self.pending_pos = 0;
                WorkerStatus::Running
            },
            None => {
                self.eos = true;
                let tail: Vec<i64> = match &mut self.resampler {
                    Some(rs) => rs.flush(),
                    None => Vec::new(),
                };
                self.pending = tail;
                self.pending_pos = 0;
                if self.pending.len() == 0 {
                    self.done = true;
                    return WorkerStatus::FinishedEos;
                }
                WorkerStatus::Running
            },
        }
    }

    /// Honour the engine's cancellation flag: the worker exits at
    /// the next opportunity without flushing, as on an explicit stop.
    pub fn cancel(&mut self)
        requires
            old(self).wf(),
        ensures
            final(self).wf(),
            final(self).done,
            !final(self).eos,
            final(self).producer.capacity() == old(self).producer.capacity(),
            final(self).producer.pushed_count() == old(self).producer.pushed_count(),
    {
        self.done = true;
        self.eos = false;
    }

    /// Tear the worker down, handing the ring's producer endpoint
    /// back to the engine.
    pub fn into_producer(self) -> (r: AudioBufferProducer)
        ensures
            r.capacity() == self.producer.capacity(),
            r.pushed_count() == self.producer.pushed_count(),
    {
        self.producer
    }
}

} // verus!
