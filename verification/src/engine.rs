//! The host-facing engine: the clock, the ring, the output
//! supervisor and the producer worker, wired together.
//!
//! The engine here is the sequential core: it owns the verified state
//! and performs every decision — load, play, pause, stop, seek, bass
//! configuration, time reporting. A threaded host wraps it, running
//! [`ProducerWorker::step`] on a background thread and the callback
//! core on the device thread; tests drive the same methods in one
//! thread.

use vstd::prelude::*;

use crate::buffer::{AudioBufferProducer, create_audio_buffer};
use crate::clock::{Clock, PlaybackState, spec_time_micros};
use crate::decoder::AudioDecoder;
use crate::fixed::{FX_ONE, fx_clamp_to};
use crate::output_manager::OutputManager;
use crate::resampler::ChunkConverter;
use crate::worker::{
    DecoderCommand,
    ProducerWorker,
    WorkerStatus,
    command_channel,
    send_command,
};

verus! {

/// Ring capacity: one second of stereo audio at 44100 Hz.
pub const RING_CAPACITY: usize = 88200;

/// Default sample rate before a device reports its own.
pub const DEFAULT_SAMPLE_RATE: u32 = 44100;

/// The audio engine.
pub struct AudioEngine<D: AudioDecoder, C: ChunkConverter> {
    pub clock: Clock,
    pub output: OutputManager,
    /// The ring's producer endpoint, held while no worker runs.
    pub producer: Option<AudioBufferProducer>,
    pub worker: Option<ProducerWorker<D, C>>,
    pub command_tx: Option<std::sync::mpsc::Sender<DecoderCommand>>,
    pub bass_enabled: bool,
    pub bass_intensity: i64,
}

impl<D: AudioDecoder, C: ChunkConverter> AudioEngine<D, C> {
    /// The engine's invariant: the producer endpoint is held by
    /// exactly one of the engine (idle) and the worker; a running
    /// worker is well formed and reachable over the command channel;
    /// the output supervisor keeps its custody invariant; and the
    /// clock carries a device-plausible channel count.
    pub open spec fn inv(&self) -> bool {
        &&& (self.worker is Some) <==> (self.producer is None)
        &&& (self.worker is Some) ==> (self.command_tx is Some)
        &&& match self.worker {
            Some(w) => w.wf(),
            None => true,
        }
        &&& self.output.inv()
        &&& 1 <= self.clock.channels <= 8
    }

    /// A fresh engine: default clock, a one-second ring, the output
    /// supervisor holding the consumer endpoint, no worker.
    pub fn new() -> (r: AudioEngine<D, C>)
        ensures
            r.inv(),
            r.worker is None,
            r.clock.sample_pos == 0,
            r.clock.sample_rate == DEFAULT_SAMPLE_RATE,
            r.clock.channels == 2,
            r.clock.state == PlaybackState::Stopped,
            !r.clock.clear_buffer,
            !r.clock.eos,
            !r.bass_enabled,
            r.producer matches Some(p) && p.capacity() == RING_CAPACITY && p.known_vacant()
                == RING_CAPACITY,
            r.output.state == crate::output_manager::LinkState::Disconnected,
    {
        let clock = Clock::new(DEFAULT_SAMPLE_RATE);
        let (producer, consumer) = create_audio_buffer(RING_CAPACITY);
        AudioEngine {
            clock,
            output: OutputManager::new(consumer),
            producer: Some(producer),
            worker: None,
            command_tx: None,
            bass_enabled: false,
            bass_intensity: 50 * FX_ONE,
        }
    }

    /// Stop playback: stop the clock, tell the worker to stop and
    /// cancel it, reclaim the producer endpoint, and rewind the
    /// position to zero.
    pub fn stop(&mut self)
        requires
            old(self).inv(),
        ensures
            final(self).inv(),
            final(self).worker is None,
            final(self).producer is Some,
            final(self).clock.sample_pos == 0,
            final(self).clock.state == PlaybackState::Stopped,
            final(self).clock.sample_rate == old(self).clock.sample_rate,
            final(self).clock.channels == old(self).clock.channels,
    {
        self.clock.set_state(PlaybackState::Stopped);
        let tx = self.command_tx.take();
        match tx {
            Some(tx) => {
                send_command(&tx, DecoderCommand::Stop);
            },
            None => {},
        }
        let w = self.worker.take();
        match w {
            Some(mut w) => {
                w.cancel();
                self.producer = Some(w.into_producer());
            },
            None => {},
        }
        self.clock.set_sample_pos(0);
    }

    /// Load a new stream: stop whatever runs, spawn a fresh worker
    /// on the opened decoder, and rewind the clock. Fails — leaving
    /// the engine stopped and idle, the endpoint retained, and the
    /// clock otherwise untouched — only when a needed resampler
    /// cannot be built; a decoder already matching the output
    /// configuration always loads.
    pub fn load(&mut self, decoder: D) -> (ok: bool)
        requires
            old(self).inv(),
        ensures
            final(self).inv(),
            final(self).clock.sample_pos == 0,
            final(self).clock.state == PlaybackState::Stopped,
            final(self).clock.sample_rate == old(self).clock.sample_rate,
            final(self).clock.channels == old(self).clock.channels,
            ok ==> final(self).worker is Some,
            !ok ==> final(self).worker is None && final(self).producer is Some,
            !final(self).clock.eos,
            decoder.spec_rate() == old(self).clock.sample_rate && decoder.spec_channels() == old(
                self,
            ).clock.channels ==> ok,
    {
        self.stop();
        let producer = self.producer.take();
        match producer {
            Some(producer) => {
                let (tx, rx) = command_channel();
                let rate: u32 = self.clock.get_sample_rate();
                let channels: u32 = self.clock.get_channels();
                match ProducerWorker::<D, C>::new(
                    decoder,
                    producer,
                    rx,
                    rate,
                    channels,
                    self.bass_enabled,
                    self.bass_intensity,
                ) {
                    Ok(w) => {
                        self.worker = Some(w);
                        self.command_tx = Some(tx);
                        self.clock.set_sample_pos(0);
                        self.clock.set_eos(false);
                        true
                    },
                    Err(p) => {
                        self.producer = Some(p);
                        self.clock.set_eos(false);
                        false
                    },
                }
            },
            None => {
                false
            },
        }
    }

    /// Begin or resume playback; the host starts the device stream
    /// beside it.
    pub fn play(&mut self)
        requires
            old(self).inv(),
        ensures
            final(self).inv(),
            final(self).clock.state == PlaybackState::Playing,
            final(self).clock.sample_pos == old(self).clock.sample_pos,
    {
        self.clock.set_state(PlaybackState::Playing);
    }

    /// Pause playback; the host pauses the device stream beside it.
    pub fn pause(&mut self)
        requires
            old(self).inv(),
        ensures
            final(self).inv(),
            final(self).clock.state == PlaybackState::Paused,
            final(self).clock.sample_pos == old(self).clock.sample_pos,
    {
        self.clock.set_state(PlaybackState::Paused);
    }

    /// Seek: move the clock to the sample position of the given
    /// time, ask the output side to drain the ring, and tell the
    /// worker to reposition the decoder.
    pub fn seek(&mut self, time_micros: u64)
        requires
            old(self).inv(),
        ensures
            final(self).inv(),
            final(self).clock.clear_buffer,
            final(self).clock.sample_pos == spec_seek_pos(
                time_micros as int,
                old(self).clock.sample_rate as int,
                old(self).clock.channels as int,
            ),
            final(self).clock.state == old(self).clock.state,
    {
        let pos: u64 = seek_position(time_micros, self.clock.get_sample_rate(),
            self.clock.get_channels());
        self.clock.set_sample_pos(pos);
        self.clock.signal_clear_buffer();
        match &self.command_tx {
            Some(tx) => {
                send_command(tx, DecoderCommand::Seek(time_micros));
            },
            None => {},
        }
    }

    /// Enable or disable the bass boost, now and for future loads.
    pub fn set_bass_boost(&mut self, enabled: bool)
        requires
            old(self).inv(),
        ensures
            final(self).inv(),
            final(self).bass_enabled == enabled,
    {
        self.bass_enabled = enabled;
        match &self.command_tx {
            Some(tx) => {
                send_command(tx, DecoderCommand::SetBassBoost(enabled));
            },
            None => {},
        }
    }

    /// Set the bass intensity (clamped into `[0, 100]` fixed point),
    /// now and for future loads.
    pub fn set_bass_intensity(&mut self, intensity: i64)
        requires
            old(self).inv(),
        ensures
            final(self).inv(),
            0 <= final(self).bass_intensity <= 100 * FX_ONE,
    {
        self.bass_intensity = fx_clamp_to(intensity, 0, 100 * FX_ONE);
        match &self.command_tx {
            Some(tx) => {
                send_command(tx, DecoderCommand::SetBassIntensity(self.bass_intensity));
            },
            None => {},
        }
    }

    /// Playback time in whole microseconds.
    pub fn get_time_micros(&self) -> (r: u64)
        ensures
            r == if spec_time_micros(
                self.clock.sample_pos as int,
                self.clock.sample_rate as int,
                self.clock.channels as int,
            ) <= u64::MAX {
                spec_time_micros(
                    self.clock.sample_pos as int,
                    self.clock.sample_rate as int,
                    self.clock.channels as int,
                )
            } else {
                u64::MAX as int
            },
    {
        self.clock.get_time_micros()
    }

    /// Whether the output link must be rebuilt, given the host's
    /// observations of the backend and the default device.
    pub fn tick(&self, backend_healthy: bool, current_default_device: u64) -> (r: bool)
        ensures
            r == !(self.output.state == crate::output_manager::LinkState::Connected
                && backend_healthy && current_default_device == self.output.device_id),
    {
        self.output.needs_reconnect(backend_healthy, current_default_device)
    }

    /// Run the worker for up to `max_steps` steps against the
    /// clock's current output configuration, marking the clock's
    /// end-of-stream flag when the stream finishes.
    pub fn drive_worker(&mut self, max_steps: usize) -> (r: Option<WorkerStatus>)
        requires
            old(self).inv(),
        ensures
            final(self).inv(),
            old(self).worker is None ==> r is None,
            old(self).worker is Some ==> final(self).worker is Some,
            r == Some(WorkerStatus::FinishedEos) ==> final(self).clock.eos
                && (final(self).worker matches Some(w) && w.done && w.eos),
            r == Some(WorkerStatus::FinishedStopped) ==> (final(self).worker matches Some(w)
                && w.done),
    {
        let mut w = self.worker.take();
        match w {
            Some(mut w) => {
                let mut i: usize = 0;
                let mut status: WorkerStatus = WorkerStatus::Sleeping;
                let rate: u32 = self.clock.get_sample_rate();
                let channels: u32 = self.clock.get_channels();
                let mut finished_eos: bool = false;
                while i < max_steps
                    invariant_except_break
                        w.wf(),
                        1 <= channels <= 8,
                        !finished_eos,
                        status != WorkerStatus::FinishedEos,
                        status != WorkerStatus::FinishedStopped || w.done,
                    ensures
                        w.wf(),
                        finished_eos <==> status == WorkerStatus::FinishedEos,
                        status == WorkerStatus::FinishedEos ==> w.done && w.eos,
                        status == WorkerStatus::FinishedStopped ==> w.done,
                    decreases max_steps - i,
                {
                    status = w.step(rate, channels);
                    if status == WorkerStatus::FinishedEos {
                        finished_eos = true;
                        break ;
                    }
                    if status == WorkerStatus::FinishedStopped || status == WorkerStatus::Sleeping {
                        break ;
                    }
                    i = i + 1;
                }
                if finished_eos {
                    self.clock.set_eos(true);
                }
                self.worker = Some(w);
                Some(status)
            },
            None => None,
        }
    }
}

/// The seek target in interleaved samples:
/// `micros * rate * channels / 1_000_000`, saturating at `u64::MAX`.
pub open spec fn spec_seek_pos(micros: int, rate: int, channels: int) -> int {
    let exact = micros * rate * channels / 1_000_000;
    if exact <= u64::MAX {
        exact
    } else {
        u64::MAX as int
    }
}

/// Compute the seek target position; the channel count is a real
/// device's (at most eight), which keeps the arithmetic in range.
pub fn seek_position(micros: u64, rate: u32, channels: u32) -> (r: u64)
    requires
        channels <= 8,
    ensures
        r == spec_seek_pos(micros as int, rate as int, channels as int),
{
    proof {
        assert((micros as int) * (rate as int) <= 0xFFFF_FFFF_FFFF_FFFFint * 0xFFFF_FFFFint)
            by (nonlinear_arith)
            requires
                0 <= micros as int <= 0xFFFF_FFFF_FFFF_FFFFint,
                0 <= rate as int <= 0xFFFF_FFFFint,
        ;
        assert((micros as int) * (rate as int) * (channels as int) <= 0xFFFF_FFFF_FFFF_FFFFint
            * 0xFFFF_FFFFint * 8)
            by (nonlinear_arith)
            requires
                0 <= (micros as int) * (rate as int) <= 0xFFFF_FFFF_FFFF_FFFFint * 0xFFFF_FFFFint,
                0 <= channels as int <= 8,
        ;
    }
    let wide: u128 = (micros as u128) * (rate as u128) * (channels as u128) / 1_000_000;
    if wide > u64::MAX as u128 {
        u64::MAX
    } else {
        wide as u64
    }
}

} // verus!
