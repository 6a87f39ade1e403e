//! The engine facade and the output supervisor: load/stop cycles,
//! seeking, time reporting, and device hot-swap bookkeeping.

use audio_core::buffer::create_audio_buffer;
use audio_core::callback::render_into;
use audio_core::clock::{Clock, PlaybackState};
use audio_core::decoder::QueueDecoder;
use audio_core::engine::{AudioEngine, seek_position};
use audio_core::fixed::FX_ONE;
use audio_core::output_manager::{LinkState, OutputManager};
use audio_core::resampler::ChunkConverter;
use audio_core::worker::WorkerStatus;

struct Identity;

impl ChunkConverter for Identity {
    fn make(
        _source_rate: u32,
        _target_rate: u32,
        _in_channels: usize,
        _out_channels: usize,
        _chunk_frames: usize,
    ) -> Option<Identity> {
        Some(Identity)
    }

    fn convert(&mut self, chunk: &Vec<i64>) -> Vec<i64> {
        chunk.clone()
    }
}

type Engine = AudioEngine<QueueDecoder, Identity>;

fn tone_decoder(blocks: usize) -> QueueDecoder {
    let block: Vec<i64> = (0..2048).map(|i| ((i % 50) - 25) * (FX_ONE / 50)).collect();
    QueueDecoder::new(vec![block; blocks], 44100, 2, None)
}

#[test]
fn engine_defaults() {
    let e = Engine::new();
    assert_eq!(e.clock.get_sample_pos(), 0);
    assert_eq!(e.clock.get_state(), PlaybackState::Stopped);
    assert!(e.worker.is_none());
    assert!(e.producer.is_some());
}

#[test]
fn load_twice_resets_position_and_worker() {
    let mut e = Engine::new();
    assert!(e.load(tone_decoder(2)));
    e.play();
    assert_eq!(e.clock.get_state(), PlaybackState::Playing);
    e.drive_worker(4);
    // simulate some playback time
    e.clock.increment_samples(1000);
    assert!(e.clock.get_sample_pos() > 0);
    e.stop();
    // between loads: position rewound, no worker alive, the
    // producer endpoint is back with the engine
    assert!(e.worker.is_none());
    assert!(e.producer.is_some());
    assert_eq!(e.clock.get_sample_pos(), 0);
    assert!(e.load(tone_decoder(2)));
    assert_eq!(e.clock.get_sample_pos(), 0);
    assert!(e.worker.is_some());
}

#[test]
fn seek_sets_position_and_clear_flag() {
    let mut e = Engine::new();
    assert!(e.load(tone_decoder(2)));
    e.play();
    // 0.5 s at 44100 Hz stereo is 44100 interleaved samples
    e.seek(500_000);
    assert_eq!(e.clock.get_sample_pos(), 44100);
    assert!(e.clock.should_clear_buffer());
}

#[test]
fn seek_position_formula() {
    assert_eq!(seek_position(500_000, 44100, 2), 44100);
    assert_eq!(seek_position(0, 44100, 2), 0);
    assert_eq!(seek_position(1_000_000, 48000, 2), 96000);
    assert_eq!(seek_position(2_000_000, 22050, 1), 44100);
}

#[test]
fn time_reporting_follows_position() {
    let mut e = Engine::new();
    e.clock.set_sample_pos(88200);
    assert_eq!(e.get_time_micros(), 1_000_000);
}

#[test]
fn bass_settings_survive_loads() {
    let mut e = Engine::new();
    e.set_bass_boost(true);
    e.set_bass_intensity(70 * FX_ONE);
    assert!(e.load(tone_decoder(1)));
    let w = e.worker.as_ref().unwrap();
    assert!(w.dsp.bass.enabled);
    assert_eq!(w.dsp.bass.intensity, 70 * FX_ONE);
    // intensity is clamped
    e.set_bass_intensity(900 * FX_ONE);
    assert_eq!(e.bass_intensity, 100 * FX_ONE);
}

#[test]
fn end_to_end_tone_reaches_stopped() {
    let mut e = Engine::new();
    assert!(e.load(tone_decoder(3)));
    e.play();
    let mut out: Vec<i64> = vec![0; 512];
    let mut consumer = None;
    // the host lends the consumer endpoint to its backend; here the
    // test plays that role
    if let Some(c) = e.output.begin_connect() {
        consumer = Some(c);
        e.output.on_connect_success(1, 44100, 2, &mut e.clock);
    }
    let mut consumer = consumer.unwrap();
    let mut stopped = false;
    for _ in 0..200 {
        e.drive_worker(8);
        render_into(&mut consumer, &mut e.clock, &mut out);
        if e.clock.get_state() == PlaybackState::Stopped {
            stopped = true;
            break;
        }
    }
    // the decoder ran dry, the worker flushed and exited, and the
    // callback observed the empty ring with end-of-stream set
    assert!(stopped);
    assert!(e.clock.is_eos());
    // 3 blocks of 2048 samples went through; the position counts
    // every emitted sample
    assert_eq!(e.clock.get_sample_pos(), 3 * 2048);
}

#[test]
fn eos_worker_drive_marks_clock() {
    let mut e = Engine::new();
    assert!(e.load(QueueDecoder::new(Vec::new(), 44100, 2, None)));
    let status = e.drive_worker(4);
    assert_eq!(status, Some(WorkerStatus::FinishedEos));
    assert!(e.clock.is_eos());
}

#[test]
fn manager_custody_and_hot_swap() {
    let (_prod, cons) = create_audio_buffer(64);
    let mut m = OutputManager::new(cons);
    let mut clock = Clock::new(44100);
    assert_eq!(m.state, LinkState::Disconnected);
    // first connection: a 48 kHz stereo device
    let lent = m.begin_connect().unwrap();
    m.on_connect_success(7, 48000, 2, &mut clock);
    assert_eq!(m.state, LinkState::Connected);
    assert_eq!(clock.get_sample_rate(), 48000);
    assert_eq!(clock.get_channels(), 2);
    // healthy and on the same device: nothing to do
    assert!(!m.needs_reconnect(true, 7));
    // the default device changed: the next tick must rebuild
    assert!(m.needs_reconnect(true, 9));
    m.on_shutdown(lent);
    assert_eq!(m.state, LinkState::Disconnected);
    // reconnect to the new 44.1 kHz device: the clock follows it
    let lent = m.begin_connect().unwrap();
    m.on_connect_success(9, 44100, 2, &mut clock);
    assert_eq!(clock.get_sample_rate(), 44100);
    assert!(!m.needs_reconnect(true, 9));
    // a backend fault also forces a rebuild
    assert!(m.needs_reconnect(false, 9));
    drop(lent);
}

#[test]
fn manager_failed_connect_returns_endpoint() {
    let (_prod, cons) = create_audio_buffer(64);
    let mut m = OutputManager::new(cons);
    let lent = m.begin_connect().unwrap();
    assert_eq!(m.state, LinkState::InTransit);
    // no second lend while one is in flight
    assert!(m.begin_connect().is_none());
    m.on_connect_failure(lent);
    assert_eq!(m.state, LinkState::Disconnected);
    // the endpoint is available for the next attempt
    assert!(m.begin_connect().is_some());
}

#[test]
fn load_failure_keeps_engine_usable() {
    struct Refuser;
    impl ChunkConverter for Refuser {
        fn make(_s: u32, _t: u32, _ic: usize, _oc: usize, _f: usize) -> Option<Refuser> {
            None
        }
        fn convert(&mut self, chunk: &Vec<i64>) -> Vec<i64> {
            chunk.clone()
        }
    }
    let mut e = AudioEngine::<QueueDecoder, Refuser>::new();
    // the decoder's rate differs from the output's, a resampler is
    // needed, and its construction fails: the load fails cleanly
    assert!(!e.load(QueueDecoder::new(Vec::new(), 22050, 1, None)));
    assert!(e.worker.is_none());
    assert!(e.producer.is_some());
    // the failed load leaves the engine stopped with its output
    // configuration untouched
    assert_eq!(e.clock.get_state(), PlaybackState::Stopped);
    assert_eq!(e.clock.get_sample_rate(), 44100);
    assert_eq!(e.clock.get_channels(), 2);
    // a matching-rate load still works afterwards
    assert!(e.load(QueueDecoder::new(Vec::new(), 44100, 2, None)));
}
