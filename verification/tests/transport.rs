//! The staged resampler, the producer worker and the output
//! callback, driven over the real ring and command channel.

use audio_core::buffer::create_audio_buffer;
use audio_core::callback::{render_block, render_into};
use audio_core::clock::{Clock, PlaybackState};
use audio_core::decoder::{AudioDecoder, QueueDecoder};
use audio_core::fixed::FX_ONE;
use audio_core::resampler::{ChunkConverter, Resampler};
use audio_core::worker::{DecoderCommand, ProducerWorker, WorkerStatus, command_channel,
    send_command};

/// A conversion stub that hands every chunk through unchanged, so
/// the staging discipline is observable sample by sample.
struct Passthrough;

impl ChunkConverter for Passthrough {
    fn make(
        _source_rate: u32,
        _target_rate: u32,
        _in_channels: usize,
        _out_channels: usize,
        _chunk_frames: usize,
    ) -> Option<Passthrough> {
        Some(Passthrough)
    }

    fn convert(&mut self, chunk: &Vec<i64>) -> Vec<i64> {
        chunk.clone()
    }
}

/// A conversion stub that doubles every frame: a crude 2x
/// upsampler, enough to see channel-count arithmetic at work.
struct Doubler;

impl ChunkConverter for Doubler {
    fn make(
        _source_rate: u32,
        _target_rate: u32,
        _in_channels: usize,
        _out_channels: usize,
        _chunk_frames: usize,
    ) -> Option<Doubler> {
        Some(Doubler)
    }

    fn convert(&mut self, chunk: &Vec<i64>) -> Vec<i64> {
        let mut out = Vec::with_capacity(chunk.len() * 2);
        for &s in chunk {
            out.push(s);
            out.push(s);
        }
        out
    }
}

#[test]
fn resampler_stages_until_full_chunk() {
    let mut rs = Resampler::<Passthrough>::new(22050, 44100, 1, 1, 8).unwrap();
    assert_eq!(rs.input_frames_next(), 8);
    // fewer than one chunk: nothing comes out
    let out = rs.process(&vec![1, 2, 3]);
    assert!(out.is_empty());
    assert_eq!(rs.buffer, vec![1, 2, 3]);
    // reaching a chunk: exactly one chunk is converted, the tail
    // stays staged
    let out = rs.process(&vec![4, 5, 6, 7, 8, 9, 10]);
    assert_eq!(out, vec![1, 2, 3, 4, 5, 6, 7, 8]);
    assert_eq!(rs.buffer, vec![9, 10]);
}

#[test]
fn resampler_flush_on_empty_is_empty() {
    let mut rs = Resampler::<Passthrough>::new(22050, 44100, 2, 2, 8).unwrap();
    let out = rs.flush();
    assert!(out.is_empty());
    assert!(rs.buffer.is_empty());
}

#[test]
fn resampler_flush_pads_with_zeros() {
    let mut rs = Resampler::<Passthrough>::new(22050, 44100, 1, 1, 4).unwrap();
    rs.process(&vec![7, 8]);
    let out = rs.flush();
    assert_eq!(out, vec![7, 8, 0, 0]);
    assert!(rs.buffer.is_empty());
    // a second flush emits nothing more
    assert!(rs.flush().is_empty());
}

fn quiet_block(len: usize) -> Vec<i64> {
    (0..len).map(|i| ((i as i64 % 64) - 32) * (FX_ONE / 100)).collect()
}

#[test]
fn worker_pushes_decoded_audio() {
    let (prod, mut cons) = create_audio_buffer(65536);
    let (_tx, rx) = command_channel();
    let dec = QueueDecoder::new(vec![quiet_block(2048), quiet_block(2048)], 44100, 2, None);
    let mut w = ProducerWorker::<QueueDecoder, Passthrough>::new(dec, prod, rx, 44100, 2, false,
        50 * FX_ONE).unwrap_or_else(|_| panic!("worker construction failed"));
    // rates match: no resampler
    assert!(w.resampler.is_none());
    let mut eos = false;
    for _ in 0..64 {
        match w.step(44100, 2) {
            WorkerStatus::FinishedEos => {
                eos = true;
                break;
            }
            WorkerStatus::FinishedStopped => panic!("unexpected stop"),
            _ => {}
        }
    }
    assert!(eos);
    // both blocks arrived in the ring
    assert_eq!(cons.occupied_len(), 4096);
    let mut out: Vec<i64> = vec![0; 4096];
    assert_eq!(cons.pop_slice(&mut out), 4096);
}

#[test]
fn worker_eos_on_first_call_pushes_nothing() {
    let (prod, mut cons) = create_audio_buffer(4096);
    let (_tx, rx) = command_channel();
    let dec = QueueDecoder::new(Vec::new(), 22050, 1, None);
    // decoder and output differ, so a resampler is present and its
    // flush runs — and still nothing reaches the ring
    let mut w = ProducerWorker::<QueueDecoder, Passthrough>::new(dec, prod, rx, 44100, 2, false,
        50 * FX_ONE).unwrap_or_else(|_| panic!("worker construction failed"));
    assert!(w.resampler.is_some());
    let status = w.step(44100, 2);
    assert_eq!(status, WorkerStatus::FinishedEos);
    assert!(w.done);
    assert_eq!(cons.occupied_len(), 0);
}

#[test]
fn worker_honours_stop_command() {
    let (prod, _cons) = create_audio_buffer(4096);
    let (tx, rx) = command_channel();
    let dec = QueueDecoder::new(vec![quiet_block(512)], 44100, 2, None);
    let mut w = ProducerWorker::<QueueDecoder, Passthrough>::new(dec, prod, rx, 44100, 2, false,
        50 * FX_ONE).unwrap_or_else(|_| panic!("worker construction failed"));
    assert!(send_command(&tx, DecoderCommand::Stop));
    assert_eq!(w.step(44100, 2), WorkerStatus::FinishedStopped);
    assert!(w.done);
}

#[test]
fn worker_applies_bass_commands() {
    let (prod, _cons) = create_audio_buffer(4096);
    let (tx, rx) = command_channel();
    let dec = QueueDecoder::new(Vec::new(), 44100, 2, None);
    let mut w = ProducerWorker::<QueueDecoder, Passthrough>::new(dec, prod, rx, 44100, 2, false,
        50 * FX_ONE).unwrap_or_else(|_| panic!("worker construction failed"));
    send_command(&tx, DecoderCommand::SetBassBoost(true));
    send_command(&tx, DecoderCommand::SetBassIntensity(80 * FX_ONE));
    w.step(44100, 2);
    assert!(w.dsp.bass.enabled);
    assert_eq!(w.dsp.bass.intensity, 80 * FX_ONE);
}

#[test]
fn worker_rebuilds_on_output_change() {
    let (prod, _cons) = create_audio_buffer(65536);
    let (_tx, rx) = command_channel();
    let dec = QueueDecoder::new(vec![quiet_block(1024)], 44100, 2, None);
    let mut w = ProducerWorker::<QueueDecoder, Doubler>::new(dec, prod, rx, 44100, 2, false,
        50 * FX_ONE).unwrap_or_else(|_| panic!("worker construction failed"));
    assert!(w.resampler.is_none());
    // the device moved to 48 kHz: the next step resamples from then
    // on, before any further output is produced
    w.step(48000, 2);
    assert_eq!(w.out_rate, 48000);
    assert!(w.resampler.is_some());
    // and back again: the resampler goes away
    w.step(44100, 2);
    assert!(w.resampler.is_none());
}

#[test]
fn callback_fills_whole_buffer() {
    let (mut prod, mut cons) = create_audio_buffer(64);
    prod.push_slice(&[5, 6, 7]);
    let mut out: Vec<i64> = vec![99; 8];
    let r = render_block(&mut cons, PlaybackState::Playing, false, false, &mut out);
    assert_eq!(r.samples_read, 3);
    assert!(!r.reached_end);
    // the popped samples lead, silence concealment follows
    assert_eq!(out, vec![5, 6, 7, 0, 0, 0, 0, 0]);
}

#[test]
fn callback_silence_when_not_playing() {
    let (mut prod, mut cons) = create_audio_buffer(64);
    prod.push_slice(&[1, 2, 3]);
    let mut out: Vec<i64> = vec![99; 4];
    let r = render_block(&mut cons, PlaybackState::Paused, false, false, &mut out);
    assert_eq!(r.samples_read, 0);
    assert_eq!(out, vec![0, 0, 0, 0]);
    // the ring was not consumed
    assert_eq!(cons.occupied_len(), 3);
}

#[test]
fn callback_clear_drains_before_emitting() {
    let (mut prod, mut cons) = create_audio_buffer(64);
    prod.push_slice(&[1, 2, 3]);
    let mut out: Vec<i64> = vec![99; 4];
    let r = render_block(&mut cons, PlaybackState::Playing, true, false, &mut out);
    assert!(r.cleared);
    // the stale samples never reach the output
    assert_eq!(r.samples_read, 0);
    assert_eq!(out, vec![0, 0, 0, 0]);
}

#[test]
fn callback_advances_clock_and_stops_at_eos() {
    let (mut prod, mut cons) = create_audio_buffer(64);
    let mut clock = Clock::new(44100);
    clock.set_state(PlaybackState::Playing);
    prod.push_slice(&[1, 2, 3, 4]);
    let mut out: Vec<i64> = vec![0; 4];
    let r = render_into(&mut cons, &mut clock, &mut out);
    assert_eq!(r.samples_read, 4);
    assert_eq!(clock.get_sample_pos(), 4);
    assert_eq!(clock.get_state(), PlaybackState::Playing);
    // the ring is empty and end-of-stream is flagged: the next
    // period stops the clock
    clock.set_eos(true);
    let r = render_into(&mut cons, &mut clock, &mut out);
    assert!(r.reached_end);
    assert_eq!(clock.get_state(), PlaybackState::Stopped);
    assert_eq!(clock.get_sample_pos(), 4);
}

#[test]
fn seek_then_render_emits_no_stale_samples() {
    let (mut prod, mut cons) = create_audio_buffer(64);
    let mut clock = Clock::new(44100);
    clock.set_state(PlaybackState::Playing);
    prod.push_slice(&[11, 12, 13]);
    // a seek signals the clear flag; the very next callback drains
    // the ring before emitting anything
    clock.signal_clear_buffer();
    let mut out: Vec<i64> = vec![0; 4];
    let r = render_into(&mut cons, &mut clock, &mut out);
    assert!(r.cleared);
    assert_eq!(r.samples_read, 0);
    assert_eq!(out, vec![0, 0, 0, 0]);
    assert!(!clock.should_clear_buffer());
    // fresh post-seek audio flows normally
    prod.push_slice(&[21, 22]);
    let r = render_into(&mut cons, &mut clock, &mut out);
    assert_eq!(r.samples_read, 2);
    assert_eq!(&out[..2], &[21, 22]);
}

#[test]
fn queue_decoder_replays_blocks() {
    let mut d = QueueDecoder::new(vec![vec![1, 2], vec![3]], 44100, 2, Some(2_000_000));
    assert_eq!(d.sample_rate(), 44100);
    assert_eq!(d.channels(), 2);
    assert_eq!(d.duration_micros(), Some(2_000_000));
    assert_eq!(d.decode_next(), Some(vec![1, 2]));
    assert_eq!(d.decode_next(), Some(vec![3]));
    assert_eq!(d.decode_next(), None);
    d.seek(0);
    assert_eq!(d.decode_next(), Some(vec![1, 2]));
}
