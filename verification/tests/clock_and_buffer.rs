//! The clock's transition rules and the ring buffer endpoints over
//! the real lock-free ring.

use audio_core::buffer::create_audio_buffer;
use audio_core::clock::{Clock, PlaybackState};

#[test]
fn clock_defaults() {
    let c = Clock::new(48000);
    assert_eq!(c.get_sample_pos(), 0);
    assert_eq!(c.get_sample_rate(), 48000);
    assert_eq!(c.get_channels(), 2);
    assert_eq!(c.get_state(), PlaybackState::Stopped);
    assert!(!c.should_clear_buffer());
    assert!(!c.is_eos());
}

#[test]
fn clock_increment_only_while_playing() {
    let mut c = Clock::new(44100);
    c.increment_samples(100);
    assert_eq!(c.get_sample_pos(), 0);
    c.set_state(PlaybackState::Playing);
    c.increment_samples(100);
    assert_eq!(c.get_sample_pos(), 100);
    c.set_state(PlaybackState::Paused);
    c.increment_samples(100);
    assert_eq!(c.get_sample_pos(), 100);
}

#[test]
fn clock_time_micros_formula() {
    let mut c = Clock::new(44100);
    c.set_channels(2);
    c.set_sample_pos(88200);
    // 88200 samples at 44100 Hz stereo is exactly one second
    assert_eq!(c.get_time_micros(), 1_000_000);
    c.set_sample_pos(44100);
    assert_eq!(c.get_time_micros(), 500_000);
    // an unset rate reports zero time
    c.set_sample_rate(0);
    assert_eq!(c.get_time_micros(), 0);
}

#[test]
fn clock_flags_round_trip() {
    let mut c = Clock::new(44100);
    c.signal_clear_buffer();
    assert!(c.should_clear_buffer());
    c.reset_clear_buffer();
    assert!(!c.should_clear_buffer());
    c.set_eos(true);
    assert!(c.is_eos());
    c.set_eos(false);
    assert!(!c.is_eos());
}

#[test]
fn state_codes_round_trip() {
    for s in [PlaybackState::Stopped, PlaybackState::Playing, PlaybackState::Paused] {
        assert_eq!(PlaybackState::from_code(s.as_code()), s);
    }
    assert_eq!(PlaybackState::from_code(99), PlaybackState::Stopped);
}

#[test]
fn ring_push_pop_round_trip() {
    let (mut prod, mut cons) = create_audio_buffer(8);
    let samples: Vec<i64> = vec![1, 2, 3, 4, 5];
    let pushed = prod.push_slice(&samples);
    assert_eq!(pushed, 5);
    assert_eq!(cons.occupied_len(), 5);
    let mut out: Vec<i64> = vec![0; 5];
    let popped = cons.pop_slice(&mut out);
    assert_eq!(popped, 5);
    assert_eq!(out, vec![1, 2, 3, 4, 5]);
    assert_eq!(cons.occupied_len(), 0);
}

#[test]
fn ring_totals_balance() {
    // Interleave pushes and pops; in the absence of clear, what the
    // consumer takes out equals what the producer put in.
    let (mut prod, mut cons) = create_audio_buffer(16);
    let mut total_pushed: usize = 0;
    let mut total_popped: usize = 0;
    let mut popped_values: Vec<i64> = Vec::new();
    let mut next: i64 = 0;
    for round in 0..50 {
        let n = (round % 7) + 1;
        let block: Vec<i64> = (0..n).map(|_| {
            next += 1;
            next
        }).collect();
        total_pushed += prod.push_slice(&block);
        let mut out: Vec<i64> = vec![0; 5];
        let got = cons.pop_slice(&mut out);
        total_popped += got;
        popped_values.extend_from_slice(&out[..got]);
    }
    // drain the remainder
    let mut out: Vec<i64> = vec![0; 16];
    let got = cons.pop_slice(&mut out);
    total_popped += got;
    popped_values.extend_from_slice(&out[..got]);
    assert_eq!(total_pushed, total_popped);
    // and the values came out in order, unchanged
    for (i, v) in popped_values.iter().enumerate() {
        assert_eq!(*v, (i + 1) as i64);
    }
}

#[test]
fn ring_full_push_returns_zero() {
    let (mut prod, mut cons) = create_audio_buffer(4);
    assert_eq!(prod.push_slice(&[1, 2, 3, 4, 5, 6]), 4);
    assert_eq!(prod.vacant_len(), 0);
    // a full ring accepts nothing, and never writes past capacity
    assert_eq!(prod.push_slice(&[7, 8]), 0);
    assert!(prod.push(9).is_err());
    let mut out: Vec<i64> = vec![0; 8];
    assert_eq!(cons.pop_slice(&mut out), 4);
    assert_eq!(&out[..4], &[1, 2, 3, 4]);
}

#[test]
fn ring_clear_drops_content() {
    let (mut prod, mut cons) = create_audio_buffer(8);
    prod.push_slice(&[1, 2, 3]);
    assert_eq!(cons.clear(), 3);
    assert_eq!(cons.occupied_len(), 0);
    assert_eq!(cons.pop(), None);
    // the ring keeps working after a clear
    prod.push_slice(&[4]);
    assert_eq!(cons.pop(), Some(4));
}

#[test]
fn fresh_ring_reports_full_vacancy() {
    let (mut prod, mut cons) = create_audio_buffer(16);
    // a fresh ring is empty: all sixteen slots are free and nothing
    // is stored
    assert_eq!(prod.vacant_len(), 16);
    assert_eq!(cons.occupied_len(), 0);
    assert_eq!(cons.pop(), None);
}

#[test]
fn observed_occupancy_is_guaranteed_to_pops() {
    let (mut prod, mut cons) = create_audio_buffer(16);
    prod.push_slice(&[1, 2, 3, 4, 5]);
    // once the consumer has seen five samples, a pop of five
    // retrieves all five: the producer can only add more
    let seen = cons.occupied_len();
    assert_eq!(seen, 5);
    let mut out: Vec<i64> = vec![0; 5];
    assert_eq!(cons.pop_slice(&mut out), 5);
    assert_eq!(out, vec![1, 2, 3, 4, 5]);
}

#[test]
fn observed_vacancy_is_guaranteed_to_pushes() {
    let (mut prod, mut cons) = create_audio_buffer(8);
    prod.push_slice(&[1, 2, 3, 4, 5, 6]);
    let mut out: Vec<i64> = vec![0; 4];
    cons.pop_slice(&mut out);
    // once the producer has seen six free slots, a push of six
    // stores all six: the consumer can only free more
    let room = prod.vacant_len();
    assert_eq!(room, 6);
    assert_eq!(prod.push_slice(&[7, 8, 9, 10, 11, 12]), 6);
}

#[test]
fn ring_push_slice_from_tail() {
    let (mut prod, mut cons) = create_audio_buffer(8);
    let samples: Vec<i64> = vec![10, 20, 30, 40];
    let n = prod.push_slice_from(&samples, 2);
    assert_eq!(n, 2);
    let mut out: Vec<i64> = vec![0; 4];
    assert_eq!(cons.pop_slice(&mut out), 2);
    assert_eq!(&out[..2], &[30, 40]);
}
