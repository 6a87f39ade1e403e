//! The output callback's logic: drain the ring into the device
//! block, conceal underruns with silence, honour the clock's state
//! and flags, and advance the playback position.
//!
//! [`render_block`] is the pure core over plain clock values, so a
//! real-time host thread that mirrors the clock in atomics can call
//! it directly; [`render_into`] wires the same core to the engine's
//! clock for sequential hosts and tests.

use vstd::prelude::*;

use crate::buffer::AudioBufferConsumer;
use crate::clock::{Clock, PlaybackState};

verus! {

/// What the callback did, for the caller to apply to its clock:
/// whether the ring was drained for a pending clear, how many
/// samples were emitted, and whether end-of-stream was reached.
pub struct RenderOutcome {
    /// The ring was drained because a clear was requested; the
    /// caller resets the clock's clear flag.
    pub cleared: bool,
    /// Samples actually popped from the ring; the caller advances
    /// the clock by this count.
    pub samples_read: usize,
    /// Playback was on, the ring was empty and end-of-stream was
    /// flagged: the caller moves the clock to Stopped.
    pub reached_end: bool,
}

/// Fill `out` for one device period. Every position of `out` is
/// written: the first `samples_read` with samples popped from the
/// ring, the rest with silence.
pub fn render_block(
    consumer: &mut AudioBufferConsumer,
    state: PlaybackState,
    clear_requested: bool,
    eos: bool,
    out: &mut Vec<i64>,
) -> (r: RenderOutcome)
    ensures
        final(consumer).capacity() == old(consumer).capacity(),
        final(out)@.len() == old(out)@.len(),
        r.cleared == clear_requested,
        r.samples_read <= old(out)@.len(),
        forall|i: int|
            r.samples_read <= i < final(out)@.len() ==> final(out)@[i] == 0,
        state != PlaybackState::Playing ==> r.samples_read == 0 && !r.reached_end
            && final(consumer).popped_count() == old(consumer).popped_count(),
        state == PlaybackState::Playing && !clear_requested ==> r.samples_read as int >= if old(
            out,
        )@.len() <= old(consumer).known_occupied() {
            old(out)@.len() as int
        } else {
            old(consumer).known_occupied() as int
        },
        state == PlaybackState::Playing
            ==> final(consumer).popped_count() == old(consumer).popped_count() + r.samples_read,
        r.reached_end <==> state == PlaybackState::Playing && r.samples_read == 0 && eos,
{
    let mut cleared: bool = false;
    if clear_requested {
        consumer.clear();
        cleared = true;
    }
    if !matches!(state, PlaybackState::Playing) {
        fill_silence(out, 0);
        return RenderOutcome { cleared, samples_read: 0, reached_end: false };
    }
    let samples_read: usize = consumer.pop_slice(out);
    fill_silence(out, samples_read);
    let reached_end: bool = samples_read == 0 && eos;
    RenderOutcome { cleared, samples_read, reached_end }
}

/// Overwrite `out` from `start` on with silence.
fn fill_silence(out: &mut Vec<i64>, start: usize)
    ensures
        final(out)@.len() == old(out)@.len(),
        forall|i: int| start <= i < final(out)@.len() ==> final(out)@[i] == 0,
        forall|i: int| 0 <= i < start && i < final(out)@.len() ==> final(out)@[i] == old(out)@[i],
{
    let mut i: usize = start;
    while i < out.len()
        invariant
            start <= i,
            out@.len() == old(out)@.len(),
            forall|j: int| start <= j < i && j < out@.len() ==> out@[j] == 0,
            forall|j: int| 0 <= j < start && j < out@.len() ==> out@[j] == old(out)@[j],
        decreases out@.len() - i,
    {
        out[i] = 0;
        i = i + 1;
    }
}

/// One full callback period against the engine's clock: clear the
/// ring when asked and reset the flag, render, advance the position
/// by what was actually read, and stop the clock at end of stream.
pub fn render_into(consumer: &mut AudioBufferConsumer, clock: &mut Clock, out: &mut Vec<i64>) -> (r:
    RenderOutcome)
    ensures
        final(consumer).capacity() == old(consumer).capacity(),
        final(out)@.len() == old(out)@.len(),
        r.samples_read <= old(out)@.len(),
        forall|i: int|
            r.samples_read <= i < final(out)@.len() ==> final(out)@[i] == 0,
        !final(clock).clear_buffer,
        r.cleared == old(clock).clear_buffer,
        old(clock).state != PlaybackState::Playing ==> r.samples_read == 0
            && final(clock).sample_pos == old(clock).sample_pos,
        old(clock).state == PlaybackState::Playing && !old(clock).clear_buffer
            ==> r.samples_read as int >= if old(out)@.len() <= old(consumer).known_occupied() {
            old(out)@.len() as int
        } else {
            old(consumer).known_occupied() as int
        },
        old(clock).state == PlaybackState::Playing ==> final(clock).sample_pos == if old(
            clock,
        ).sample_pos + r.samples_read <= u64::MAX as int {
            old(clock).sample_pos + r.samples_read
        } else {
            u64::MAX as int
        },
        r.reached_end <==> old(clock).state == PlaybackState::Playing && r.samples_read == 0 && old(
            clock,
        ).eos,
        final(clock).state == if r.reached_end {
            PlaybackState::Stopped
        } else {
            old(clock).state
        },
        final(clock).sample_rate == old(clock).sample_rate,
        final(clock).channels == old(clock).channels,
{
    let clear_requested: bool = clock.should_clear_buffer();
    let state: PlaybackState = clock.get_state();
    let eos: bool = clock.is_eos();
    let outcome: RenderOutcome = render_block(consumer, state, clear_requested, eos, out);
    if outcome.cleared {
        clock.reset_clear_buffer();
    }
    clock.increment_samples(outcome.samples_read as u64);
    if outcome.reached_end {
        clock.set_state(PlaybackState::Stopped);
    }
    outcome
}

} // verus!
