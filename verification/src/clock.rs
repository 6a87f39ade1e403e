//! The Clock is the engine's timing authority: playback state, output
//! sample rate and channel count, the interleaved-sample position, and
//! the flags that coordinate the producer worker with the output
//! callback (clear-downstream-buffer and end-of-stream).
//!
//! The verified model is a plain control block; a host that shares it
//! between threads mirrors each field into an atomic scalar and keeps
//! exactly these transition rules.

use vstd::prelude::*;

verus! {

/// Playback state of the engine.
#[derive(Clone, Copy, Debug, PartialEq, Eq, Structural)]
pub enum PlaybackState {
    Stopped,
    Playing,
    Paused,
}

impl PlaybackState {
    /// The state's stable wire code (what a host stores in an atomic).
    pub fn as_code(self) -> (r: u8)
        ensures
            r == spec_state_code(self),
    {
        match self {
            PlaybackState::Stopped => 0,
            PlaybackState::Playing => 1,
            PlaybackState::Paused => 2,
        }
    }

    /// Decode a wire code; unknown codes mean Stopped.
    pub fn from_code(code: u8) -> (r: PlaybackState)
        ensures
            r == spec_state_from_code(code),
            spec_state_code(r) == if code <= 2 {
                code as int
            } else {
                0int
            },
    {
        match code {
            1 => PlaybackState::Playing,
            2 => PlaybackState::Paused,
            _ => PlaybackState::Stopped,
        }
    }
}

pub open spec fn spec_state_code(s: PlaybackState) -> int {
    match s {
        PlaybackState::Stopped => 0,
        PlaybackState::Playing => 1,
        PlaybackState::Paused => 2,
    }
}

pub open spec fn spec_state_from_code(code: u8) -> PlaybackState {
    if code == 1 {
        PlaybackState::Playing
    } else if code == 2 {
        PlaybackState::Paused
    } else {
        PlaybackState::Stopped
    }
}

/// The global timing and control block.
pub struct Clock {
    /// Playback position in interleaved samples since load.
    pub sample_pos: u64,
    /// Output sample rate in Hz.
    pub sample_rate: u32,
    /// Output channel count.
    pub channels: u32,
    /// Playback state.
    pub state: PlaybackState,
    /// Set when the downstream ring must be drained before more
    /// samples are emitted (serialises seek with audible output).
    pub clear_buffer: bool,
    /// Set by the producer worker immediately before it exits, so the
    /// output side can tell end-of-stream from a mere underrun.
    pub eos: bool,
}

/// Playback time in microseconds: `sample_pos / (rate * channels)`
/// seconds, and 0 whenever rate or channels is 0.
pub open spec fn spec_time_micros(pos: int, rate: int, channels: int) -> int {
    if rate > 0 && channels > 0 {
        pos * 1_000_000 / (rate * channels)
    } else {
        0
    }
}

impl Clock {
    pub fn new(sample_rate: u32) -> (r: Clock)
        ensures
            r.sample_pos == 0,
            r.sample_rate == sample_rate,
            r.channels == 2,
            r.state == PlaybackState::Stopped,
            !r.clear_buffer,
            !r.eos,
    {
        Clock {
            sample_pos: 0,
            sample_rate,
            channels: 2,
            state: PlaybackState::Stopped,
            clear_buffer: false,
            eos: false,
        }
    }

    /// Current playback position in interleaved samples.
    pub fn get_sample_pos(&self) -> (r: u64)
        ensures
            r == self.sample_pos,
    {
        self.sample_pos
    }

    /// Set the playback position (seek, or reset on load).
    pub fn set_sample_pos(&mut self, pos: u64)
        ensures
            *final(self) == (Clock { sample_pos: pos, ..*old(self) }),
    {
        self.sample_pos = pos;
    }

    /// Advance the position by `amount` samples; a no-op unless the
    /// state is Playing. Saturates at `u64::MAX`, which keeps the
    /// position monotone while Playing.
    pub fn increment_samples(&mut self, amount: u64)
        ensures
            final(self).sample_pos == if old(self).state == PlaybackState::Playing {
                if old(self).sample_pos + amount <= u64::MAX {
                    old(self).sample_pos + amount
                } else {
                    u64::MAX as int
                }
            } else {
                old(self).sample_pos as int
            },
            *final(self) == (Clock { sample_pos: final(self).sample_pos, ..*old(self) }),
    {
        if self.get_state() == PlaybackState::Playing {
            if self.sample_pos <= u64::MAX - amount {
                self.sample_pos = self.sample_pos + amount;
            } else {
                self.sample_pos = u64::MAX;
            }
        }
    }

    /// Playback time in whole microseconds, 0 when rate or channels is
    /// unset; saturates at `u64::MAX`.
    pub fn get_time_micros(&self) -> (r: u64)
        ensures
            r == if spec_time_micros(
                self.sample_pos as int,
                self.sample_rate as int,
                self.channels as int,
            ) <= u64::MAX {
                spec_time_micros(
                    self.sample_pos as int,
                    self.sample_rate as int,
                    self.channels as int,
                )
            } else {
                u64::MAX as int
            },
    {
        if self.sample_rate > 0 && self.channels > 0 {
            proof {
                assert((self.sample_rate as int) * (self.channels as int) > 0)
                    by (nonlinear_arith)
                    requires
                        self.sample_rate as int > 0,
                        self.channels as int > 0,
                ;
                assert((self.sample_rate as int) * (self.channels as int)
                    <= 0x1_0000_0000int * 0x1_0000_0000int)
                    by (nonlinear_arith)
                    requires
                        0 <= self.sample_rate as int,
                        (self.sample_rate as int) < 0x1_0000_0000int,
                        0 <= self.channels as int,
                        (self.channels as int) < 0x1_0000_0000int,
                ;
                assert((self.sample_pos as int) * 1_000_000int
                    <= 0x1_0000_0000_0000_0000int * 1_000_000int)
                    by (nonlinear_arith)
                    requires
                        0 <= self.sample_pos as int,
                        (self.sample_pos as int) < 0x1_0000_0000_0000_0000int,
                ;
            }
            let denom: u128 = (self.sample_rate as u128) * (self.channels as u128);
            let micros: u128 = (self.sample_pos as u128) * 1_000_000 / denom;
            if micros > u64::MAX as u128 {
                u64::MAX
            } else {
                micros as u64
            }
        } else {
            0
        }
    }

    pub fn get_state(&self) -> (r: PlaybackState)
        ensures
            r == self.state,
    {
        self.state
    }

    pub fn set_state(&mut self, state: PlaybackState)
        ensures
            *final(self) == (Clock { state: state, ..*old(self) }),
    {
        self.state = state;
    }

    /// Set the output sample rate; written by the backend at stream
    /// creation.
    pub fn set_sample_rate(&mut self, rate: u32)
        ensures
            *final(self) == (Clock { sample_rate: rate, ..*old(self) }),
    {
        self.sample_rate = rate;
    }

    pub fn get_sample_rate(&self) -> (r: u32)
        ensures
            r == self.sample_rate,
    {
        self.sample_rate
    }

    /// Set the output channel count; written by the backend at stream
    /// creation.
    pub fn set_channels(&mut self, channels: u32)
        requires
            1 <= channels <= 8,
        ensures
            *final(self) == (Clock { channels: channels, ..*old(self) }),
    {
        self.channels = channels;
    }

    pub fn get_channels(&self) -> (r: u32)
        ensures
            r == self.channels,
    {
        self.channels
    }

    /// Ask the output side to drain the ring before emitting more
    /// samples.
    pub fn signal_clear_buffer(&mut self)
        ensures
            *final(self) == (Clock { clear_buffer: true, ..*old(self) }),
    {
        self.clear_buffer = true;
    }

    pub fn should_clear_buffer(&self) -> (r: bool)
        ensures
            r == self.clear_buffer,
    {
        self.clear_buffer
    }

    pub fn reset_clear_buffer(&mut self)
        ensures
            *final(self) == (Clock { clear_buffer: false, ..*old(self) }),
    {
        self.clear_buffer = false;
    }

    /// Mark or unmark end-of-stream; set by the worker right before it
    /// exits.
    pub fn set_eos(&mut self, eos: bool)
        ensures
            *final(self) == (Clock { eos: eos, ..*old(self) }),
    {
        self.eos = eos;
    }

    pub fn is_eos(&self) -> (r: bool)
        ensures
            r == self.eos,
    {
        self.eos
    }

}

} // verus!
