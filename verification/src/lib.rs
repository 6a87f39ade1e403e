//! Core of a real-time audio playback engine: a verified pipeline that
//! decodes audio blocks, resamples and channel-converts them, applies an
//! adaptive DSP chain, transports samples through a lock-free ring buffer,
//! and feeds an output callback that substitutes silence on underrun.
//!
//! Samples are interleaved fixed-point values with 24 fractional bits
//! (`fixed::FX_ONE` is full scale, 1.0); hosts convert to and from the
//! device's native format at the edges.

pub mod bass;
pub mod biquad;
pub mod buffer;
pub mod callback;
pub mod clock;
pub mod decoder;
pub mod dsp_chain;
pub mod engine;
pub mod eq;
pub mod fixed;
pub mod limiter;
pub mod math;
pub mod output_manager;
pub mod resampler;
pub mod worker;
