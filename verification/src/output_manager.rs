//! The output supervisor's state machine. At every instant exactly
//! one party holds the ring's consumer endpoint: the manager itself
//! (disconnected), the live backend (connected), or the connect
//! attempt in flight — so device loss and recreation never destroy
//! the ring, and the producer side is never disturbed.
//!
//! The actual device work — enumerating devices, building a stream,
//! watching its health — is the host's; it drives these transitions
//! and hands the endpoint back and forth. On a successful
//! connection the device's sample rate and channel count are written
//! into the clock, which is what later makes the producer worker
//! rebuild its resampler and DSP chain.

use vstd::prelude::*;

use crate::buffer::AudioBufferConsumer;
use crate::clock::{Clock, PlaybackState};

verus! {

/// Where the consumer endpoint currently lives.
#[derive(Clone, Copy, Debug, PartialEq, Eq, Structural)]
pub enum LinkState {
    /// The manager holds the endpoint; no stream exists.
    Disconnected,
    /// The endpoint was lent to a connect attempt.
    InTransit,
    /// A live backend owns the endpoint.
    Connected,
}

/// The supervisor that owns the active output link.
pub struct OutputManager {
    pub state: LinkState,
    /// Held exactly while disconnected.
    pub consumer: Option<AudioBufferConsumer>,
    /// The connected device's identity token (host-chosen), kept to
    /// notice default-device changes.
    pub device_id: u64,
}

impl OutputManager {
    /// The custody invariant: the manager holds the endpoint if and
    /// only if it is disconnected.
    pub open spec fn inv(&self) -> bool {
        self.consumer is Some <==> self.state == LinkState::Disconnected
    }

    /// A new manager starts disconnected, holding the endpoint.
    pub fn new(consumer: AudioBufferConsumer) -> (r: OutputManager)
        ensures
            r.inv(),
            r.state == LinkState::Disconnected,
    {
        OutputManager { state: LinkState::Disconnected, consumer: Some(consumer), device_id: 0 }
    }

    /// Begin a connect attempt: lend the endpoint out. Nothing is
    /// returned unless the manager was disconnected.
    pub fn begin_connect(&mut self) -> (r: Option<AudioBufferConsumer>)
        requires
            old(self).inv(),
        ensures
            final(self).inv(),
            old(self).state == LinkState::Disconnected
                ==> (r == old(self).consumer && final(self).state == LinkState::InTransit),
            old(self).state != LinkState::Disconnected ==> (r is None && *final(self) == *old(
                self,
            )),
    {
        if matches!(self.state, LinkState::Disconnected) {
            let c: Option<AudioBufferConsumer> = self.consumer.take();
            self.state = LinkState::InTransit;
            c
        } else {
            None
        }
    }

    /// A connect attempt succeeded: the backend keeps the endpoint,
    /// and the device's configuration is written into the clock —
    /// after a hot swap the clock reflects the new device at once.
    pub fn on_connect_success(&mut self, device_id: u64, rate: u32, channels: u32, clock: &mut Clock)
        requires
            old(self).inv(),
            old(self).state == LinkState::InTransit,
            1 <= channels <= 8,
        ensures
            final(self).inv(),
            final(self).state == LinkState::Connected,
            final(self).device_id == device_id,
            final(clock).sample_rate == rate,
            final(clock).channels == channels,
            final(clock).sample_pos == old(clock).sample_pos,
            final(clock).state == old(clock).state,
    {
        self.state = LinkState::Connected;
        self.device_id = device_id;
        clock.set_sample_rate(rate);
        clock.set_channels(channels);
    }

    /// A connect attempt failed: the endpoint comes home and the
    /// manager is disconnected again, to retry on a later tick.
    pub fn on_connect_failure(&mut self, consumer: AudioBufferConsumer)
        requires
            old(self).inv(),
            old(self).state == LinkState::InTransit,
        ensures
            final(self).inv(),
            final(self).state == LinkState::Disconnected,
            final(self).consumer == Some(consumer),
            final(self).device_id == old(self).device_id,
    {
        self.consumer = Some(consumer);
        self.state = LinkState::Disconnected;
    }

    /// The backend was torn down (device loss, or an orderly
    /// shutdown) and surrendered the endpoint.
    pub fn on_shutdown(&mut self, consumer: AudioBufferConsumer)
        requires
            old(self).inv(),
            old(self).state == LinkState::Connected,
        ensures
            final(self).inv(),
            final(self).state == LinkState::Disconnected,
            final(self).consumer == Some(consumer),
            final(self).device_id == old(self).device_id,
    {
        self.consumer = Some(consumer);
        self.state = LinkState::Disconnected;
    }

    /// Whether the link must be rebuilt on this tick: there is no
    /// live backend, the backend reported a stream error, or the
    /// default device is no longer the one the backend was built on.
    pub fn needs_reconnect(&self, backend_healthy: bool, current_default_device: u64) -> (r: bool)
        ensures
            r == !(self.state == LinkState::Connected && backend_healthy
                && current_default_device == self.device_id),
    {
        !(matches!(self.state, LinkState::Connected) && backend_healthy && current_default_device
            == self.device_id)
    }

    /// Whether playback should be restarted after a successful
    /// reconnection: only when the clock says it was playing.
    pub fn should_restart(&self, clock: &Clock) -> (r: bool)
        ensures
            r == (clock.state == PlaybackState::Playing),
    {
        matches!(clock.get_state(), PlaybackState::Playing)
    }

    pub fn is_connected(&self) -> (r: bool)
        ensures
            r == (self.state == LinkState::Connected),
    {
        matches!(self.state, LinkState::Connected)
    }
}

} // verus!
