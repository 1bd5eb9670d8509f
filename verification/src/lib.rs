//! Coordination of a single shared audio output: a capacity-one queue of
//! encoded payloads, a consumer that replaces whatever is playing, a
//! Playing/Stopped monitor that detects natural completion by polling, a
//! cache of the most recent payload for replay, and non-blocking transport
//! controls (pause, resume, stop, replay).

use vstd::prelude::*;

pub mod channels;
pub mod laws;
pub mod model;
pub mod player;
pub mod sink;

verus! {

/// Coarse playback state kept by the monitor. It is set to `Playing` by an
/// explicit signal whenever a payload is successfully enqueued, and falls
/// back to `Stopped` when a poll observes the sink empty.
#[derive(Clone, Copy, PartialEq, Eq, Structural, Debug)]
pub enum PlaybackState {
    Playing,
    Stopped,
}

/// Failures of the transport operations and of payload submission. All are
/// recoverable: the caller may retry or ignore them.
#[derive(Clone, Copy, PartialEq, Eq, Structural, Debug)]
pub enum TransportError {
    /// A non-blocking lock acquisition failed; safe to retry.
    Busy,
    /// The sink has not been initialized yet, so there is nothing to act on.
    NoActiveAudio,
    /// The single queue slot is occupied.
    QueueFull,
}

} // verus!
