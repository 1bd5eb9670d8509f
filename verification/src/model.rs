//! The mathematical model of the playback coordinator and its transitions.
//! Every executable operation of [`crate::player::Player`] promises that the
//! new state and the returned value are exactly what the matching spec
//! function here computes from the old state; the laws in [`crate::laws`]
//! are proved over these functions alone.

use vstd::prelude::*;

use crate::sink::SinkView;
use crate::PlaybackState;
use crate::TransportError;

verus! {

/// What the consumer did with one attempt to drain the queue.
#[derive(Clone, Copy, PartialEq, Eq, Structural, Debug)]
pub enum ConsumerOutcome {
    /// The queue held no payload.
    Idle,
    /// A payload was taken but the sink lock was contended; the payload is
    /// dropped.
    Contended,
    /// A payload was taken but no sink has been installed yet; the payload
    /// is dropped.
    SinkMissing,
    /// A payload was taken and the sink cleared, but the payload did not
    /// decode; it is dropped and the consumer keeps running.
    DecodeFailed,
    /// A payload was taken, the sink was cleared, and the new sound was
    /// appended.
    Played,
}

/// Spec-level state of the whole coordinator: the queue and signal channel
/// contents, the last-audio cache, the sink, and the monitor's coarse state.
#[verifier::ext_equal]
pub struct PlayerView {
    /// Payloads buffered in the audio queue, earliest first.
    pub queue: Seq<Seq<u8>>,
    /// State signals buffered for the monitor, earliest first; `true`
    /// stands for `Playing`.
    pub signals: Seq<bool>,
    /// The most recently submitted payload, if any.
    pub cache: Option<Seq<u8>>,
    /// The shared sink.
    pub sink: SinkView,
    /// The monitor's coarse playback state.
    pub state: PlaybackState,
}

/// Every buffered state signal announces `Playing`. This holds throughout:
/// the coordinator never sends a `Stopped` signal, since the monitor finds
/// stops on its own by polling.
pub open spec fn signals_all_playing(v: PlayerView) -> bool {
    forall|i: int| 0 <= i < v.signals.len() ==> v.signals[i]
}

/// A payload submission: cache the payload when the cache lock is free,
/// then enqueue it if the single slot is empty and, on success, signal the
/// monitor that playback starts. A full queue rejects the submission but
/// the cache keeps the newer payload.
pub open spec fn spec_submit(v: PlayerView, payload: Seq<u8>, cache_lock: bool) -> (PlayerView,
    Result<(), TransportError>) {
    let cached = if cache_lock {
        PlayerView { cache: Some(payload), ..v }
    } else {
        v
    };
    if v.queue.len() == 0 {
        let queued = PlayerView { queue: cached.queue.push(payload), ..cached };
        (spec_signal_playing(queued), Ok(()))
    } else {
        (cached, Err(TransportError::QueueFull))
    }
}

/// Sending the `Playing` signal over the single-slot signal channel: a
/// no-op when a signal is already pending (that one can only announce
/// `Playing` as well).
pub open spec fn spec_signal_playing(v: PlayerView) -> PlayerView {
    if v.signals.len() == 0 {
        PlayerView { signals: v.signals.push(true), ..v }
    } else {
        v
    }
}

/// The consumer's non-blocking dequeue: the earliest payload leaves the
/// queue.
pub open spec fn spec_consumer_poll(v: PlayerView) -> (PlayerView, Option<Seq<u8>>) {
    if v.queue.len() == 0 {
        (v, None)
    } else {
        (PlayerView { queue: v.queue.drop_first(), ..v }, Some(v.queue[0]))
    }
}

/// Delivery of one dequeued payload to the sink: under the sink lock and
/// with a sink installed, whatever is playing is stopped and cleared, and
/// the payload's sound — if it decodes — becomes the only pending sound.
/// On a contended lock, a missing sink or a decode failure the payload is
/// dropped.
pub open spec fn spec_consumer_deliver(
    v: PlayerView,
    payload: Seq<u8>,
    sink_lock: bool,
    decode_ok: bool,
) -> (PlayerView, ConsumerOutcome) {
    if !sink_lock {
        (v, ConsumerOutcome::Contended)
    } else if !v.sink.ready {
        (v, ConsumerOutcome::SinkMissing)
    } else if decode_ok {
        (
            PlayerView {
                sink: SinkView { sounds: seq![payload], ..v.sink },
                ..v
            },
            ConsumerOutcome::Played,
        )
    } else {
        (
            PlayerView {
                sink: SinkView { sounds: Seq::<Seq<u8>>::empty(), ..v.sink },
                ..v
            },
            ConsumerOutcome::DecodeFailed,
        )
    }
}

/// One full consumer iteration: dequeue, then deliver.
pub open spec fn spec_consumer_step(v: PlayerView, sink_lock: bool, decode_ok: bool) -> (
    PlayerView,
    ConsumerOutcome,
) {
    let (polled, taken) = spec_consumer_poll(v);
    match taken {
        None => (polled, ConsumerOutcome::Idle),
        Some(payload) => spec_consumer_deliver(polled, payload, sink_lock, decode_ok),
    }
}

/// The monitor taking one buffered state signal, if any: the earliest
/// signal becomes the coarse state.
pub open spec fn spec_monitor_recv(v: PlayerView) -> (PlayerView, bool) {
    if v.signals.len() == 0 {
        (v, false)
    } else {
        (
            PlayerView {
                signals: v.signals.drop_first(),
                state: if v.signals[0] {
                    PlaybackState::Playing
                } else {
                    PlaybackState::Stopped
                },
                ..v
            },
            true,
        )
    }
}

/// One poll of the monitor: the completion event fires exactly when the
/// sink lock is free, a sink is installed and observed empty, and the
/// coarse state is still `Playing`; the state then falls to `Stopped`.
pub open spec fn spec_poll_tick(v: PlayerView, sink_lock: bool) -> (PlayerView, bool) {
    if sink_lock && v.sink.ready && v.sink.sounds.len() == 0 && v.state is Playing {
        (PlayerView { state: PlaybackState::Stopped, ..v }, true)
    } else {
        (v, false)
    }
}

/// Pausing under the two non-blocking locks: contention reports `Busy`, a
/// missing sink `NoActiveAudio`; otherwise only the pause flag changes.
/// The monitor's coarse state is deliberately untouched, so a paused sink
/// still counts as `Playing` and no false completion fires.
pub open spec fn spec_pause(v: PlayerView, state_lock: bool, sink_lock: bool) -> (PlayerView,
    Result<(), TransportError>) {
    if !state_lock || !sink_lock {
        (v, Err(TransportError::Busy))
    } else if !v.sink.ready {
        (v, Err(TransportError::NoActiveAudio))
    } else {
        (PlayerView { sink: SinkView { paused: true, ..v.sink }, ..v }, Ok(()))
    }
}

/// Resuming: symmetric to [`spec_pause`], clearing the pause flag.
pub open spec fn spec_resume(v: PlayerView, state_lock: bool, sink_lock: bool) -> (PlayerView,
    Result<(), TransportError>) {
    if !state_lock || !sink_lock {
        (v, Err(TransportError::Busy))
    } else if !v.sink.ready {
        (v, Err(TransportError::NoActiveAudio))
    } else {
        (PlayerView { sink: SinkView { paused: false, ..v.sink }, ..v }, Ok(()))
    }
}

/// Stopping: symmetric to [`spec_pause`], clearing every pending sound
/// while the sink itself survives.
pub open spec fn spec_stop(v: PlayerView, state_lock: bool, sink_lock: bool) -> (PlayerView,
    Result<(), TransportError>) {
    if !state_lock || !sink_lock {
        (v, Err(TransportError::Busy))
    } else if !v.sink.ready {
        (v, Err(TransportError::NoActiveAudio))
    } else {
        (
            PlayerView { sink: SinkView { sounds: Seq::<Seq<u8>>::empty(), ..v.sink }, ..v },
            Ok(()),
        )
    }
}

/// Replaying the cached payload: lock contention reports `Busy`; an empty
/// cache succeeds as a no-op; otherwise the cached payload is enqueued
/// exactly as a submission would enqueue it, and a full queue reports
/// `QueueFull`.
pub open spec fn spec_replay(v: PlayerView, state_lock: bool, cache_lock: bool) -> (PlayerView,
    Result<(), TransportError>) {
    if !state_lock || !cache_lock {
        (v, Err(TransportError::Busy))
    } else {
        match v.cache {
            None => (v, Ok(())),
            Some(payload) => {
                if v.queue.len() == 0 {
                    let queued = PlayerView { queue: v.queue.push(payload), ..v };
                    (spec_signal_playing(queued), Ok(()))
                } else {
                    (v, Err(TransportError::QueueFull))
                }
            },
        }
    }
}

/// Installing the device-backed sink at startup.
pub open spec fn spec_install_sink(v: PlayerView) -> PlayerView {
    PlayerView { sink: SinkView { ready: true, ..v.sink }, ..v }
}

/// The device finishing the earliest pending sound on its own.
pub open spec fn spec_drain_one(v: PlayerView) -> PlayerView {
    if v.sink.sounds.len() == 0 {
        v
    } else {
        PlayerView { sink: SinkView { sounds: v.sink.sounds.drop_first(), ..v.sink }, ..v }
    }
}

} // verus!
