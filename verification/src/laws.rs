//! Laws of the playback coordinator, proved once over the model
//! transitions in [`crate::model`]. Every executable operation of
//! [`crate::player::Player`] promises that its new state and return value
//! are exactly the matching transition's, so each law carries over to every
//! execution.

use vstd::prelude::*;

use crate::model::signals_all_playing;
use crate::model::spec_consumer_poll;
use crate::model::spec_consumer_step;
use crate::model::spec_drain_one;
use crate::model::spec_install_sink;
use crate::model::spec_monitor_recv;
use crate::model::spec_pause;
use crate::model::spec_poll_tick;
use crate::model::spec_replay;
use crate::model::spec_resume;
use crate::model::spec_stop;
use crate::model::spec_submit;
use crate::model::ConsumerOutcome;
use crate::model::PlayerView;
use crate::sink::SinkView;

verus! {

/// The coordinator never sends a `Stopped` signal: every transition keeps
/// the buffered signals announcing `Playing` only. This is what lets the
/// monitor treat any arriving signal as the start of playback.
pub proof fn lemma_transitions_keep_signals_playing(
    v: PlayerView,
    payload: Seq<u8>,
    a: bool,
    b: bool,
)
    requires
        signals_all_playing(v),
    ensures
        signals_all_playing(spec_submit(v, payload, a).0),
        signals_all_playing(spec_replay(v, a, b).0),
        signals_all_playing(spec_monitor_recv(v).0),
        signals_all_playing(spec_consumer_step(v, a, b).0),
        signals_all_playing(spec_poll_tick(v, a).0),
        signals_all_playing(spec_pause(v, a, b).0),
        signals_all_playing(spec_resume(v, a, b).0),
        signals_all_playing(spec_stop(v, a, b).0),
        signals_all_playing(spec_install_sink(v)),
        signals_all_playing(spec_drain_one(v)),
{
    assert forall|w: PlayerView| w.signals == v.signals.push(true) implies signals_all_playing(
        w,
    ) by {
        assert(forall|i: int|
            0 <= i < w.signals.len() ==> w.signals[i] == if i < v.signals.len() {
                v.signals[i]
            } else {
                true
            });
    }
    assert forall|w: PlayerView| v.signals.len() > 0 && w.signals == v.signals.drop_first()
        implies signals_all_playing(w) by {
        assert(forall|i: int| 0 <= i < w.signals.len() ==> w.signals[i] == v.signals[i + 1]);
    }
}

/// Both channels really are single-slot: at most one payload is ever in
/// flight awaiting consumption and at most one signal awaiting the
/// monitor, whatever transitions run. A submission or replay enqueues only
/// into an empty slot, and nothing else grows either channel.
pub proof fn lemma_single_slot(v: PlayerView, payload: Seq<u8>, a: bool, b: bool)
    requires
        v.queue.len() <= 1,
        v.signals.len() <= 1,
    ensures
        spec_submit(v, payload, a).0.queue.len() <= 1,
        spec_submit(v, payload, a).0.signals.len() <= 1,
        spec_replay(v, a, b).0.queue.len() <= 1,
        spec_replay(v, a, b).0.signals.len() <= 1,
        spec_consumer_step(v, a, b).0.queue.len() <= 1,
        spec_consumer_step(v, a, b).0.signals.len() <= 1,
        spec_monitor_recv(v).0.queue.len() <= 1,
        spec_monitor_recv(v).0.signals.len() <= 1,
        spec_poll_tick(v, a).0.queue.len() <= 1,
        spec_poll_tick(v, a).0.signals.len() <= 1,
        spec_pause(v, a, b).0.queue.len() <= 1,
        spec_pause(v, a, b).0.signals.len() <= 1,
        spec_resume(v, a, b).0.queue.len() <= 1,
        spec_resume(v, a, b).0.signals.len() <= 1,
        spec_stop(v, a, b).0.queue.len() <= 1,
        spec_stop(v, a, b).0.signals.len() <= 1,
        spec_install_sink(v).queue.len() <= 1,
        spec_install_sink(v).signals.len() <= 1,
        spec_drain_one(v).queue.len() <= 1,
        spec_drain_one(v).signals.len() <= 1,
{
}

/// Payloads reach the sink in send order, and the sink never holds two
/// payloads' audio at once: each delivery first stops and clears the sink,
/// so right after a delivery the delivered payload's sound is the only one
/// pending. Submitting and consuming two payloads in turn plays the first,
/// then exactly the second.
pub proof fn lemma_plays_in_send_order(
    v: PlayerView,
    p1: Seq<u8>,
    p2: Seq<u8>,
    cl1: bool,
    cl2: bool,
)
    requires
        v.queue.len() == 0,
        v.sink.ready,
    ensures
        ({
            let (v1, r1) = spec_submit(v, p1, cl1);
            let (v2, o1) = spec_consumer_step(v1, true, true);
            let (v3, r2) = spec_submit(v2, p2, cl2);
            let (v4, o2) = spec_consumer_step(v3, true, true);
            &&& r1 is Ok
            &&& o1 == ConsumerOutcome::Played
            &&& v2.sink.sounds == seq![p1]
            &&& r2 is Ok
            &&& o2 == ConsumerOutcome::Played
            &&& v4.sink.sounds == seq![p2]
        }),
{
}

/// After any successful submission the monitor's next signal receipt sets
/// the coarse state to `Playing`, whatever the state was before: either
/// the submission buffered a `Playing` signal, or one was already pending
/// — and pending signals only ever announce `Playing`.
pub proof fn lemma_submit_sets_playing(v: PlayerView, payload: Seq<u8>, cache_lock: bool)
    requires
        signals_all_playing(v),
        spec_submit(v, payload, cache_lock).1 is Ok,
    ensures
        spec_submit(v, payload, cache_lock).0.signals.len() > 0,
        spec_monitor_recv(spec_submit(v, payload, cache_lock).0).0.state is Playing,
{
    let v1 = spec_submit(v, payload, cache_lock).0;
    assert(v1.signals[0]);
}

/// The same, for a successful replay of a cached payload: the monitor's
/// next signal receipt sets the coarse state to `Playing`.
pub proof fn lemma_replay_sets_playing(v: PlayerView, state_lock: bool, cache_lock: bool)
    requires
        signals_all_playing(v),
        v.cache is Some,
        spec_replay(v, state_lock, cache_lock).1 is Ok,
    ensures
        spec_replay(v, state_lock, cache_lock).0.signals.len() > 0,
        spec_monitor_recv(spec_replay(v, state_lock, cache_lock).0).0.state is Playing,
{
    let v1 = spec_replay(v, state_lock, cache_lock).0;
    assert(v1.signals[0]);
}

/// Exactly one completion event per drain: a poll that observes the
/// installed sink empty while the state is `Playing` fires the event and
/// drops the state to `Stopped`; the immediately following poll fires
/// nothing and changes nothing.
pub proof fn lemma_completion_fires_once(v: PlayerView, later_lock: bool)
    requires
        v.state is Playing,
        v.sink.ready,
        v.sink.sounds.len() == 0,
    ensures
        ({
            let (v1, fired1) = spec_poll_tick(v, true);
            let (v2, fired2) = spec_poll_tick(v1, later_lock);
            &&& fired1
            &&& v1.state is Stopped
            &&& !fired2
            &&& v2 == v1
        }),
{
}

/// A poll fires nothing while the state is `Stopped`, while a sound is
/// still pending, while no sink is installed, or while the sink lock is
/// contended — and then leaves the state untouched.
pub proof fn lemma_poll_is_noop_otherwise(v: PlayerView, sink_lock: bool)
    requires
        !(sink_lock && v.sink.ready && v.sink.sounds.len() == 0 && v.state is Playing),
    ensures
        spec_poll_tick(v, sink_lock) == (v, false),
{
}

/// Pause then resume on an installed sink succeed both times and leave
/// everything but the pause flag — in particular the monitor's
/// Playing/Stopped bookkeeping — exactly as it was.
pub proof fn lemma_pause_resume_keeps_state(v: PlayerView)
    requires
        v.sink.ready,
    ensures
        ({
            let (v1, r1) = spec_pause(v, true, true);
            let (v2, r2) = spec_resume(v1, true, true);
            &&& r1 is Ok
            &&& r2 is Ok
            &&& v1.state == v.state
            &&& v2 == (PlayerView { sink: SinkView { paused: false, ..v.sink }, ..v })
        }),
{
    let (v1, r1) = spec_pause(v, true, true);
    let (v2, r2) = spec_resume(v1, true, true);
    assert(v2 =~= PlayerView { sink: SinkView { paused: false, ..v.sink }, ..v });
}

/// A replay with nothing ever cached succeeds as a pure no-op: no queue
/// write, no signal, no state change, and therefore nothing for the
/// monitor to report.
pub proof fn lemma_replay_without_cache_is_noop(v: PlayerView)
    requires
        v.cache is None,
    ensures
        spec_replay(v, true, true).0 == v,
        spec_replay(v, true, true).1 is Ok,
{
}

/// A replay right after a consumed submission re-delivers the very same
/// payload bytes to the consumer: the submission caches the payload, the
/// consumer frees the queue slot, and the replay enqueues the cached bytes
/// so the next dequeue yields them again.
pub proof fn lemma_replay_redelivers_same_bytes(v: PlayerView, payload: Seq<u8>)
    requires
        v.queue.len() == 0,
        v.sink.ready,
    ensures
        ({
            let (v1, r1) = spec_submit(v, payload, true);
            let (v2, o1) = spec_consumer_step(v1, true, true);
            let (v3, r2) = spec_replay(v2, true, true);
            let (v4, taken) = spec_consumer_poll(v3);
            &&& r1 is Ok
            &&& o1 == ConsumerOutcome::Played
            &&& r2 is Ok
            &&& taken == Some(payload)
        }),
{
}

} // verus!
