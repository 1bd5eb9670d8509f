//! The playback coordinator itself: the audio queue, the signal channel,
//! the last-audio cache, the shared sink and the monitor's coarse state,
//! with one executable operation per transition of the model in
//! [`crate::model`]. Lock contention and decode outcomes are decided by the
//! caller's environment and arrive here as plain arguments; every operation
//! promises the exact new state and return value for either outcome.

use vstd::prelude::*;

use crate::channels::queue_contents;
use crate::channels::signal_contents;
use crate::channels::AudioQueue;
use crate::channels::SignalChannel;
use crate::model::spec_consumer_deliver;
use crate::model::spec_consumer_poll;
use crate::model::spec_consumer_step;
use crate::model::spec_drain_one;
use crate::model::spec_install_sink;
use crate::model::spec_monitor_recv;
use crate::model::spec_pause;
use crate::model::spec_poll_tick;
use crate::model::spec_replay;
use crate::model::spec_resume;
use crate::model::spec_stop;
use crate::model::spec_submit;
use crate::model::ConsumerOutcome;
use crate::model::PlayerView;
use crate::sink::SinkModel;
use crate::sink::SinkView;
use crate::PlaybackState;
use crate::TransportError;

verus! {

/// An exact copy of a payload's bytes.
fn clone_payload(payload: &Vec<u8>) -> (c: Vec<u8>)
    ensures
        c@ == payload@,
{
    let c = payload.clone();
    proof {
        assert forall|i: int| 0 <= i < c@.len() implies c@[i] == payload@[i] by {
            assert(cloned::<u8>(payload@[i], c@[i]));
        }
        assert(c@ =~= payload@);
    }
    c
}

/// The playback coordination state: the single-slot audio queue, the
/// single-slot signal channel to the monitor, the last-audio cache, the
/// shared sink and the monitor's coarse playback state.
pub struct Player {
    /// Payloads on their way from the producers to the consumer.
    pub queue: AudioQueue,
    /// Playback-state signals on their way to the monitor.
    pub signals: SignalChannel,
    /// The most recently submitted payload, kept for replay.
    pub cache: Option<Vec<u8>>,
    /// The single shared output sink.
    pub sink: SinkModel,
    /// The monitor's coarse playback state.
    pub state: PlaybackState,
}

impl View for Player {
    type V = PlayerView;

    open spec fn view(&self) -> PlayerView {
        PlayerView {
            queue: queue_contents(self.queue),
            signals: signal_contents(self.signals),
            cache: match self.cache {
                Some(p) => Some(p@),
                None => None,
            },
            sink: self.sink@,
            state: self.state,
        }
    }
}

impl Player {
    /// A fresh coordinator: empty queue and signal channel, nothing
    /// cached, no sink installed, monitor state `Stopped`.
    pub fn new() -> (p: Player)
        ensures
            p@ == (PlayerView {
                queue: Seq::<Seq<u8>>::empty(),
                signals: Seq::<bool>::empty(),
                cache: None,
                sink: SinkView {
                    ready: false,
                    sounds: Seq::<Seq<u8>>::empty(),
                    paused: false,
                },
                state: PlaybackState::Stopped,
            }),
    {
        let p = Player {
            queue: AudioQueue::new(),
            signals: SignalChannel::new(),
            cache: None,
            sink: SinkModel::new(),
            state: PlaybackState::Stopped,
        };
        proof {
            assert(p@ =~= PlayerView {
                queue: Seq::<Seq<u8>>::empty(),
                signals: Seq::<bool>::empty(),
                cache: None,
                sink: SinkView {
                    ready: false,
                    sounds: Seq::<Seq<u8>>::empty(),
                    paused: false,
                },
                state: PlaybackState::Stopped,
            });
        }
        p
    }

    /// Records that the device-backed sink was created and installed. The
    /// sink is created once at startup and reused for the life of the
    /// process; creation failure is fatal and handled by the caller before
    /// this point.
    pub fn install_sink(&mut self)
        ensures
            final(self)@ == spec_install_sink(old(self)@),
    {
        self.sink.install();
        proof {
            assert(self@ =~= spec_install_sink(old(self)@));
        }
    }

    /// Submits a freshly produced payload: caches it when the cache lock is
    /// free, enqueues it if the single queue slot is empty, and on a
    /// successful enqueue signals the monitor that playback starts.
    /// Succeeds exactly when the queue slot was empty.
    pub fn submit(&mut self, payload: Vec<u8>, cache_lock: bool) -> (r: Result<
        (),
        TransportError,
    >)
        ensures
            final(self)@ == spec_submit(old(self)@, payload@, cache_lock).0,
            r == spec_submit(old(self)@, payload@, cache_lock).1,
            r is Ok <==> old(self)@.queue.len() == 0,
    {
        if cache_lock {
            self.cache = Some(clone_payload(&payload));
        }
        match self.queue.try_enqueue(payload) {
            Ok(()) => {
                let _sent = self.signals.try_send(true);
                proof {
                    assert(self@ =~= spec_submit(old(self)@, payload@, cache_lock).0);
                }
                Ok(())
            },
            Err(_) => {
                proof {
                    assert(self@ =~= spec_submit(old(self)@, payload@, cache_lock).0);
                }
                Err(TransportError::QueueFull)
            },
        }
    }

    /// The consumer's non-blocking dequeue: takes the earliest queued
    /// payload, if any.
    pub fn consumer_poll(&mut self) -> (r: Option<Vec<u8>>)
        ensures
            final(self)@ == spec_consumer_poll(old(self)@).0,
            (match r {
                Some(p) => spec_consumer_poll(old(self)@).1 == Some(p@),
                None => spec_consumer_poll(old(self)@).1 is None,
            }),
    {
        let r = self.queue.try_dequeue();
        proof {
            assert(self@ =~= spec_consumer_poll(old(self)@).0);
        }
        r
    }

    /// Delivers one dequeued payload to the sink: under the sink lock and
    /// with a sink installed, stops and clears whatever is playing, then
    /// appends the new sound if the payload decodes. On a contended lock, a
    /// missing sink or a decode failure the payload is dropped and the
    /// outcome says why; none of these outcomes stops the consumer.
    pub fn consumer_deliver(&mut self, payload: Vec<u8>, sink_lock: bool, decode_ok: bool) -> (r:
        ConsumerOutcome)
        ensures
            final(self)@ == spec_consumer_deliver(old(self)@, payload@, sink_lock, decode_ok).0,
            r == spec_consumer_deliver(old(self)@, payload@, sink_lock, decode_ok).1,
    {
        if !sink_lock {
            ConsumerOutcome::Contended
        } else if !self.sink.ready {
            ConsumerOutcome::SinkMissing
        } else {
            self.sink.stop();
            self.sink.skip_one();
            if decode_ok {
                self.sink.append(payload);
                proof {
                    assert(self@.sink.sounds =~= seq![payload@]);
                    assert(self@ =~= spec_consumer_deliver(
                        old(self)@,
                        payload@,
                        sink_lock,
                        decode_ok,
                    ).0);
                }
                ConsumerOutcome::Played
            } else {
                proof {
                    assert(self@ =~= spec_consumer_deliver(
                        old(self)@,
                        payload@,
                        sink_lock,
                        decode_ok,
                    ).0);
                }
                ConsumerOutcome::DecodeFailed
            }
        }
    }

    /// One full consumer iteration: dequeue, then deliver.
    pub fn consumer_step(&mut self, sink_lock: bool, decode_ok: bool) -> (r: ConsumerOutcome)
        ensures
            final(self)@ == spec_consumer_step(old(self)@, sink_lock, decode_ok).0,
            r == spec_consumer_step(old(self)@, sink_lock, decode_ok).1,
    {
        match self.consumer_poll() {
            None => ConsumerOutcome::Idle,
            Some(payload) => self.consumer_deliver(payload, sink_lock, decode_ok),
        }
    }

    /// The monitor taking one buffered state signal, if any; returns
    /// whether one arrived.
    pub fn monitor_recv(&mut self) -> (r: bool)
        ensures
            final(self)@ == spec_monitor_recv(old(self)@).0,
            r == spec_monitor_recv(old(self)@).1,
    {
        match self.signals.try_recv() {
            Some(sig) => {
                self.state = if sig {
                    PlaybackState::Playing
                } else {
                    PlaybackState::Stopped
                };
                proof {
                    assert(self@ =~= spec_monitor_recv(old(self)@).0);
                }
                true
            },
            None => false,
        }
    }

    /// One poll of the monitor. The completion event fires — the return
    /// value is `true` — exactly when the sink lock is free, a sink is
    /// installed and observed empty, and the coarse state is still
    /// `Playing`; the state then falls to `Stopped`. The caller forwards a
    /// fired event to the host's event bus.
    pub fn poll_tick(&mut self, sink_lock: bool) -> (fired: bool)
        ensures
            final(self)@ == spec_poll_tick(old(self)@, sink_lock).0,
            fired == spec_poll_tick(old(self)@, sink_lock).1,
    {
        if sink_lock && self.sink.ready && self.sink.is_empty() && self.state
            == PlaybackState::Playing {
            self.state = PlaybackState::Stopped;
            proof {
                assert(self@ =~= spec_poll_tick(old(self)@, sink_lock).0);
            }
            true
        } else {
            false
        }
    }

    /// Pauses playback under the two non-blocking locks. Contention
    /// reports `Busy`, a missing sink `NoActiveAudio`; pausing an already
    /// paused sink succeeds. The monitor's coarse state is deliberately
    /// untouched, so a paused sink still counts as `Playing` and no false
    /// completion fires.
    pub fn pause(&mut self, state_lock: bool, sink_lock: bool) -> (r: Result<(), TransportError>)
        ensures
            final(self)@ == spec_pause(old(self)@, state_lock, sink_lock).0,
            r == spec_pause(old(self)@, state_lock, sink_lock).1,
            r is Ok <==> state_lock && sink_lock && old(self)@.sink.ready,
    {
        if !state_lock || !sink_lock {
            Err(TransportError::Busy)
        } else if !self.sink.ready {
            Err(TransportError::NoActiveAudio)
        } else {
            self.sink.pause();
            proof {
                assert(self@ =~= spec_pause(old(self)@, state_lock, sink_lock).0);
            }
            Ok(())
        }
    }

    /// Resumes playback; symmetric to [`Player::pause`].
    pub fn resume(&mut self, state_lock: bool, sink_lock: bool) -> (r: Result<(), TransportError>)
        ensures
            final(self)@ == spec_resume(old(self)@, state_lock, sink_lock).0,
            r == spec_resume(old(self)@, state_lock, sink_lock).1,
            r is Ok <==> state_lock && sink_lock && old(self)@.sink.ready,
    {
        if !state_lock || !sink_lock {
            Err(TransportError::Busy)
        } else if !self.sink.ready {
            Err(TransportError::NoActiveAudio)
        } else {
            self.sink.play();
            proof {
                assert(self@ =~= spec_resume(old(self)@, state_lock, sink_lock).0);
            }
            Ok(())
        }
    }

    /// Stops playback, clearing every pending sound; the sink survives for
    /// later payloads. Symmetric to [`Player::pause`] in its failures.
    pub fn stop(&mut self, state_lock: bool, sink_lock: bool) -> (r: Result<(), TransportError>)
        ensures
            final(self)@ == spec_stop(old(self)@, state_lock, sink_lock).0,
            r == spec_stop(old(self)@, state_lock, sink_lock).1,
            r is Ok <==> state_lock && sink_lock && old(self)@.sink.ready,
    {
        if !state_lock || !sink_lock {
            Err(TransportError::Busy)
        } else if !self.sink.ready {
            Err(TransportError::NoActiveAudio)
        } else {
            self.sink.stop();
            proof {
                assert(self@ =~= spec_stop(old(self)@, state_lock, sink_lock).0);
            }
            Ok(())
        }
    }

    /// Re-submits the most recently cached payload. Lock contention
    /// reports `Busy`; an empty cache succeeds as a no-op with no queue
    /// write and no signal; otherwise the cached bytes are enqueued exactly
    /// as a fresh submission would be, and a full queue reports
    /// `QueueFull` while the cache keeps its payload.
    pub fn replay(&mut self, state_lock: bool, cache_lock: bool) -> (r: Result<
        (),
        TransportError,
    >)
        ensures
            final(self)@ == spec_replay(old(self)@, state_lock, cache_lock).0,
            r == spec_replay(old(self)@, state_lock, cache_lock).1,
    {
        if !state_lock || !cache_lock {
            Err(TransportError::Busy)
        } else {
            match &self.cache {
                None => Ok(()),
                Some(p) => {
                    let payload = clone_payload(p);
                    match self.queue.try_enqueue(payload) {
                        Ok(()) => {
                            let _sent = self.signals.try_send(true);
                            proof {
                                assert(self@ =~= spec_replay(
                                    old(self)@,
                                    state_lock,
                                    cache_lock,
                                ).0);
                            }
                            Ok(())
                        },
                        Err(_) => {
                            proof {
                                assert(self@ =~= spec_replay(
                                    old(self)@,
                                    state_lock,
                                    cache_lock,
                                ).0);
                            }
                            Err(TransportError::QueueFull)
                        },
                    }
                },
            }
        }
    }

    /// Records that the device finished the earliest pending sound on its
    /// own — the one transition the device makes as audio plays out.
    pub fn drain_one(&mut self)
        ensures
            final(self)@ == spec_drain_one(old(self)@),
    {
        self.sink.drain_one();
        proof {
            assert(self@ =~= spec_drain_one(old(self)@));
        }
    }
}

} // verus!
