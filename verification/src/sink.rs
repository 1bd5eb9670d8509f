//! A model of the single shared output sink. The device holds an ordered
//! queue of decoded sounds; each sound is identified here by the encoded
//! payload it was decoded from. `ready` records whether the device-backed
//! sink has been installed yet, and `paused` mirrors the device's pause
//! flag. The code that drives the physical device keeps it in step with
//! this value: one operation here for each device operation.

use vstd::prelude::*;

verus! {

/// Spec-level value of a [`SinkModel`].
#[verifier::ext_equal]
pub struct SinkView {
    pub ready: bool,
    pub sounds: Seq<Seq<u8>>,
    pub paused: bool,
}

/// The single shared playback sink: pending sounds, earliest first, plus
/// the installed and paused flags.
pub struct SinkModel {
    /// Whether the device-backed sink has been installed.
    pub ready: bool,
    /// The payloads whose sounds are pending in the sink, earliest first.
    pub sounds: Vec<Vec<u8>>,
    /// Whether playback is currently paused.
    pub paused: bool,
}

impl View for SinkModel {
    type V = SinkView;

    open spec fn view(&self) -> SinkView {
        SinkView {
            ready: self.ready,
            sounds: self.sounds@.map_values(|p: Vec<u8>| p@),
            paused: self.paused,
        }
    }
}

impl SinkModel {
    /// The sink before the device is installed: not ready, nothing pending.
    pub fn new() -> (s: SinkModel)
        ensures
            s@ == (SinkView { ready: false, sounds: Seq::<Seq<u8>>::empty(), paused: false }),
    {
        let s = SinkModel { ready: false, sounds: Vec::new(), paused: false };
        proof {
            assert(s@.sounds =~= Seq::<Seq<u8>>::empty());
            assert(s@ =~= SinkView {
                ready: false,
                sounds: Seq::<Seq<u8>>::empty(),
                paused: false,
            });
        }
        s
    }

    /// Marks the device-backed sink as installed.
    pub fn install(&mut self)
        ensures
            final(self)@ == (SinkView { ready: true, ..old(self)@ }),
    {
        self.ready = true;
        proof {
            assert(self@ =~= SinkView { ready: true, ..old(self)@ });
        }
    }

    /// Whether the sink has no pending or playing sound.
    pub fn is_empty(&self) -> (r: bool)
        ensures
            r == (self@.sounds.len() == 0),
    {
        self.sounds.len() == 0
    }

    /// Pauses playback; pending sounds stay in place.
    pub fn pause(&mut self)
        ensures
            final(self)@ == (SinkView { paused: true, ..old(self)@ }),
    {
        self.paused = true;
        proof {
            assert(self@ =~= SinkView { paused: true, ..old(self)@ });
        }
    }

    /// Resumes paused playback.
    pub fn play(&mut self)
        ensures
            final(self)@ == (SinkView { paused: false, ..old(self)@ }),
    {
        self.paused = false;
        proof {
            assert(self@ =~= SinkView { paused: false, ..old(self)@ });
        }
    }

    /// Stops playback by removing every pending sound; the sink itself
    /// survives and keeps its pause flag.
    pub fn stop(&mut self)
        ensures
            final(self)@ == (SinkView { sounds: Seq::<Seq<u8>>::empty(), ..old(self)@ }),
    {
        self.sounds = Vec::new();
        proof {
            assert(self@.sounds =~= Seq::<Seq<u8>>::empty());
            assert(self@ =~= SinkView { sounds: Seq::<Seq<u8>>::empty(), ..old(self)@ });
        }
    }

    /// Skips the earliest pending sound, if there is one.
    pub fn skip_one(&mut self)
        ensures
            old(self)@.sounds.len() == 0 ==> final(self)@ == old(self)@,
            old(self)@.sounds.len() != 0 ==> final(self)@ == (SinkView {
                sounds: old(self)@.sounds.drop_first(),
                ..old(self)@
            }),
    {
        if self.sounds.len() > 0 {
            self.sounds.remove(0);
            proof {
                assert(self@.sounds =~= old(self)@.sounds.drop_first());
                assert(self@ =~= SinkView {
                    sounds: old(self)@.sounds.drop_first(),
                    ..old(self)@
                });
            }
        } else {
            proof {
                assert(self@ =~= old(self)@);
            }
        }
    }

    /// Appends one decoded sound after whatever is pending.
    pub fn append(&mut self, payload: Vec<u8>)
        ensures
            final(self)@ == (SinkView {
                sounds: old(self)@.sounds.push(payload@),
                ..old(self)@
            }),
    {
        self.sounds.push(payload);
        proof {
            assert(self@.sounds =~= old(self)@.sounds.push(payload@));
            assert(self@ =~= SinkView { sounds: old(self)@.sounds.push(payload@), ..old(self)@ });
        }
    }

    /// Records that the device finished the earliest pending sound. This is
    /// the one transition the device makes on its own as audio plays out.
    pub fn drain_one(&mut self)
        ensures
            old(self)@.sounds.len() == 0 ==> final(self)@ == old(self)@,
            old(self)@.sounds.len() != 0 ==> final(self)@ == (SinkView {
                sounds: old(self)@.sounds.drop_first(),
                ..old(self)@
            }),
    {
        self.skip_one();
    }
}

} // verus!
