//! The two capacity-one channels that carry work between the producer, the
//! playback consumer and the state monitor: one of encoded audio payloads,
//! one of playback-state signals. Both are tokio bounded mpsc channels; each
//! value here owns both endpoints of its channel, so the channel is never
//! closed while the value lives. The contracts below are trusted statements
//! about tokio's documented behaviour.

use vstd::prelude::*;

verus! {

#[verifier::external_type_specification]
#[verifier::external_body]
#[verifier::reject_recursive_types(T)]
pub struct ExSender<T>(tokio::sync::mpsc::Sender<T>);

#[verifier::external_type_specification]
#[verifier::external_body]
#[verifier::reject_recursive_types(T)]
pub struct ExReceiver<T>(tokio::sync::mpsc::Receiver<T>);

/// The payloads buffered in the audio queue, earliest first.
pub uninterp spec fn queue_contents(q: AudioQueue) -> Seq<Seq<u8>>;

/// The state signals buffered in the signal channel, earliest first.
/// `true` stands for `Playing`, `false` for `Stopped`.
pub uninterp spec fn signal_contents(c: SignalChannel) -> Seq<bool>;

/// The single-slot ordered channel of encoded audio payloads between the
/// producers (submission and replay) and the playback consumer.
pub struct AudioQueue {
    tx: tokio::sync::mpsc::Sender<Vec<u8>>,
    rx: tokio::sync::mpsc::Receiver<Vec<u8>>,
}

impl AudioQueue {
    /// Relies on tokio::sync::mpsc::channel: a freshly created bounded
    /// channel buffers no messages.
    #[verifier::external_body]
    pub fn new() -> (q: AudioQueue)
        ensures
            queue_contents(q) == Seq::<Seq<u8>>::empty(),
    {
        let (tx, rx) = tokio::sync::mpsc::channel(1);
        AudioQueue { tx, rx }
    }

    /// Relies on tokio::sync::mpsc::Sender::try_send on a channel of
    /// capacity one whose receiver this value owns: the send succeeds
    /// exactly when no message is buffered, and a failed send hands the
    /// message back.
    #[verifier::external_body]
    pub fn try_enqueue(&mut self, payload: Vec<u8>) -> (r: Result<(), Vec<u8>>)
        ensures
            queue_contents(*old(self)).len() == 0 ==> r is Ok
                && queue_contents(*final(self))
                    == queue_contents(*old(self)).push(payload@),
            queue_contents(*old(self)).len() != 0 ==> (r matches Err(p)
                && p == payload
                && queue_contents(*final(self)) == queue_contents(*old(self))),
    {
        match self.tx.try_send(payload) {
            Ok(()) => Ok(()),
            Err(e) => Err(e.into_inner()),
        }
    }

    /// Relies on tokio::sync::mpsc::Receiver::try_recv on a channel whose
    /// sender this value owns: it returns the earliest buffered message, or
    /// nothing when the channel is empty.
    #[verifier::external_body]
    pub fn try_dequeue(&mut self) -> (r: Option<Vec<u8>>)
        ensures
            queue_contents(*old(self)).len() == 0 ==> r is None
                && queue_contents(*final(self)) == queue_contents(*old(self)),
            queue_contents(*old(self)).len() != 0 ==> (r matches Some(p)
                && p@ == queue_contents(*old(self))[0]
                && queue_contents(*final(self))
                    == queue_contents(*old(self)).drop_first()),
    {
        self.rx.try_recv().ok()
    }
}

/// The single-slot channel of playback-state signals from the producers to
/// the state monitor. `true` stands for `Playing`, `false` for `Stopped`.
pub struct SignalChannel {
    tx: tokio::sync::mpsc::Sender<bool>,
    rx: tokio::sync::mpsc::Receiver<bool>,
}

impl SignalChannel {
    /// Relies on tokio::sync::mpsc::channel: a freshly created bounded
    /// channel buffers no messages.
    #[verifier::external_body]
    pub fn new() -> (c: SignalChannel)
        ensures
            signal_contents(c) == Seq::<bool>::empty(),
    {
        let (tx, rx) = tokio::sync::mpsc::channel(1);
        SignalChannel { tx, rx }
    }

    /// Relies on tokio::sync::mpsc::Sender::try_send on a channel of
    /// capacity one whose receiver this value owns: the send succeeds
    /// exactly when no message is buffered.
    #[verifier::external_body]
    pub(crate) fn try_send(&mut self, signal: bool) -> (r: bool)
        ensures
            signal_contents(*old(self)).len() == 0 ==> r
                && signal_contents(*final(self))
                    == signal_contents(*old(self)).push(signal),
            signal_contents(*old(self)).len() != 0 ==> !r
                && signal_contents(*final(self)) == signal_contents(*old(self)),
    {
        self.tx.try_send(signal).is_ok()
    }

    /// Relies on tokio::sync::mpsc::Receiver::try_recv on a channel whose
    /// sender this value owns: it returns the earliest buffered message, or
    /// nothing when the channel is empty.
    #[verifier::external_body]
    pub(crate) fn try_recv(&mut self) -> (r: Option<bool>)
        ensures
            signal_contents(*old(self)).len() == 0 ==> r is None
                && signal_contents(*final(self)) == signal_contents(*old(self)),
            signal_contents(*old(self)).len() != 0 ==> (r matches Some(s)
                && s == signal_contents(*old(self))[0]
                && signal_contents(*final(self))
                    == signal_contents(*old(self)).drop_first()),
    {
        self.rx.try_recv().ok()
    }
}

} // verus!
