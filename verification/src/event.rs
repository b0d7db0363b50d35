use crate::channel::{heard, next_event, Received};
use crate::error::VoxError;
use crate::state::SharedState;
use crossbeam_channel::Receiver;
use vstd::prelude::*;

verus! {

/// Events emitted by the engine during playback lifecycle.
#[derive(Clone, Debug, PartialEq)]
#[non_exhaustive]
pub enum VoxEvent {
    /// A track began playing. `duration` is in microseconds.
    TrackStarted {
        path: String,
        duration: u64,
        sample_rate: u32,
        channels: usize,
        reason: StartReason,
    },
    /// Always emitted *before* the engine turns inactive.
    TrackEnded { path: String, reason: EndReason },
    /// Engine idle. Nothing playing, nothing queued.
    Stopped,
    /// Priming a next track was successful. `duration` is in microseconds.
    NextReady { path: String, duration: u64, sample_rate: u32, channels: usize },
    /// A more accurate duration, in microseconds, replaced the initial estimate
    /// (a headerless file resolved by a background scan, or a track that decoded
    /// short of its reported length).
    DurationResolved { path: String, duration: u64 },
    /// An error occurred. `recoverable` is `true` if playback continues.
    Error { error: VoxError, recoverable: bool },
    /// The output stream was rebuilt against a (possibly new) device.
    DeviceChanged { name: String, sample_rate: u32, channels: usize, reason: RebindReason },
    /// A rebuild failed; the engine keeps retrying.
    DeviceLost { name: String, error: String },
    /// Playback was paused or resumed.
    StateChanged { paused: bool },
}

/// Why the output stream was rebuilt.
///
/// Where switching the default output device invalidates the active stream, the
/// stream's error arrives before the change of default is observed. Such a
/// switch is therefore usually reported as [`HardLoss`](Self::HardLoss) rather
/// than [`DefaultChanged`](Self::DefaultChanged). The rebuild itself is correct
/// regardless of which reason is reported.
#[derive(Clone, Copy, Debug, PartialEq, Eq, Structural)]
pub enum RebindReason {
    /// The stream reported an error (e.g. device unplugged).
    HardLoss,
    /// The OS default output device changed.
    DefaultChanged,
    /// The stream silently stopped invoking its callback.
    StreamZombie,
}

/// Why a track started playing.
#[derive(Clone, Copy, Debug, PartialEq, Eq, Structural)]
pub enum StartReason {
    /// Started by a play request.
    Play,
    /// Started by a gapless handoff from the previous track.
    Gapless,
}

/// Why a track ended.
#[derive(Clone, Copy, Debug, PartialEq, Eq, Structural)]
pub enum EndReason {
    /// Played through to the end.
    EndOfStream,
    /// Cut short by a stop or a new track.
    Interrupted,
    /// Ended because of an error.
    Failed,
}

/// What waiting for an event for a while gave.
#[derive(Debug, PartialEq)]
pub enum Waited {
    Event(VoxEvent),
    TimedOut,
    /// The engine is gone.
    Disconnected,
}

/// Receiving half of the engine's event stream. Wraps the channel so callers
/// never need to know of it.
pub struct VoxEvents {
    pub rx: Receiver<VoxEvent>,
}

impl VoxEvents {
    /// The events that come through `rx`.
    pub fn new(rx: Receiver<VoxEvent>) -> (events: Self)
        ensures
            events.rx == rx,
    {
        VoxEvents { rx }
    }

    /// Returns the next pending event without blocking, or `None`. What is
    /// returned is what was taken out of the channel, and nothing else is taken
    /// out; whether an event waits rests with the threads that send.
    /// [`Received::ok`] says what is returned for what the channel gives.
    pub fn try_recv(&mut self) -> (event: Option<VoxEvent>)
        ensures
            heard(final(self).rx) == match event {
                Some(came) => heard(old(self).rx).push(came),
                None => heard(old(self).rx),
            },
    {
        next_event(&mut self.rx).ok()
    }

    /// What a blocking receive that gives up returns after its last look at the
    /// channel: the event that was left, if there was one.
    pub fn last_look(received: Received<VoxEvent>) -> (done: Option<Option<VoxEvent>>)
        ensures
            done == Some(received.message()),
    {
        Some(received.ok())
    }

    /// One turn of a blocking receive that gives up once playback is over: what
    /// to return after a wait, or `None` to wait once more. Where the wait came
    /// to nothing and the engine is inactive or gone, one last look tells
    /// whether an event is left, and [`VoxEvents::last_look`] what becomes of it.
    pub fn recv_active(&mut self, waited: Waited, state: &SharedState) -> (done: Option<
        Option<VoxEvent>,
    >)
        ensures
            match waited {
                Waited::Event(event) => done == Some(Some(event)),
                Waited::TimedOut => done is None <==> state.active,
                Waited::Disconnected => done is Some,
            },
            heard(final(self).rx) == match (waited, done) {
                (Waited::Event(_), _) => heard(old(self).rx),
                (_, Some(Some(left))) => heard(old(self).rx).push(left),
                _ => heard(old(self).rx),
            },
    {
        match waited {
            Waited::Event(event) => Some(Some(event)),
            Waited::TimedOut => if state.is_active() {
                None
            } else {
                Self::last_look(next_event(&mut self.rx))
            },
            Waited::Disconnected => Self::last_look(next_event(&mut self.rx)),
        }
    }

    /// The raw event receiver, to wait for several channels at once. Callers that
    /// use it should not mix it with the other methods: the receiver is shared
    /// and races are possible.
    pub fn receiver(&self) -> (rx: &Receiver<VoxEvent>)
        ensures
            rx == self.rx,
    {
        &self.rx
    }
}

} // verus!
