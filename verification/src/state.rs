use crate::replaygain::UNITY;
use crate::timing::{micros_to_samples, samples_to_micros};
use vstd::prelude::*;

verus! {

/// Playback state shared by the worker, the audio callback, the supervisor,
/// the watchdog and the caller.
///
/// Each method is one step of the protocol those parties follow; the laws of
/// the seek handshake quantify over every order in which the steps can fall.
pub struct SharedState {
    /// A track is loaded.
    pub active: bool,
    /// Playback is held.
    pub paused: bool,
    /// Playback position, in interleaved output samples.
    pub samples_played: u64,
    /// A seek is in progress.
    pub seek_pending: bool,
    /// Bumped per seek; pairs with `seek_ack`.
    pub seek_epoch: u64,
    /// The callback's "stale audio drained" signal.
    pub seek_ack: u64,
    /// Playable duration of the current track, in microseconds.
    pub duration_micros: u64,
    /// Bumped per track; invalidates stale duration scans.
    pub track_epoch: u64,
    /// Callback heartbeat, read by the watchdog.
    pub callback_count: u64,
    /// The output stream is being rebuilt.
    pub rebuilding: bool,
    /// Bumped per completed rebuild, read by the watchdog.
    pub rebuild_generation: u64,
    /// The engine is being torn down.
    pub shutdown: bool,
    /// Live output sample rate.
    pub output_rate: u32,
    /// Live output channel count.
    pub output_channels: usize,
    /// The gain the listener has set, as the bit pattern of a factor.
    pub volume_gain: u32,
}

/// One change to the shared state.
#[derive(Clone, Copy, Debug, PartialEq, Eq, Structural)]
pub enum Step {
    SetActive(bool),
    SetPaused(bool),
    SetSamples(u64),
    AddSamples(u64),
    ResetSamples,
    SetDurationMicros(u64),
    BumpTrackEpoch,
    SetOutputFormat(u32, usize),
    StartSeek,
    FinishSeek,
    AckSeek(u64),
    BumpCallback,
    SetRebuilding(bool),
    BumpRebuildGeneration,
    SetShutdown,
}

impl SharedState {
    /// The state of an engine that has just come up: nothing plays, and the output
    /// is unknown.
    pub open spec fn initial() -> SharedState {
        SharedState {
            active: false,
            paused: false,
            samples_played: 0,
            seek_pending: false,
            seek_epoch: 0,
            seek_ack: 0,
            duration_micros: 0,
            track_epoch: 0,
            callback_count: 0,
            rebuilding: false,
            rebuild_generation: 0,
            shutdown: false,
            output_rate: 0,
            output_channels: 0,
            volume_gain: UNITY,
        }
    }
}

impl Default for SharedState {
    fn default() -> (state: Self)
        ensures
            state == SharedState::initial(),
    {
        SharedState {
            active: false,
            paused: false,
            samples_played: 0,
            seek_pending: false,
            seek_epoch: 0,
            seek_ack: 0,
            duration_micros: 0,
            track_epoch: 0,
            callback_count: 0,
            rebuilding: false,
            rebuild_generation: 0,
            shutdown: false,
            output_rate: 0,
            output_channels: 0,
            volume_gain: UNITY,
        }
    }
}

impl SharedState {
    /// The state after one change.
    pub open spec fn stepped(self, step: Step) -> SharedState {
        match step {
            Step::SetActive(active) => SharedState { active, ..self },
            Step::SetPaused(paused) => SharedState { paused, ..self },
            Step::SetSamples(samples) => SharedState { samples_played: samples, ..self },
            Step::AddSamples(more) => SharedState {
                samples_played: self.samples_played.wrapping_add(more),
                ..self
            },
            Step::ResetSamples => SharedState { samples_played: 0, ..self },
            Step::SetDurationMicros(micros) => SharedState { duration_micros: micros, ..self },
            Step::BumpTrackEpoch => SharedState {
                track_epoch: self.track_epoch.wrapping_add(1),
                ..self
            },
            Step::SetOutputFormat(rate, channels) => SharedState {
                output_rate: rate,
                output_channels: channels,
                ..self
            },
            Step::StartSeek => SharedState {
                seek_epoch: self.seek_epoch.wrapping_add(1),
                seek_pending: true,
                ..self
            },
            Step::FinishSeek => SharedState { seek_pending: false, ..self },
            Step::AckSeek(epoch) => SharedState { seek_ack: epoch, ..self },
            Step::BumpCallback => SharedState {
                callback_count: self.callback_count.wrapping_add(1),
                ..self
            },
            Step::SetRebuilding(rebuilding) => SharedState { rebuilding, ..self },
            Step::BumpRebuildGeneration => SharedState {
                rebuild_generation: self.rebuild_generation.wrapping_add(1),
                ..self
            },
            Step::SetShutdown => SharedState { shutdown: true, ..self },
        }
    }

    /// The state after a sequence of changes.
    pub open spec fn after_steps(self, steps: Seq<Step>) -> SharedState
        decreases steps.len(),
    {
        if steps.len() == 0 {
            self
        } else {
            self.after_steps(steps.drop_last()).stepped(steps.last())
        }
    }
}

/// Teardown is final: once it has begun, no sequence of changes takes it back.
pub proof fn shutdown_is_final(state: SharedState, steps: Seq<Step>)
    requires
        state.shutdown,
    ensures
        state.after_steps(steps).shutdown,
    decreases steps.len(),
{
    if steps.len() > 0 {
        shutdown_is_final(state, steps.drop_last());
    }
}

/// Teardown begins exactly where it is asked for, and asking for it changes
/// nothing else.
pub proof fn shutdown_comes_only_by_request(state: SharedState, steps: Seq<Step>)
    ensures
        state.stepped(Step::SetShutdown) == (SharedState { shutdown: true, ..state }),
        state.after_steps(steps).shutdown <==> state.shutdown || steps.contains(
            Step::SetShutdown,
        ),
    decreases steps.len(),
{
    if steps.len() > 0 {
        let earlier = steps.drop_last();
        shutdown_comes_only_by_request(state, earlier);
        if earlier.contains(Step::SetShutdown) {
            let i = choose|i: int| 0 <= i < earlier.len() && earlier[i] == Step::SetShutdown;
            assert(steps[i] == Step::SetShutdown);
        }
        if steps.contains(Step::SetShutdown) && steps.last() != Step::SetShutdown {
            let i = choose|i: int| 0 <= i < steps.len() && steps[i] == Step::SetShutdown;
            assert(earlier[i] == Step::SetShutdown);
        }
    }
}

impl SharedState {
    /// Whether a track is playing or paused.
    pub fn is_active(&self) -> (active: bool)
        ensures
            active == self.active,
    {
        self.active
    }

    /// Whether playback is paused.
    pub fn is_paused(&self) -> (paused: bool)
        ensures
            paused == self.paused,
    {
        self.paused
    }

    /// Number of samples played so far.
    pub fn get_samples(&self) -> (samples: u64)
        ensures
            samples == self.samples_played,
    {
        self.samples_played
    }

    /// Whether a seek is in progress.
    pub fn is_seeking(&self) -> (seeking: bool)
        ensures
            seeking == self.seek_pending,
    {
        self.seek_pending
    }

    /// The playable duration, in microseconds.
    pub fn get_duration_micros(&self) -> (micros: u64)
        ensures
            micros == self.duration_micros,
    {
        self.duration_micros
    }

    /// Live output sample rate; updated by the supervisor on rebuild.
    pub fn output_rate(&self) -> (rate: u32)
        ensures
            rate == self.output_rate,
    {
        self.output_rate
    }

    /// Live output channel count; updated by the supervisor on rebuild.
    pub fn output_channels(&self) -> (channels: usize)
        ensures
            channels == self.output_channels,
    {
        self.output_channels
    }

    /// The playback position in microseconds; zero while no output format is
    /// known.
    pub fn position(&self) -> (micros: u64)
        ensures
            micros == crate::timing::micros_of(
                self.samples_played as nat,
                self.output_rate as nat,
                self.output_channels as nat,
            ),
    {
        samples_to_micros(self.samples_played, self.output_rate, self.output_channels)
    }

    /// The playable duration in the unit of [`SharedState::get_samples`]:
    /// interleaved samples at the current output rate. Zero while no track is
    /// loaded, as stopping leaves no duration behind.
    pub fn duration_samples(&self) -> (samples: u64)
        ensures
            samples == crate::timing::samples_of(
                self.duration_micros as nat,
                self.output_rate as nat,
                self.output_channels as nat,
            ),
    {
        micros_to_samples(self.duration_micros, self.output_rate, self.output_channels)
    }

    /// The gain the listener has set.
    pub fn volume_gain(&self) -> (gain: u32)
        ensures
            gain == self.volume_gain,
    {
        self.volume_gain
    }

    /// Records whether something is loaded.
    pub fn set_active(&mut self, val: bool)
        ensures
            *final(self) == old(self).stepped(Step::SetActive(val)),
    {
        self.active = val;
    }

    /// Records whether playback is held.
    pub fn set_paused(&mut self, val: bool)
        ensures
            *final(self) == old(self).stepped(Step::SetPaused(val)),
    {
        self.paused = val;
    }

    /// Moves the position to `samples`.
    pub fn set_samples(&mut self, samples: u64)
        ensures
            *final(self) == old(self).stepped(Step::SetSamples(samples)),
    {
        self.samples_played = samples;
    }

    /// Advances the position by `val` samples.
    pub fn add_samples(&mut self, val: u64)
        ensures
            *final(self) == old(self).stepped(Step::AddSamples(val)),
    {
        self.samples_played = self.samples_played.wrapping_add(val);
    }

    /// Moves the position back to the start.
    pub fn reset_samples(&mut self)
        ensures
            *final(self) == old(self).stepped(Step::ResetSamples),
    {
        self.samples_played = 0;
    }

    /// Records the playable duration, in microseconds.
    pub fn set_duration_micros(&mut self, micros: u64)
        ensures
            *final(self) == old(self).stepped(Step::SetDurationMicros(micros)),
    {
        self.duration_micros = micros;
    }

    /// Marks a new track as current, returning its epoch. A duration scan
    /// applies its result only while the epoch still matches, so a track change
    /// or stop discards an in-flight scan.
    pub fn bump_track_epoch(&mut self) -> (epoch: u64)
        ensures
            epoch == old(self).track_epoch.wrapping_add(1),
            *final(self) == old(self).stepped(Step::BumpTrackEpoch),
    {
        self.track_epoch = self.track_epoch.wrapping_add(1);
        self.track_epoch
    }

    /// Current track epoch.
    pub fn track_epoch(&self) -> (epoch: u64)
        ensures
            epoch == self.track_epoch,
    {
        self.track_epoch
    }

    /// Records the live output format; called by the supervisor on (re)build.
    pub fn set_output_format(&mut self, rate: u32, channels: usize)
        ensures
            *final(self) == old(self).stepped(Step::SetOutputFormat(rate, channels)),
    {
        self.output_rate = rate;
        self.output_channels = channels;
    }

    /// Signals that a seek has started: a fresh epoch, then the pending flag.
    pub fn start_seek(&mut self)
        ensures
            *final(self) == old(self).stepped(Step::StartSeek),
    {
        self.seek_epoch = self.seek_epoch.wrapping_add(1);
        self.seek_pending = true;
    }

    /// Signals that a seek has completed.
    pub fn finish_seek(&mut self)
        ensures
            *final(self) == old(self).stepped(Step::FinishSeek),
    {
        self.seek_pending = false;
    }

    /// Current seek epoch; bumped on every [`SharedState::start_seek`].
    pub fn seek_epoch(&self) -> (epoch: u64)
        ensures
            epoch == self.seek_epoch,
    {
        self.seek_epoch
    }

    /// The audio callback's acknowledgement that it drained the ring for
    /// `epoch`.
    pub fn ack_seek(&mut self, epoch: u64)
        ensures
            *final(self) == old(self).stepped(Step::AckSeek(epoch)),
    {
        self.seek_ack = epoch;
    }

    /// Whether the audio callback drained the ring for the current epoch.
    pub fn seek_acked(&self) -> (acked: bool)
        ensures
            acked == (self.seek_ack == self.seek_epoch),
    {
        self.seek_ack == self.seek_epoch
    }

    /// One audio callback has run.
    pub fn bump_callback(&mut self)
        ensures
            *final(self) == old(self).stepped(Step::BumpCallback),
    {
        self.callback_count = self.callback_count.wrapping_add(1);
    }

    /// Audio callbacks so far.
    pub fn callback_count(&self) -> (count: u64)
        ensures
            count == self.callback_count,
    {
        self.callback_count
    }

    /// Gates the decoder and audio callback while the stream is rebuilt.
    pub fn set_rebuilding(&mut self, val: bool)
        ensures
            *final(self) == old(self).stepped(Step::SetRebuilding(val)),
    {
        self.rebuilding = val;
    }

    /// Whether the stream is being rebuilt.
    pub fn is_rebuilding(&self) -> (rebuilding: bool)
        ensures
            rebuilding == self.rebuilding,
    {
        self.rebuilding
    }

    /// One rebuild has completed.
    pub fn bump_rebuild_generation(&mut self)
        ensures
            *final(self) == old(self).stepped(Step::BumpRebuildGeneration),
    {
        self.rebuild_generation = self.rebuild_generation.wrapping_add(1);
    }

    /// Rebuilds completed so far.
    pub fn rebuild_generation(&self) -> (generation: u64)
        ensures
            generation == self.rebuild_generation,
    {
        self.rebuild_generation
    }

    /// Begins teardown; unblocks busy loops so threads can join.
    pub fn set_shutdown(&mut self)
        ensures
            *final(self) == old(self).stepped(Step::SetShutdown),
    {
        self.shutdown = true;
    }

    /// Whether the engine is being torn down.
    pub fn is_shutdown(&self) -> (shutdown: bool)
        ensures
            shutdown == self.shutdown,
    {
        self.shutdown
    }
}

/// What was set is what is read from then on, until it is set again; and setting
/// one thing leaves the rest alone.
pub proof fn what_is_set_is_kept(
    state: SharedState,
    flag: bool,
    n: u64,
    rate: u32,
    channels: usize,
)
    ensures
        state.stepped(Step::SetActive(flag)) == (SharedState { active: flag, ..state }),
        state.stepped(Step::SetPaused(flag)) == (SharedState { paused: flag, ..state }),
        state.stepped(Step::SetRebuilding(flag)) == (SharedState { rebuilding: flag, ..state }),
        state.stepped(Step::SetSamples(n)) == (SharedState { samples_played: n, ..state }),
        state.stepped(Step::SetDurationMicros(n)) == (SharedState { duration_micros: n, ..state }),
        state.stepped(Step::AckSeek(n)) == (SharedState { seek_ack: n, ..state }),
        state.stepped(Step::SetOutputFormat(rate, channels)) == (SharedState {
            output_rate: rate,
            output_channels: channels,
            ..state
        }),
{
}

/// Counters move by one, and only when they are told to; the position moves by as
/// much as was played. Starting a seek and finishing it leaves a new epoch behind,
/// and nothing else.
pub proof fn counters_move_by_one(state: SharedState, n: u64)
    requires
        state.seek_epoch < u64::MAX,
        state.track_epoch < u64::MAX,
        state.callback_count < u64::MAX,
        state.rebuild_generation < u64::MAX,
        state.samples_played + n <= u64::MAX,
    ensures
        state.stepped(Step::StartSeek).seek_pending,
        state.stepped(Step::StartSeek).stepped(Step::FinishSeek) == (SharedState {
            seek_epoch: (state.seek_epoch + 1) as u64,
            seek_pending: false,
            ..state
        }),
        state.stepped(Step::BumpTrackEpoch) == (SharedState {
            track_epoch: (state.track_epoch + 1) as u64,
            ..state
        }),
        state.stepped(Step::BumpCallback) == (SharedState {
            callback_count: (state.callback_count + 1) as u64,
            ..state
        }),
        state.stepped(Step::BumpRebuildGeneration) == (SharedState {
            rebuild_generation: (state.rebuild_generation + 1) as u64,
            ..state
        }),
        state.stepped(Step::AddSamples(n)) == (SharedState {
            samples_played: (state.samples_played + n) as u64,
            ..state
        }),
        state.stepped(Step::ResetSamples).stepped(Step::AddSamples(n)).samples_played == n,
{
}

/// An engine that has just come up plays nothing, at full volume, from nowhere, with
/// no seek open and no output known.
pub proof fn engine_starts_idle()
    ensures
        ({
            let state = SharedState::initial();
            &&& !state.active
            &&& !state.paused
            &&& !state.seek_pending
            &&& !state.rebuilding
            &&& !state.shutdown
            &&& state.samples_played == 0
            &&& state.duration_micros == 0
            &&& state.seek_ack == state.seek_epoch
            &&& state.output_rate == 0
            &&& state.output_channels == 0
            &&& state.volume_gain == 0x3f80_0000
        }),
{
}

} // verus!
