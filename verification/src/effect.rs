//! What the worker asks of the outside, one step at a time and in order.

use crate::event::VoxEvent;
use crate::state::{SharedState, Step};
use vstd::prelude::*;

verus! {

/// One thing to be done outside the worker. Effects are to be carried out in the
/// order given.
#[derive(Debug, PartialEq)]
pub enum Effect {
    /// [`SharedState::start_seek`].
    StartSeek,
    /// [`SharedState::finish_seek`].
    FinishSeek,
    /// [`SharedState::reset_samples`].
    ResetSamples,
    /// [`SharedState::set_samples`].
    SetSamples(u64),
    /// [`SharedState::set_active`].
    SetActive(bool),
    /// [`SharedState::set_paused`].
    SetPaused(bool),
    /// [`SharedState::set_duration_micros`].
    SetDuration(u64),
    /// [`SharedState::bump_track_epoch`].
    BumpTrackEpoch,
    /// Offer the event to the caller, dropping it where the channel is full.
    Emit(VoxEvent),
    /// Scan the file at `path` for its true duration, on behalf of `epoch`.
    Scan { path: String, epoch: u64 },
    /// Drop input that waits for the resampler.
    ClearPending,
    /// Make the current resampler forget what it has seen.
    ResetResampler,
    /// Work out the gain of the current track anew.
    UpdateGain,
}

impl SharedState {
    /// The state after an effect.
    pub open spec fn after(self, effect: Effect) -> SharedState {
        match effect {
            Effect::StartSeek => SharedState {
                seek_epoch: self.seek_epoch.wrapping_add(1),
                seek_pending: true,
                ..self
            },
            Effect::FinishSeek => SharedState { seek_pending: false, ..self },
            Effect::ResetSamples => SharedState { samples_played: 0, ..self },
            Effect::SetSamples(samples) => SharedState { samples_played: samples, ..self },
            Effect::SetActive(active) => SharedState { active, ..self },
            Effect::SetPaused(paused) => SharedState { paused, ..self },
            Effect::SetDuration(micros) => SharedState { duration_micros: micros, ..self },
            Effect::BumpTrackEpoch => SharedState {
                track_epoch: self.track_epoch.wrapping_add(1),
                ..self
            },
            _ => self,
        }
    }

    /// The state after a run of effects.
    pub open spec fn after_all(self, effects: Seq<Effect>) -> SharedState
        decreases effects.len(),
    {
        if effects.len() == 0 {
            self
        } else {
            self.after_all(effects.drop_last()).after(effects.last())
        }
    }

    /// Carries out what an effect does to the state.
    pub fn apply(&mut self, effect: &Effect)
        ensures
            *final(self) == old(self).after(*effect),
    {
        match effect {
            Effect::StartSeek => self.start_seek(),
            Effect::FinishSeek => self.finish_seek(),
            Effect::ResetSamples => self.reset_samples(),
            Effect::SetSamples(samples) => self.set_samples(*samples),
            Effect::SetActive(active) => self.set_active(*active),
            Effect::SetPaused(paused) => self.set_paused(*paused),
            Effect::SetDuration(micros) => self.set_duration_micros(*micros),
            Effect::BumpTrackEpoch => {
                self.bump_track_epoch();
            },
            _ => {},
        }
    }
}

/// An effect on the state is the step of the shared state that it names; the others
/// leave the state alone.
pub proof fn effects_are_the_steps_they_name(
    state: SharedState,
    flag: bool,
    n: u64,
    event: VoxEvent,
    path: String,
)
    ensures
        state.after(Effect::StartSeek) == state.stepped(Step::StartSeek),
        state.after(Effect::FinishSeek) == state.stepped(Step::FinishSeek),
        state.after(Effect::ResetSamples) == state.stepped(Step::ResetSamples),
        state.after(Effect::SetSamples(n)) == state.stepped(Step::SetSamples(n)),
        state.after(Effect::SetActive(flag)) == state.stepped(Step::SetActive(flag)),
        state.after(Effect::SetPaused(flag)) == state.stepped(Step::SetPaused(flag)),
        state.after(Effect::SetDuration(n)) == state.stepped(Step::SetDurationMicros(n)),
        state.after(Effect::BumpTrackEpoch) == state.stepped(Step::BumpTrackEpoch),
        state.after(Effect::Emit(event)) == state,
        state.after(Effect::Scan { path, epoch: n }) == state,
        state.after(Effect::ClearPending) == state,
        state.after(Effect::ResetResampler) == state,
        state.after(Effect::UpdateGain) == state,
{
}

} // verus!
