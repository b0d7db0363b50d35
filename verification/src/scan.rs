//! Resolution of inaccurate track durations.
//!
//! A reported duration can exceed the audio that actually decodes (a headerless
//! file with unreconstructable frames, or a truncated or mis-tagged one). The
//! position counts only decoded audio, so a progress bar would never fill. Two
//! paths fix it, both via [`publish_correction`]:
//! - proactive: a file whose duration is an estimate is scanned off the audio
//!   path at its start to count its renderable frames;
//! - reactive: on a seek-free playthrough, the frames decoded during playback are
//!   reconciled against the reported duration at the end of the track.

use crate::decoder::frames_of;
use crate::effect::Effect;
use crate::event::VoxEvent;
use crate::state::SharedState;
use crate::timing::{at_least_one, clip, frames_micros, frames_to_micros};
use vstd::prelude::*;

verus! {

/// The epoch and the shutdown flag are looked at again after this many packets,
/// so that a track change or shutdown aborts the scan promptly.
pub const EPOCH_CHECK_INTERVAL: u64 = 512;

/// Smallest difference from the reported duration worth publishing, in
/// microseconds; below it a scan just confirms the estimate.
pub const MIN_CHANGE_MICROS: u64 = 500_000;

/// Whether a counted duration differs enough from the reported one to matter.
pub open spec fn corrects(reported: u64, counted: u64) -> bool {
    counted - reported >= MIN_CHANGE_MICROS || reported - counted >= MIN_CHANGE_MICROS
}

/// The effects of having counted a duration.
pub open spec fn correction(state: SharedState, path: String, micros: u64) -> Seq<Effect> {
    if corrects(state.duration_micros, micros) {
        seq![
            Effect::SetDuration(micros),
            Effect::Emit(VoxEvent::DurationResolved { path, duration: micros }),
        ]
    } else {
        Seq::empty()
    }
}

/// Stores a counted duration and announces it, but only when it differs enough
/// from the reported one to matter.
pub fn publish_correction(state: &SharedState, path: String, micros: u64) -> (effects: Vec<Effect>)
    ensures
        effects@ == correction(*state, path, micros),
{
    let reported: u64 = state.get_duration_micros();
    let difference: u64 = if micros > reported {
        micros - reported
    } else {
        reported - micros
    };
    let mut effects: Vec<Effect> = Vec::new();
    if difference >= MIN_CHANGE_MICROS {
        effects.push(Effect::SetDuration(micros));
        effects.push(Effect::Emit(VoxEvent::DurationResolved { path, duration: micros }));
    }
    assert(effects@ =~= correction(*state, path, micros));
    effects
}

/// Whether a scan made for `epoch` still concerns the current track.
pub open spec fn concerns(state: SharedState, epoch: u64) -> bool {
    !state.shutdown && state.track_epoch == epoch
}

/// A scan under way: decode the whole file and count good frames.
#[derive(Clone, Copy, Debug, PartialEq, Eq, Structural)]
pub struct DurationScan {
    /// The track epoch the scan was started for.
    pub epoch: u64,
    /// Frames counted so far.
    pub frames: u64,
    /// Packets since the last look at the state.
    pub since_check: u64,
}

impl DurationScan {
    /// A scan on behalf of `epoch`.
    pub fn new(epoch: u64) -> (scan: Self)
        ensures
            scan == (DurationScan { epoch, frames: 0, since_check: 0 }),
    {
        DurationScan { epoch, frames: 0, since_check: 0 }
    }

    /// Whether to go on to the next packet. Every [`EPOCH_CHECK_INTERVAL`]
    /// packets the scan asks whether it still concerns the current track.
    pub fn keep_going(&mut self, state: &SharedState) -> (go_on: bool)
        ensures
            go_on == (old(self).since_check < EPOCH_CHECK_INTERVAL || concerns(
                *state,
                old(self).epoch,
            )),
            *final(self) == (if go_on && old(self).since_check >= EPOCH_CHECK_INTERVAL {
                DurationScan { since_check: 0, ..*old(self) }
            } else {
                *old(self)
            }),
    {
        if self.since_check >= EPOCH_CHECK_INTERVAL {
            if state.is_shutdown() || state.track_epoch() != self.epoch {
                return false;
            }
            self.since_check = 0;
        }
        true
    }

    /// Counts a decoded packet. Asked before each packet whether to go on, a
    /// scan never counts past the interval.
    pub fn count(&mut self, samples: usize, channels: usize)
        requires
            old(self).since_check < EPOCH_CHECK_INTERVAL,
        ensures
            *final(self) == (DurationScan {
                frames: clip(
                    old(self).frames as nat + samples as nat / at_least_one(channels as nat),
                ),
                since_check: (old(self).since_check + 1) as u64,
                ..*old(self)
            }),
    {
        let more: u64 = frames_of(samples, channels);
        self.frames = match self.frames.checked_add(more) {
            Some(frames) => frames,
            None => u64::MAX,
        };
        self.since_check = self.since_check + 1;
    }

    /// The renderable duration in microseconds. `None` keeps the estimate: not a
    /// single frame decoded.
    pub fn resolve_duration(&self, sample_rate: u32) -> (micros: Option<u64>)
        ensures
            micros == if self.frames > 0 {
                Some(frames_micros(self.frames as nat, sample_rate as nat))
            } else {
                None
            },
    {
        if self.frames > 0 {
            Some(frames_to_micros(self.frames, sample_rate))
        } else {
            None
        }
    }

    /// What to do once the file has been read to its end. A scan that no longer
    /// concerns the current track is discarded.
    pub fn run(&self, state: &SharedState, path: String, sample_rate: u32) -> (effects: Vec<Effect>)
        ensures
            effects@ == if self.frames > 0 && concerns(*state, self.epoch) {
                correction(
                    *state,
                    path,
                    frames_micros(self.frames as nat, sample_rate as nat),
                )
            } else {
                Seq::empty()
            },
    {
        match self.resolve_duration(sample_rate) {
            Some(micros) => if state.is_shutdown() || state.track_epoch() != self.epoch {
                Vec::new()
            } else {
                publish_correction(state, path, micros)
            },
            None => Vec::new(),
        }
    }
}

/// A scan that has been overtaken changes nothing: once a track change or a stop
/// has moved the epoch on, the result of a scan for the old epoch has no
/// effects, until the counter comes round.
pub proof fn overtaken_scan_has_no_effect(
    scan: DurationScan,
    state: SharedState,
    later: SharedState,
)
    requires
        concerns(state, scan.epoch),
        later == state.after(Effect::BumpTrackEpoch),
    ensures
        !concerns(later, scan.epoch),
{
}

/// A counted length replaces the reported one, and is announced under the path of
/// its track, exactly where the two are half a second or more apart.
pub proof fn length_is_corrected_from_half_a_second_on(
    state: SharedState,
    path: String,
    micros: u64,
)
    ensures
        ({
            let effects = correction(state, path, micros);
            let far = micros >= state.duration_micros + 500_000 || state.duration_micros >= micros
                + 500_000;
            &&& !far ==> effects.len() == 0
            &&& far ==> effects == seq![
                Effect::SetDuration(micros),
                Effect::Emit(VoxEvent::DurationResolved { path, duration: micros }),
            ]
            &&& far ==> state.after_all(effects).duration_micros == micros
        }),
{
    let effects = correction(state, path, micros);
    reveal_with_fuel(SharedState::after_all, 3);
    if effects.len() > 0 {
        assert(effects.drop_last() =~= seq![Effect::SetDuration(micros)]);
        assert(effects.drop_last().drop_last() =~= Seq::<Effect>::empty());
    }
}

/// A length that was corrected is not corrected again by the same count.
pub proof fn correction_is_made_once(state: SharedState, path: String, micros: u64)
    ensures
        correction(
            SharedState { duration_micros: micros, ..state },
            path,
            micros,
        ).len() == 0,
{
}

/// A scan concerns the track whose epoch it was started for, and none once the
/// engine is being torn down.
pub proof fn scan_concerns_its_own_track_only(state: SharedState, epoch: u64)
    ensures
        state.shutdown ==> !concerns(state, epoch),
        state.track_epoch != epoch ==> !concerns(state, epoch),
        !state.shutdown ==> concerns(state, state.track_epoch),
{
}

} // verus!
