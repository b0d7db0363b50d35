//! What becomes of each command, and what is said of it: laws over the paths,
//! lengths and formats that go into the announcements, and over the order of the
//! effects.

use crate::command::{Batch, Prefill, SeekPosition, VoxCommand};
use crate::decoder::VoxDecoder;
use crate::effect::Effect;
use crate::error::VoxError;
use crate::event::{EndReason, StartReason, VoxEvent};
use crate::invariants::{grown, lemma_proceed};
use crate::laws::{at_rest, lemma_flush_done, lemma_handover};
use crate::lifecycle::WorkerView;
use crate::replaygain::ReplayGainMode;
use crate::resampler::VoxResampler;
use crate::stage::{Deck, Drained, Due, Fill, Filled, Flushed, Goal, Loaded};
use crate::stage::{Opened, Purpose, QueuedSource, Reply, Stage};
use crate::state::SharedState;
use crate::timing::{frames_last_at_their_rate, lasts, position_is_whole_micros};
use crate::tracks::{after_end, handed, lemma_over};
use vstd::prelude::*;

verus! {

/// A file lasts `micros` whole microseconds: as long as its frames take at its own
/// rate. A file of unknown length counts as lasting none.
pub open spec fn plays_for(decoder: VoxDecoder, micros: u64) -> bool {
    match decoder.info.n_frames {
        Some(frames) => decoder.info.sample_rate > 0 && lasts(
            frames as nat,
            decoder.info.sample_rate as nat,
            micros as nat,
        ),
        None => micros == 0,
    }
}

/// The duration the engine works with is the one that the frames take.
pub proof fn duration_is_that_of_the_frames(decoder: VoxDecoder, micros: u64)
    requires
        plays_for(decoder, micros),
    ensures
        crate::lifecycle::announced_duration(decoder) == micros,
        decoder.info.n_frames is Some ==> decoder.playable() == Some(micros),
        decoder.info.n_frames is None ==> decoder.playable() is None,
{
    if let Some(frames) = decoder.info.n_frames {
        frames_last_at_their_rate(
            frames as nat,
            decoder.info.sample_rate as nat,
            micros as nat,
        );
    }
}

/// A file that was opened to be played becomes the current track with its own
/// channels, duration and resampler, of a playing engine. Its gain is worked out,
/// a guessed length is scanned for on behalf of the new track, and the listener
/// is told no more than that playback is no longer held.
pub proof fn opened_track_is_set_up<D, R>(
    w: WorkerView<D, R>,
    track: Loaded<D>,
    resampler: Option<VoxResampler<R>>,
    micros: u64,
)
    requires
        plays_for(track.decoder, micros),
    ensures
        ({
            let opened = Ok::<Opened<D, R>, VoxError>(Opened { track, resampler: Ok(resampler) });
            let after = w.play_opened(Prefill::Now, opened);
            let epoch = w.state.track_epoch.wrapping_add(1);
            &&& after.deck.current == Some(track)
            &&& after.deck.resampler == resampler
            &&& after.deck.input_channels == track.decoder.info.channels
            &&& !after.deck.seeked
            &&& after.deck.stage == Stage::Drain(Drained::Fill(Filled::TrackStart))
            &&& after.state == (SharedState {
                duration_micros: micros,
                track_epoch: epoch,
                active: true,
                paused: false,
                ..w.state
            })
            &&& after.outbox == w.outbox + seq![
                Effect::SetDuration(micros),
                Effect::BumpTrackEpoch,
            ] + (if track.decoder.duration_estimated {
                seq![Effect::Scan { path: track.decoder.path, epoch }]
            } else {
                Seq::empty()
            }) + seq![Effect::UpdateGain, Effect::SetActive(true)] + (if w.state.paused {
                seq![
                    Effect::SetPaused(false),
                    Effect::Emit(VoxEvent::StateChanged { paused: false }),
                ]
            } else {
                Seq::empty()
            })
        }),
{
    duration_is_that_of_the_frames(track.decoder, micros);
    reveal(WorkerView::play_opened);
    reveal(WorkerView::begin_track);
    reveal(WorkerView::set_paused);
    let opened = Ok::<Opened<D, R>, VoxError>(Opened { track, resampler: Ok(resampler) });
    let after = w.play_opened(Prefill::Now, opened);
    let epoch = w.state.track_epoch.wrapping_add(1);
    assert(after.outbox =~= w.outbox + seq![Effect::SetDuration(micros), Effect::BumpTrackEpoch]
        + (if track.decoder.duration_estimated {
        seq![Effect::Scan { path: track.decoder.path, epoch }]
    } else {
        Seq::empty()
    }) + seq![Effect::UpdateGain, Effect::SetActive(true)] + (if w.state.paused {
        seq![Effect::SetPaused(false), Effect::Emit(VoxEvent::StateChanged { paused: false })]
    } else {
        Seq::empty()
    }));
}

/// A track that is opened with a seek waiting for it is not filled from its start:
/// it is set up all the same, and announced at once.
pub proof fn track_with_a_seek_waiting_is_not_filled<D, R>(
    w: WorkerView<D, R>,
    track: Loaded<D>,
    resampler: Option<VoxResampler<R>>,
)
    requires
        w.deck.stage == Stage::Halted,
    ensures
        ({
            let opened = Ok::<Opened<D, R>, VoxError>(Opened { track, resampler: Ok(resampler) });
            let filling = w.play_opened(Prefill::Now, opened);
            w.play_opened(Prefill::Defer, opened) == filling.at(Stage::Halted).filled(
                Filled::TrackStart,
            )
        }),
{
    reveal(WorkerView::play_opened);
    reveal(WorkerView::begin_track);
    reveal(WorkerView::set_paused);
    let opened = Ok::<Opened<D, R>, VoxError>(Opened { track, resampler: Ok(resampler) });
    let begun = w.perform(
        Effect::SetDuration(crate::lifecycle::announced_duration(track.decoder)),
    ).begin_track(track.decoder);
    let playing = begun.with(
        Deck {
            input_channels: track.decoder.info.channels,
            resampler,
            current: Some(track),
            ..begun.deck
        },
    ).perform(Effect::UpdateGain).perform(Effect::SetActive(true)).set_paused(false);
    assert(w.play_opened(Prefill::Now, opened).at(Stage::Halted) =~= playing);
}

/// The start of a track is announced with its own path, length and format, as
/// started by a play, and right before the output is unmuted.
pub proof fn start_is_announced_as_it_is<D, R>(
    w: WorkerView<D, R>,
    track: Loaded<D>,
    micros: u64,
)
    requires
        w.deck.stage == Stage::Halted,
        w.deck.batch == Batch::none(),
        w.deck.current == Some(track),
        w.state.active,
        plays_for(track.decoder, micros),
    ensures
        ({
            let after = w.filled(Filled::TrackStart);
            let n = w.outbox.len() as int;
            &&& after.outbox.len() >= n + 2
            &&& after.outbox[n] == Effect::Emit(
                VoxEvent::TrackStarted {
                    path: track.decoder.path,
                    duration: micros,
                    sample_rate: track.decoder.info.sample_rate,
                    channels: track.decoder.info.channels,
                    reason: StartReason::Play,
                },
            )
            &&& after.outbox[n + 1] == Effect::FinishSeek
        }),
{
    duration_is_that_of_the_frames(track.decoder, micros);
    reveal(WorkerView::filled);
    let said = w.emit(
        VoxEvent::TrackStarted {
            path: track.decoder.path,
            duration: micros,
            sample_rate: track.decoder.info.sample_rate,
            channels: track.decoder.info.channels,
            reason: StartReason::Play,
        },
    ).perform(Effect::FinishSeek);
    lemma_proceed(said, 0, vstd::pervasive::arbitrary());
    reveal(grown);
    assert(said.outbox[w.outbox.len() as int] == w.filled(
        Filled::TrackStart,
    ).outbox[w.outbox.len() as int]);
    assert(said.outbox[w.outbox.len() as int + 1] == Effect::FinishSeek);
}

/// A handover announces the end of the old track, and then, as the last thing, the
/// start of the new one without a gap, with its own path, length and format. The
/// new length is the engine's from then on, the gain is worked out anew, and input
/// that waits for a resampler that is given up is dropped.
#[verifier::rlimit(60)]
pub proof fn handover_is_announced_as_it_is<D, R>(
    w: WorkerView<D, R>,
    track: Loaded<D>,
    queued: QueuedSource<D, R>,
    micros: u64,
)
    requires
        at_rest(w),
        w.deck.current == Some(track),
        w.deck.next == Some(queued),
        plays_for(queued.track.decoder, micros),
    ensures
        ({
            let after = after_end(w);
            let decoder = queued.track.decoder;
            let epoch = w.state.track_epoch.wrapping_add(1);
            let kept = match (w.deck.resampler, queued.resampler) {
                (Some(a), Some(b)) => a.input_rate == b.input_rate,
                (None, None) => true,
                _ => false,
            };
            &&& after.outbox == w.reconcile_duration().outbox + seq![
                Effect::ResetSamples,
                Effect::Emit(
                    VoxEvent::TrackEnded {
                        path: track.decoder.path,
                        reason: EndReason::EndOfStream,
                    },
                ),
            ] + (if kept {
                Seq::empty()
            } else {
                seq![Effect::ClearPending]
            }) + seq![Effect::SetDuration(micros), Effect::BumpTrackEpoch] + (
            if decoder.duration_estimated {
                seq![Effect::Scan { path: decoder.path, epoch }]
            } else {
                Seq::empty()
            }) + seq![
                Effect::UpdateGain,
                Effect::Emit(
                    VoxEvent::TrackStarted {
                        path: decoder.path,
                        duration: micros,
                        sample_rate: decoder.info.sample_rate,
                        channels: decoder.info.channels,
                        reason: StartReason::Gapless,
                    },
                ),
            ]
            &&& after.state.duration_micros == micros
            &&& after.state.track_epoch == epoch
            &&& !after.deck.seeked
        }),
{
    duration_is_that_of_the_frames(queued.track.decoder, micros);
    lemma_over(w, track);
    let handing = handed(w);
    lemma_flush_done(handing, Flushed::Handoff);
    assert(handing.outbox =~= w.reconcile_duration().outbox + seq![
        Effect::ResetSamples,
        Effect::Emit(
            VoxEvent::TrackEnded { path: track.decoder.path, reason: EndReason::EndOfStream },
        ),
    ] && handing.state.track_epoch == w.state.track_epoch) by {
        reveal(WorkerView::reconcile_duration);
        reveal(WorkerView::announce_end);
    }
    lemma_handover(handing, queued);
    lemma_takeover_effects(handing, queued, micros);
    let decoder = queued.track.decoder;
    let epoch = w.state.track_epoch.wrapping_add(1);
    let kept = match (w.deck.resampler, queued.resampler) {
        (Some(a), Some(b)) => a.input_rate == b.input_rate,
        (None, None) => true,
        _ => false,
    };
    assert(after_end(w) == handing.transition());
    assert(after_end(w).outbox =~= w.reconcile_duration().outbox + seq![
        Effect::ResetSamples,
        Effect::Emit(
            VoxEvent::TrackEnded { path: track.decoder.path, reason: EndReason::EndOfStream },
        ),
    ] + (if kept {
        Seq::empty()
    } else {
        seq![Effect::ClearPending]
    }) + seq![Effect::SetDuration(micros), Effect::BumpTrackEpoch] + (
    if decoder.duration_estimated {
        seq![Effect::Scan { path: decoder.path, epoch }]
    } else {
        Seq::empty()
    }) + seq![
        Effect::UpdateGain,
        Effect::Emit(
            VoxEvent::TrackStarted {
                path: decoder.path,
                duration: micros,
                sample_rate: decoder.info.sample_rate,
                channels: decoder.info.channels,
                reason: StartReason::Gapless,
            },
        ),
    ]);
}

/// What the takeover of the primed track adds to the effects.
#[verifier::rlimit(60)]
proof fn lemma_takeover_effects<D, R>(
    w: WorkerView<D, R>,
    queued: QueuedSource<D, R>,
    micros: u64,
)
    requires
        at_rest(w),
        w.deck.next == Some(queued),
        crate::lifecycle::announced_duration(queued.track.decoder) == micros,
    ensures
        ({
            let after = w.transition();
            let decoder = queued.track.decoder;
            let epoch = w.state.track_epoch.wrapping_add(1);
            let kept = match (w.deck.resampler, queued.resampler) {
                (Some(a), Some(b)) => a.input_rate == b.input_rate,
                (None, None) => true,
                _ => false,
            };
            &&& after.outbox == w.outbox + (if kept {
                Seq::empty()
            } else {
                seq![Effect::ClearPending]
            }) + seq![Effect::SetDuration(micros), Effect::BumpTrackEpoch] + (
            if decoder.duration_estimated {
                seq![Effect::Scan { path: decoder.path, epoch }]
            } else {
                Seq::empty()
            }) + seq![
                Effect::UpdateGain,
                Effect::Emit(
                    VoxEvent::TrackStarted {
                        path: decoder.path,
                        duration: micros,
                        sample_rate: decoder.info.sample_rate,
                        channels: decoder.info.channels,
                        reason: StartReason::Gapless,
                    },
                ),
            ]
            &&& after.state.duration_micros == micros
            &&& after.state.track_epoch == epoch
            &&& !after.deck.seeked
        }),
{
    reveal(WorkerView::transition);
    reveal(WorkerView::begin_track);
    reveal(WorkerView::proceed);
    reveal(WorkerView::proceed_to_seek);
    reveal(WorkerView::proceed_to_next);
    reveal(WorkerView::conclude);
    reveal(WorkerView::round);
    let after = w.transition();
    let decoder = queued.track.decoder;
    let epoch = w.state.track_epoch.wrapping_add(1);
    let kept = match (w.deck.resampler, queued.resampler) {
        (Some(a), Some(b)) => a.input_rate == b.input_rate,
        (None, None) => true,
        _ => false,
    };
    assert(after.outbox =~= w.outbox + (if kept {
        Seq::empty()
    } else {
        seq![Effect::ClearPending]
    }) + seq![Effect::SetDuration(micros), Effect::BumpTrackEpoch] + (
    if decoder.duration_estimated {
        seq![Effect::Scan { path: decoder.path, epoch }]
    } else {
        Seq::empty()
    }) + seq![
        Effect::UpdateGain,
        Effect::Emit(
            VoxEvent::TrackStarted {
                path: decoder.path,
                duration: micros,
                sample_rate: decoder.info.sample_rate,
                channels: decoder.info.channels,
                reason: StartReason::Gapless,
            },
        ),
    ]);
}

/// A primed track is announced with its own path, length and format.
pub proof fn priming_is_announced_as_it_is<D, R>(
    w: WorkerView<D, R>,
    track: Loaded<D>,
    resampler: Option<VoxResampler<R>>,
    micros: u64,
)
    requires
        at_rest(w),
        plays_for(track.decoder, micros),
    ensures
        ({
            let opened = Ok::<Opened<D, R>, VoxError>(Opened { track, resampler: Ok(resampler) });
            let after = w.next_opened(opened);
            &&& after.outbox == w.outbox.push(
                Effect::Emit(
                    VoxEvent::NextReady {
                        path: track.decoder.path,
                        duration: micros,
                        sample_rate: track.decoder.info.sample_rate,
                        channels: track.decoder.info.channels,
                    },
                ),
            )
            &&& after.state == w.state
            &&& after.deck.next matches Some(queued) && queued.track == track && queued.resampler
                == resampler && queued.input_channels == track.decoder.info.channels
            &&& after.deck.current == w.deck.current
            &&& after.deck.resampler == w.deck.resampler
            &&& after.deck.input_channels == w.deck.input_channels
        }),
{
    duration_is_that_of_the_frames(track.decoder, micros);
    reveal(WorkerView::next_opened);
    reveal(WorkerView::proceed);
    reveal(WorkerView::proceed_to_seek);
    reveal(WorkerView::proceed_to_next);
    reveal(WorkerView::conclude);
    reveal(WorkerView::round);
}

/// At the end of a track that was played through, the length that was reported is
/// replaced by that of the frames that came, and announced, where the two are half
/// a second or more apart. Otherwise, and after any seek, it stays.
pub proof fn length_is_corrected_at_the_end<D, R>(
    w: WorkerView<D, R>,
    track: Loaded<D>,
    micros: u64,
)
    requires
        w.deck.current == Some(track),
        track.decoder.info.sample_rate > 0,
        lasts(
            track.decoder.frames_emitted as nat,
            track.decoder.info.sample_rate as nat,
            micros as nat,
        ),
    ensures
        ({
            let after = w.reconcile_duration();
            let reported = w.state.duration_micros;
            let far = micros >= reported + 500_000 || reported >= micros + 500_000;
            &&& after.deck == w.deck
            &&& w.deck.seeked || !far ==> after == w
            &&& !w.deck.seeked && far ==> after.state == (SharedState {
                duration_micros: micros,
                ..w.state
            }) && after.outbox == w.outbox + seq![
                Effect::SetDuration(micros),
                Effect::Emit(
                    VoxEvent::DurationResolved { path: track.decoder.path, duration: micros },
                ),
            ]
        }),
{
    frames_last_at_their_rate(
        track.decoder.frames_emitted as nat,
        track.decoder.info.sample_rate as nat,
        micros as nat,
    );
    reveal(WorkerView::reconcile_duration);
    let after = w.reconcile_duration();
    let reported = w.state.duration_micros;
    if !w.deck.seeked && (micros >= reported + 500_000 || reported >= micros + 500_000) {
        assert(after.outbox =~= w.outbox + seq![
            Effect::SetDuration(micros),
            Effect::Emit(
                VoxEvent::DurationResolved { path: track.decoder.path, duration: micros },
            ),
        ]);
    }
}

/// When the last track has played out, its end is announced, then the engine turns
/// inactive with nothing loaded and neither position nor length, and the last
/// thing said is that it has stopped. A resampler is flushed before any of that.
#[verifier::rlimit(40)]
pub proof fn last_track_ends_in_silence<D, R>(w: WorkerView<D, R>, track: Loaded<D>)
    requires
        at_rest(w),
        w.deck.current == Some(track),
        w.deck.next is None,
    ensures
        w.deck.resampler is Some ==> w.handle_track_end().deck.stage == Stage::Flush(
            Flushed::End(Some(track.decoder.path)),
        ),
        w.deck.resampler is None ==> {
            let after = w.handle_track_end();
            let k = w.reconcile_duration().outbox.len() as int;
            &&& after.deck.stage == Stage::Idle
            &&& after.deck.current is None
            &&& !after.state.active
            &&& after.state.samples_played == 0
            &&& after.state.duration_micros == 0
            &&& after.outbox.len() > k + 1
            &&& after.outbox[k] == Effect::ResetSamples
            &&& after.outbox[k + 1] == Effect::Emit(
                VoxEvent::TrackEnded {
                    path: track.decoder.path,
                    reason: EndReason::EndOfStream,
                },
            )
            &&& after.outbox.last() == Effect::Emit(VoxEvent::Stopped)
        },
{
    reveal(WorkerView::handle_track_end);
    let over = w.reconcile_duration();
    assert(over.deck == w.deck && over.state.seek_pending == w.state.seek_pending) by {
        reveal(WorkerView::reconcile_duration);
    }
    reveal(WorkerView::end);
    reveal(WorkerView::stop_playback);
    reveal(WorkerView::proceed);
    reveal(WorkerView::proceed_to_seek);
    reveal(WorkerView::proceed_to_next);
    reveal(WorkerView::conclude);
    reveal(WorkerView::round);
}

/// Stopping says that what plays was interrupted, under its own path, and last
/// that the engine has stopped. Nothing stays loaded, primed or waiting, no seek
/// stays under way, and neither position nor length is left; scans under way are
/// overtaken. Whether playback is held stays as it was.
pub proof fn stop_says_so_and_leaves_nothing<D, R>(w: WorkerView<D, R>)
    requires
        at_rest(w),
    ensures
        ({
            let after = w.handle_command(VoxCommand::Stop);
            let n = w.outbox.len() as int;
            &&& after.deck.current is None
            &&& after.deck.next is None
            &&& after.deck.resampler is None
            &&& after.deck.stage == Stage::Idle
            &&& after.state == (SharedState {
                active: false,
                samples_played: 0,
                duration_micros: 0,
                seek_pending: false,
                track_epoch: w.state.track_epoch.wrapping_add(1),
                ..w.state
            })
            &&& after.outbox.len() > n
            &&& after.outbox.last() == Effect::Emit(VoxEvent::Stopped)
            &&& after.outbox.contains(Effect::ClearPending)
            &&& w.deck.current matches Some(track) ==> after.outbox[n] == Effect::Emit(
                VoxEvent::TrackEnded {
                    path: track.decoder.path,
                    reason: EndReason::Interrupted,
                },
            )
            &&& forall|i: int|
                n <= i < after.outbox.len() && #[trigger] after.outbox[i] is Emit ==> i == n
                    && w.deck.current is Some || i == after.outbox.len() - 1
        }),
{
    reveal(WorkerView::handle_command);
    reveal(WorkerView::announce_end);
    reveal(WorkerView::stop_playback);
    reveal(WorkerView::conclude);
    reveal(WorkerView::round);
    let after = w.handle_command(VoxCommand::Stop);
    assert(after.outbox[after.outbox.len() - 2] == Effect::ClearPending);
}

/// A failure is announced first, as one that playback does not survive; then the
/// end of the track it hit, under its path; and last that the engine has stopped.
pub proof fn failure_is_announced_in_order<D, R>(
    w: WorkerView<D, R>,
    track: Loaded<D>,
    error: VoxError,
)
    requires
        w.deck.current == Some(track),
    ensures
        ({
            let after = w.fail_current(error);
            let n = w.outbox.len() as int;
            &&& after.outbox.len() > n + 2
            &&& after.outbox[n] == Effect::Emit(VoxEvent::Error { error, recoverable: false })
            &&& after.outbox[n + 1] == Effect::Emit(
                VoxEvent::TrackEnded { path: track.decoder.path, reason: EndReason::Failed },
            )
            &&& after.outbox.last() == Effect::Emit(VoxEvent::Stopped)
            &&& after.deck.stage == Stage::Idle
            &&& after.deck.current is None
            &&& after.deck.next is None
            &&& !after.state.active
            &&& after.state.samples_played == 0
            &&& after.state.duration_micros == 0
            &&& !after.state.seek_pending
        }),
{
    reveal(WorkerView::fail_current);
    reveal(WorkerView::announce_end);
    reveal(WorkerView::stop_playback);
    reveal(WorkerView::round);
}

/// Failures of the outside end the current track wherever they come up: in
/// decoding, in delivering, and in warming up after a seek.
pub proof fn failures_end_the_track_wherever_they_come_up<D, R>(
    w: WorkerView<D, R>,
    fill: Fill,
    samples: Vec<u32>,
    frames: u64,
    landing: crate::decoder::Landing,
    error: VoxError,
)
    requires
        w.deck.stage == Stage::Halted,
    ensures
        w.at(Stage::Decode(fill)).resumed(Reply::Packet(Err(error))) == w.fail_current(error),
        w.at(Stage::Deliver { samples, fill }).resumed(Reply::Delivered(Err(error)))
            == w.fail_current(error),
        w.at(Stage::Skip { frames, landing }).resumed(Reply::Skipped(Err(error)))
            == w.fail_current(error),
        w.at(Stage::Flush(Flushed::Handoff)).resumed(Reply::Flushed(Err(error)))
            == w.fail_current(error),
{
    reveal(WorkerView::resumed);
    reveal(WorkerView::packet);
    reveal(WorkerView::delivered);
    reveal(WorkerView::skipped);
    reveal(WorkerView::flushed);
    assert(w.at(Stage::Decode(fill)).at(Stage::Halted) =~= w);
    assert(w.at(Stage::Deliver { samples, fill }).at(Stage::Halted) =~= w);
    assert(w.at(Stage::Skip { frames, landing }).at(Stage::Halted) =~= w);
    assert(w.at(Stage::Flush(Flushed::Handoff)).at(Stage::Halted) =~= w);
}

/// Pausing holds playback and resuming lets it go on; each says so only where it
/// changes something, and neither touches the tracks, the position, or anything
/// else of the state.
pub proof fn pause_holds_and_resume_lets_go<D, R>(w: WorkerView<D, R>)
    requires
        at_rest(w),
    ensures
        ({
            let held = w.handle_command(VoxCommand::Pause);
            let going = w.handle_command(VoxCommand::Resume);
            &&& held.state == (SharedState { paused: true, ..w.state })
            &&& going.state == (SharedState { paused: false, ..w.state })
            &&& held.outbox == if w.state.paused {
                w.outbox
            } else {
                w.outbox + seq![
                    Effect::SetPaused(true),
                    Effect::Emit(VoxEvent::StateChanged { paused: true }),
                ]
            }
            &&& going.outbox == if w.state.paused {
                w.outbox + seq![
                    Effect::SetPaused(false),
                    Effect::Emit(VoxEvent::StateChanged { paused: false }),
                ]
            } else {
                w.outbox
            }
            &&& held.deck.current == w.deck.current && held.deck.next == w.deck.next
                && held.deck.resampler == w.deck.resampler
            &&& going.deck.current == w.deck.current && going.deck.next == w.deck.next
                && going.deck.resampler == w.deck.resampler
        }),
{
    reveal(WorkerView::handle_command);
    reveal(WorkerView::set_paused);
    reveal(WorkerView::conclude);
    reveal(WorkerView::round);
    let held = w.handle_command(VoxCommand::Pause);
    let going = w.handle_command(VoxCommand::Resume);
    if !w.state.paused {
        assert(held.outbox =~= w.outbox + seq![
            Effect::SetPaused(true),
            Effect::Emit(VoxEvent::StateChanged { paused: true }),
        ]);
    } else {
        assert(going.outbox =~= w.outbox + seq![
            Effect::SetPaused(false),
            Effect::Emit(VoxEvent::StateChanged { paused: false }),
        ]);
    }
}

/// A new ReplayGain mode is kept, and the gain of what plays is worked out anew;
/// nothing else changes.
pub proof fn gain_mode_takes_effect_at_once<D, R>(w: WorkerView<D, R>, mode: ReplayGainMode)
    requires
        at_rest(w),
    ensures
        ({
            let after = w.handle_command(VoxCommand::ReplayGain(mode));
            &&& after.deck.rg_mode == mode
            &&& after.outbox == w.outbox.push(Effect::UpdateGain)
            &&& after.state == w.state
            &&& after.deck.current == w.deck.current
            &&& after.deck.next == w.deck.next
        }),
{
    reveal(WorkerView::handle_command);
    reveal(WorkerView::conclude);
    reveal(WorkerView::round);
}

/// A command to play opens the file it names and one to prime opens the file it
/// names for that; a shutdown ends the worker's work, and says nothing.
pub proof fn commands_name_the_file_to_open<D, R>(w: WorkerView<D, R>, path: String)
    ensures
        w.handle_command(VoxCommand::Play(path)).deck.stage == (Stage::Open {
            path,
            purpose: Purpose::Play(Prefill::Now),
        }),
        w.handle_command(VoxCommand::Play(path)).state.seek_pending,
        w.handle_command(VoxCommand::Play(path)).state.samples_played == 0,
        w.handle_command(VoxCommand::QueueNext(path)).deck == (Deck {
            stage: Stage::Open { path, purpose: Purpose::Next },
            ..w.deck
        }),
        w.handle_command(VoxCommand::QueueNext(path)).outbox == w.outbox,
        w.handle_command(VoxCommand::Shutdown).deck == (Deck { stage: Stage::Halted, ..w.deck }),
        w.handle_command(VoxCommand::Shutdown).outbox == w.outbox,
{
    reveal(WorkerView::handle_command);
    reveal(WorkerView::handle_play);
    reveal(WorkerView::announce_end);
}

/// While commands are being read, plays, seeks and primings wait for the end of
/// the burst. Any other command ends the burst: what was read before it comes
/// first, and the command itself after it.
pub proof fn other_commands_end_a_burst<D, R>(
    w: WorkerView<D, R>,
    path: String,
    to: SeekPosition,
    command: VoxCommand,
)
    requires
        w.deck.stage == Stage::Poll,
    ensures
        ({
            let played = w.resumed(Reply::Command(VoxCommand::Play(path)));
            let sought = w.resumed(Reply::Command(VoxCommand::Seek(to)));
            let primed = w.resumed(Reply::Command(VoxCommand::QueueNext(path)));
            &&& played.deck.stage == Stage::Poll && played.outbox == w.outbox
            &&& sought.deck.stage == Stage::Poll && sought.outbox == w.outbox
            &&& primed.deck.stage == Stage::Poll && primed.outbox == w.outbox
            &&& played.deck.batch.play == Some(path)
            &&& sought.deck.batch.seek is Some
            &&& primed.deck.batch.next == Some(path)
        }),
        command !is Play && command !is Seek && command !is QueueNext ==> {
            let after = w.resumed(Reply::Command(command));
            &&& w.deck.batch.play matches Some(first) ==> after.deck.stage == (Stage::Open {
                path: first,
                purpose: Purpose::Play(
                    if w.deck.batch.seek is Some {
                        Prefill::Defer
                    } else {
                        Prefill::Now
                    },
                ),
            }) && after.deck.due.seek == w.deck.batch.seek && after.deck.due.next
                == w.deck.batch.next && after.deck.due.command == Some(command)
                && after.deck.due.goal == Goal::Poll && after.deck.batch.play is None
                && after.deck.batch.seek is None && after.deck.batch.next is None
            &&& w.deck.batch.play is None && w.deck.batch.seek is None && w.deck.batch.next is None
                ==> after == w.at(Stage::Halted).with(
                Deck {
                    due: Due::nothing(Goal::Poll),
                    batch: Batch::none(),
                    stage: Stage::Halted,
                    ..w.deck
                },
            ).handle_command(command)
        },
{
    reveal(WorkerView::resumed);
    reveal(WorkerView::polled);
    if command !is Play && command !is Seek && command !is QueueNext {
        reveal(WorkerView::proceed);
        reveal(WorkerView::proceed_to_seek);
        reveal(WorkerView::proceed_to_next);
        reveal(WorkerView::handle_play);
        reveal(WorkerView::announce_end);
    }
}

/// What is due is done in order: a play, then a seek in what plays then, then a
/// priming, then the command that ended the burst.
pub proof fn what_is_due_is_done_in_order<D, R>(
    w: WorkerView<D, R>,
    path: String,
    target: i64,
    next: String,
    command: VoxCommand,
)
    requires
        w.deck.due.defer is None,
    ensures
        w.deck.due.play == Some(path) ==> w.proceed().deck.stage == (Stage::Open {
            path,
            purpose: Purpose::Play(w.deck.due.prefill),
        }) && w.proceed().deck.due.seek == w.deck.due.seek && w.proceed().deck.due.next
            == w.deck.due.next && w.proceed().deck.due.command == w.deck.due.command,
        w.deck.due.play is None && w.deck.due.seek == Some(target) && w.deck.current is Some
            ==> w.proceed().deck.stage == w.handle_seek(target).deck.stage
            && w.proceed().deck.due.seek is None && w.proceed().deck.due.next == w.deck.due.next
            && w.proceed().deck.due.command == w.deck.due.command,
        w.deck.due.play is None && w.deck.due.seek is None && w.deck.due.next == Some(next)
            ==> w.proceed().deck.stage == (Stage::Open { path: next, purpose: Purpose::Next })
            && w.proceed().deck.due.next is None && w.proceed().deck.due.command
            == w.deck.due.command && w.proceed().outbox == w.outbox,
        w.deck.due.play is None && w.deck.due.seek is None && w.deck.due.next is None
            && w.deck.due.command == Some(command) ==> w.proceed() == w.with(
            Deck { due: Due { command: None, ..w.deck.due }, ..w.deck },
        ).handle_command(command),
{
    reveal(WorkerView::proceed);
    reveal(WorkerView::proceed_to_seek);
    reveal(WorkerView::proceed_to_next);
    reveal(WorkerView::handle_play);
    reveal(WorkerView::announce_end);
    reveal(WorkerView::handle_seek);
    reveal(WorkerView::reset_resampler);
}

/// A new output takes over at the position that was reached, counted in the format
/// of the old one: the worker goes by the new format from then on, has the
/// resamplers made for it, and seeks back to that position once they are.
pub proof fn new_output_goes_on_at_the_old_position<D, R>(
    w: WorkerView<D, R>,
    rate: u32,
    channels: usize,
    resampler: Option<VoxResampler<R>>,
    position: nat,
)
    requires
        w.deck.current is Some,
        w.deck.next is None,
        w.deck.output_rate > 0,
        w.deck.output_channels > 0,
        position * w.deck.output_rate * w.deck.output_channels <= w.state.samples_played
            * 1_000_000,
        w.state.samples_played * 1_000_000 < (position + 1) * w.deck.output_rate
            * w.deck.output_channels,
        position <= i64::MAX,
    ensures
        ({
            let bound = w.bound(Some((rate, channels)));
            let rebuilt = bound.rebuilt(position as i64, Ok(None), Ok(resampler));
            &&& bound.deck.stage == (Stage::Rebuild { resume_at: position as i64 })
            &&& bound.deck.output_rate == rate
            &&& bound.deck.output_channels == channels
            &&& bound.outbox == w.outbox.push(Effect::ClearPending)
            &&& rebuilt == bound.with(Deck { resampler, ..bound.deck }).handle_seek(
                position as i64,
            )
        }),
        w.bound(None) == w.proceed(),
{
    reveal(WorkerView::bound);
    reveal(WorkerView::rebuilt);
    position_is_whole_micros(
        w.state.samples_played as nat,
        w.deck.output_rate as nat,
        w.deck.output_channels as nat,
        position,
    );
}

/// With a new output each track gets the resampler that was made for it, and where
/// one could not be made, the track that plays has failed.
pub proof fn new_output_refits_both_tracks<D, R>(
    w: WorkerView<D, R>,
    queued: QueuedSource<D, R>,
    resume_at: i64,
    for_next: Option<VoxResampler<R>>,
    for_current: Option<VoxResampler<R>>,
    error: VoxError,
)
    requires
        w.deck.current is Some,
        w.deck.next == Some(queued),
    ensures
        ({
            let after = w.rebuilt(resume_at, Ok(for_next), Ok(for_current));
            &&& after.deck.resampler == for_current
            &&& after.deck.next matches Some(still) && still.track == queued.track
                && still.resampler == for_next && still.input_channels == queued.input_channels
            &&& after.deck.current == w.deck.current
        }),
        w.rebuilt(resume_at, Err(error), Ok(for_current)) == w.fail_current(error),
        w.rebuilt(resume_at, Ok(for_next), Err(error)).outbox == w.fail_current(error).outbox,
{
    reveal(WorkerView::rebuilt);
    reveal(WorkerView::handle_seek);
    reveal(WorkerView::reset_resampler);
    reveal(WorkerView::fail_current);
    reveal(WorkerView::announce_end);
    reveal(WorkerView::stop_playback);
    reveal(WorkerView::round);
}

/// With nothing loaded the worker waits for a command; with a track it looks for a
/// new output, then for commands, and only then goes on with the audio.
pub proof fn rounds_go_from_output_to_commands_to_audio<D, R>(w: WorkerView<D, R>)
    requires
        w.deck.stage == Stage::Halted,
        w.deck.batch == Batch::none(),
        w.deck.deferred_next is None,
        w.deck.due.play is None,
        w.deck.due.defer is None,
        w.deck.due.seek is None,
        w.deck.due.next is None,
        w.deck.due.command is None,
    ensures
        w.deck.current is None ==> w.round().deck.stage == Stage::Idle,
        w.deck.current is Some ==> {
            let looking = w.round();
            let reading = looking.resumed(Reply::Bound(None));
            let going = reading.resumed(Reply::Quiet);
            &&& looking.deck.stage == Stage::Rebind
            &&& reading.deck.stage == Stage::Poll
            &&& going.deck.stage == if w.state.paused || w.state.rebuilding {
                Stage::Park
            } else {
                Stage::Decode(Fill::Playback)
            }
            &&& going.outbox == w.outbox
        },
        w.round().outbox == w.outbox,
{
    reveal(WorkerView::round);
    reveal(WorkerView::resumed);
    reveal(WorkerView::bound);
    reveal(WorkerView::proceed);
    reveal(WorkerView::proceed_to_seek);
    reveal(WorkerView::proceed_to_next);
    reveal(WorkerView::conclude);
    reveal(WorkerView::poll);
    reveal(WorkerView::polled_quiet);
    reveal(WorkerView::settle);
}

/// A command that comes while nothing is loaded takes effect once a new output, if
/// there is one, has been adopted.
pub proof fn idle_command_takes_effect<D, R>(w: WorkerView<D, R>, command: VoxCommand)
    requires
        w.deck.stage == Stage::Idle,
        w.deck.current is None,
        w.deck.due.play is None,
        w.deck.due.defer is None,
        w.deck.due.seek is None,
        w.deck.due.next is None,
        w.deck.due.command is None,
        w.deck.due.goal == Goal::Round,
    ensures
        w.resumed(Reply::Command(command)).deck.stage == Stage::Rebind,
        w.resumed(Reply::Command(command)).resumed(Reply::Bound(None)) == w.at(
            Stage::Halted,
        ).handle_command(command),
{
    reveal(WorkerView::resumed);
    reveal(WorkerView::idle_command);
    reveal(WorkerView::bound);
    reveal(WorkerView::proceed);
    reveal(WorkerView::proceed_to_seek);
    reveal(WorkerView::proceed_to_next);
    let asked = w.resumed(Reply::Command(command));
    let taken = asked.at(Stage::Halted);
    assert(taken.with(
        Deck { due: Due { command: None, ..taken.deck.due }, ..taken.deck },
    ) =~= w.at(Stage::Halted));
}

/// A burst of commands that is over is carried out as far as it goes: without a
/// play, the seek in what plays comes first and then the priming; without either
/// there is nothing to do but to go on.
pub proof fn quiet_ends_a_burst<D, R>(w: WorkerView<D, R>, target: i64, next: String)
    requires
        w.deck.stage == Stage::Poll,
        w.deck.batch.play is None,
    ensures
        ({
            let after = w.resumed(Reply::Quiet);
            &&& w.deck.batch.seek == Some(target) && w.deck.current is Some ==> after.deck.stage
                == w.handle_seek(target).deck.stage && after.deck.due.next == w.deck.batch.next
                && after.deck.due.goal == Goal::Settle
            &&& w.deck.batch.seek is None && w.deck.batch.next == Some(next) ==> after.deck.stage
                == (Stage::Open { path: next, purpose: Purpose::Next }) && after.deck.due.goal
                == Goal::Settle
            &&& w.deck.batch.seek is None && w.deck.batch.next is None && w.deck.current is Some
                ==> after.deck.stage == if w.state.paused || w.state.rebuilding {
                Stage::Park
            } else {
                Stage::Decode(Fill::Playback)
            }
        }),
{
    reveal(WorkerView::resumed);
    reveal(WorkerView::polled_quiet);
    reveal(WorkerView::proceed);
    reveal(WorkerView::proceed_to_seek);
    reveal(WorkerView::proceed_to_next);
    reveal(WorkerView::conclude);
    reveal(WorkerView::settle);
    reveal(WorkerView::handle_seek);
    reveal(WorkerView::reset_resampler);
}

/// What is to follow a track that has only just been asked for is kept for the next
/// round.
pub proof fn put_off_priming_is_kept<D, R>(w: WorkerView<D, R>, path: String)
    requires
        w.deck.due.play is None,
        w.deck.due.defer == Some(path),
        w.deck.due.seek is None,
        w.deck.due.next is None,
        w.deck.due.command is None,
        w.deck.due.goal == Goal::Round,
    ensures
        w.proceed().deck.deferred_next == Some(path),
        w.proceed().deck.due.defer is None,
        w.proceed().outbox == w.outbox,
{
    reveal(WorkerView::proceed);
    reveal(WorkerView::proceed_to_seek);
    reveal(WorkerView::proceed_to_next);
    reveal(WorkerView::conclude);
    reveal(WorkerView::round);
}

/// A file that can be opened but not brought to the output's rate cannot be played:
/// the error is announced as one that playback does not survive, no start is, and
/// the engine has stopped.
pub proof fn track_without_a_resampler_is_given_up<D, R>(
    w: WorkerView<D, R>,
    prefill: Prefill,
    track: Loaded<D>,
    error: VoxError,
)
    requires
        w.deck.current is None,
    ensures
        ({
            let opened = Ok::<Opened<D, R>, VoxError>(Opened { track, resampler: Err(error) });
            let after = w.play_opened(prefill, opened);
            &&& after.deck.stage == Stage::Idle
            &&& after.deck.current is None
            &&& !after.state.active
            &&& after.outbox.contains(Effect::Emit(VoxEvent::Error { error, recoverable: false }))
            &&& after.outbox.last() == Effect::Emit(VoxEvent::Stopped)
            &&& forall|i: int|
                w.outbox.len() <= i < after.outbox.len() ==> !(#[trigger] after.outbox[i] matches
                    Effect::Emit(VoxEvent::TrackStarted { .. }))
        }),
{
    reveal(WorkerView::play_opened);
    reveal(WorkerView::begin_track);
    reveal(WorkerView::fail_current);
    reveal(WorkerView::announce_end);
    reveal(WorkerView::stop_playback);
    reveal(WorkerView::round);
    let opened = Ok::<Opened<D, R>, VoxError>(Opened { track, resampler: Err(error) });
    let after = w.play_opened(prefill, opened);
    let k = after.outbox.len() - 8;
    assert(after.outbox[k] == Effect::Emit(VoxEvent::Error { error, recoverable: false }));
}

/// A track that runs out while it plays is over. One that runs out while the ring
/// is being filled is left to play what there is.
pub proof fn end_of_the_audio_ends_the_track<D, R>(
    w: WorkerView<D, R>,
    then_do: Filled,
    done: usize,
)
    requires
        w.deck.stage == Stage::Halted,
    ensures
        w.at(Stage::Decode(Fill::Playback)).resumed(Reply::Packet(Ok(None)))
            == w.handle_track_end(),
        w.at(Stage::Decode(Fill::Ahead { then_do, done })).resumed(Reply::Packet(Ok(None)))
            == w.filled(then_do),
        w.at(Stage::Drain(Drained::PastEnd)).resumed(Reply::Drained) == w.perform(
            Effect::FinishSeek,
        ).handle_track_end(),
{
    reveal(WorkerView::resumed);
    reveal(WorkerView::packet);
    reveal(WorkerView::drained);
    assert(w.at(Stage::Decode(Fill::Playback)).at(Stage::Halted) =~= w);
    assert(w.at(Stage::Decode(Fill::Ahead { then_do, done })).at(Stage::Halted) =~= w);
    assert(w.at(Stage::Drain(Drained::PastEnd)).at(Stage::Halted) =~= w);
}

/// After each packet that was played, the worker looks for a new output and for
/// commands before it decodes the next one. A wait that is over starts a new round.
pub proof fn each_packet_starts_a_new_round<D, R>(
    w: WorkerView<D, R>,
    samples: Vec<u32>,
    written: usize,
)
    requires
        at_rest(w),
        w.deck.current is Some,
    ensures
        w.at(Stage::Deliver { samples, fill: Fill::Playback }).resumed(
            Reply::Delivered(Ok(written)),
        ).deck.stage == Stage::Rebind,
        w.at(Stage::Deliver { samples, fill: Fill::Playback }).resumed(
            Reply::Delivered(Ok(written)),
        ).outbox == w.outbox,
        w.at(Stage::Park).resumed(Reply::Woken).deck.stage == Stage::Rebind,
        w.at(Stage::Park).resumed(Reply::Woken).outbox == w.outbox,
{
    reveal(WorkerView::resumed);
    reveal(WorkerView::delivered);
    reveal(WorkerView::proceed);
    reveal(WorkerView::proceed_to_seek);
    reveal(WorkerView::proceed_to_next);
    reveal(WorkerView::conclude);
    reveal(WorkerView::round);
}

/// With nobody left to give commands the worker is done, whether it plays or not,
/// and says nothing more.
pub proof fn worker_ends_when_nobody_is_left<D, R>(w: WorkerView<D, R>)
    requires
        w.deck.stage is Idle || w.deck.stage is Poll,
    ensures
        w.resumed(Reply::Disconnected).deck.stage == Stage::Halted,
        w.resumed(Reply::Disconnected).outbox == w.outbox,
        w.resumed(Reply::Disconnected).state == w.state,
{
    reveal(WorkerView::resumed);
}

/// A file that could not be opened is announced as an error that the engine
/// survives; it is inactive then, with nothing loaded, and says last that it has
/// stopped before its seek is over.
pub proof fn unopened_file_is_announced_and_left<D, R>(
    w: WorkerView<D, R>,
    prefill: Prefill,
    error: VoxError,
)
    requires
        at_rest(w),
    ensures
        ({
            let after = w.play_opened(prefill, Err(error));
            let n = w.outbox.len() as int;
            let m = after.outbox.len() as int;
            &&& m > n + 3
            &&& after.outbox[n] == Effect::SetActive(false)
            &&& after.outbox[n + 1] == Effect::Emit(VoxEvent::Error { error, recoverable: true })
            &&& after.outbox[m - 2] == Effect::Emit(VoxEvent::Stopped)
            &&& after.outbox[m - 1] == Effect::FinishSeek
            &&& after.deck.current is None
            &&& after.deck.next is None
            &&& after.deck.stage == Stage::Idle
            &&& !after.state.active
            &&& !after.state.seek_pending
            &&& after.state.duration_micros == 0
            &&& after.state.samples_played == 0
        }),
{
    reveal(WorkerView::play_opened);
    reveal(WorkerView::stop_playback);
    reveal(WorkerView::proceed);
    reveal(WorkerView::proceed_to_seek);
    reveal(WorkerView::proceed_to_next);
    reveal(WorkerView::conclude);
    reveal(WorkerView::round);
}

/// A play interrupts: the end of what played is announced under its own path, the
/// output is muted, the position is back at the start, and nothing stays loaded or
/// primed while the new file is opened.
pub proof fn play_announces_the_interruption<D, R>(
    w: WorkerView<D, R>,
    track: Loaded<D>,
    path: String,
    prefill: Prefill,
)
    requires
        w.deck.current == Some(track),
    ensures
        ({
            let after = w.handle_play(path, prefill);
            &&& after.outbox == w.outbox + seq![
                Effect::StartSeek,
                Effect::ResetSamples,
                Effect::ClearPending,
                Effect::Emit(
                    VoxEvent::TrackEnded {
                        path: track.decoder.path,
                        reason: EndReason::Interrupted,
                    },
                ),
            ]
            &&& after.state == (SharedState {
                seek_pending: true,
                seek_epoch: w.state.seek_epoch.wrapping_add(1),
                samples_played: 0,
                ..w.state
            })
            &&& after.deck.current is None && after.deck.next is None
                && after.deck.deferred_next is None
        }),
{
    reveal(WorkerView::handle_play);
    reveal(WorkerView::announce_end);
    assert(w.handle_play(path, prefill).outbox =~= w.outbox + seq![
        Effect::StartSeek,
        Effect::ResetSamples,
        Effect::ClearPending,
        Effect::Emit(
            VoxEvent::TrackEnded { path: track.decoder.path, reason: EndReason::Interrupted },
        ),
    ]);
}

/// A new output is adopted while nothing is loaded, too: the worker goes by its
/// format from then on, and a command that was waiting is carried out by that
/// format.
pub proof fn idle_worker_adopts_a_new_output<D, R>(
    w: WorkerView<D, R>,
    rate: u32,
    channels: usize,
    command: VoxCommand,
)
    requires
        w.deck.current is None,
        w.deck.next is None,
        w.deck.due.play is None,
        w.deck.due.defer is None,
        w.deck.due.seek is None,
        w.deck.due.next is None,
    ensures
        w.deck.due.command is None && w.deck.due.goal == Goal::Round ==> {
            let after = w.bound(Some((rate, channels)));
            &&& after.deck.output_rate == rate
            &&& after.deck.output_channels == channels
            &&& after.deck.stage == Stage::Idle
            &&& after.state == w.state
            &&& after.outbox == w.outbox.push(Effect::ClearPending)
        },
        w.deck.due.command == Some(command) ==> w.bound(Some((rate, channels))) == (WorkerView {
            deck: Deck {
                output_rate: rate,
                output_channels: channels,
                due: Due { command: None, ..w.deck.due },
                ..w.deck
            },
            outbox: w.outbox.push(Effect::ClearPending),
            ..w
        }).handle_command(command),
{
    reveal(WorkerView::bound);
    reveal(WorkerView::proceed);
    reveal(WorkerView::proceed_to_seek);
    reveal(WorkerView::proceed_to_next);
    reveal(WorkerView::conclude);
    reveal(WorkerView::round);
}

/// A seek that finds nothing loaded is over at once, and what was asked for after
/// it is still done: a priming, or else a play.
pub proof fn seek_in_nothing_holds_nothing_up<D, R>(
    w: WorkerView<D, R>,
    target: i64,
    next: String,
)
    requires
        w.deck.current is None,
        w.deck.due.play is None,
        w.deck.due.defer is None,
        w.deck.due.seek == Some(target),
    ensures
        w.deck.due.next == Some(next) ==> {
            let after = w.proceed();
            &&& after.deck.stage == (Stage::Open { path: next, purpose: Purpose::Next })
            &&& after.deck.due.seek is None && after.deck.due.next is None
            &&& after.deck.due.command == w.deck.due.command
            &&& !after.state.seek_pending
            &&& after.outbox == w.outbox + seq![Effect::StartSeek, Effect::FinishSeek]
        },
        w.deck.due.next is None && w.deck.due.command == Some(VoxCommand::Play(next)) ==> {
            let after = w.proceed();
            &&& after.deck.stage == (Stage::Open {
                path: next,
                purpose: Purpose::Play(Prefill::Now),
            })
            &&& after.deck.due.seek is None && after.deck.due.command is None
        },
{
    reveal(WorkerView::proceed);
    reveal(WorkerView::proceed_to_seek);
    reveal(WorkerView::proceed_to_next);
    reveal(WorkerView::seek_nothing);
    reveal(WorkerView::handle_command);
    reveal(WorkerView::handle_play);
    reveal(WorkerView::announce_end);
    if w.deck.due.next == Some(next) {
        assert(w.proceed().outbox =~= w.outbox + seq![Effect::StartSeek, Effect::FinishSeek]);
    }
}

/// A track that is primed while none plays gets the resampler that was made for the
/// new output, too; there is nothing to seek in then.
pub proof fn new_output_refits_a_primed_track<D, R>(
    w: WorkerView<D, R>,
    queued: QueuedSource<D, R>,
    resume_at: i64,
    for_next: Option<VoxResampler<R>>,
    unused: Result<Option<VoxResampler<R>>, VoxError>,
)
    requires
        at_rest(w),
        w.deck.current is None,
        w.deck.next == Some(queued),
    ensures
        ({
            let after = w.rebuilt(resume_at, Ok(for_next), unused);
            &&& after.deck.next matches Some(still) && still.track == queued.track
                && still.resampler == for_next && still.input_channels == queued.input_channels
            &&& after.deck.stage == Stage::Idle
            &&& after.outbox == w.outbox
            &&& after.state == w.state
        }),
{
    reveal(WorkerView::rebuilt);
    reveal(WorkerView::proceed);
    reveal(WorkerView::proceed_to_seek);
    reveal(WorkerView::proceed_to_next);
    reveal(WorkerView::conclude);
    reveal(WorkerView::round);
}

} // verus!
