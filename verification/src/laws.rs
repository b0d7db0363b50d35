//! What callers can rely on: laws of playback that relate several commands, or
//! a command and what the outside made of it.

use crate::command::{folded, mergeable, merged, seeks_merge_into_one};
use crate::command::{Batch, Prefill, SeekPosition, VoxCommand};
use crate::effect::Effect;
use crate::error::VoxError;
use crate::event::{EndReason, StartReason, VoxEvent};
use crate::invariants::{grown, lemma_proceed, nothing_due};
use crate::lifecycle::{announced_duration, past_end, same_rate, track_started, WorkerView};
use crate::output::CallbackOutcome;
use crate::resampler::VoxResampler;
use crate::scan::concerns;
use crate::stage::{Deck, Drained, Due, Fill, Filled, Flushed, Goal, Loaded};
use crate::stage::{Opened, Purpose, QueuedSource, Reply, Stage};
use crate::state::SharedState;
use crate::timing::{at_least_one, samples_of};
use vstd::prelude::*;

verus! {

/// The worker has nothing else to do: no command is due, and no seek is under
/// way.
pub open spec fn at_rest<D, R>(w: WorkerView<D, R>) -> bool {
    &&& w.deck.stage == Stage::Halted
    &&& nothing_due(w.deck.due)
    &&& w.deck.due.goal == Goal::Round
    &&& w.deck.batch == Batch::none()
}

/// The effects of dropping all tracks, the last of which says so.
pub open spec fn stop_effects() -> Seq<Effect> {
    seq![
        Effect::BumpTrackEpoch,
        Effect::ResetSamples,
        Effect::SetDuration(0),
        Effect::SetActive(false),
        Effect::FinishSeek,
        Effect::ClearPending,
        Effect::Emit(VoxEvent::Stopped),
    ]
}

/// The announcement that the current track ended, if there is one.
pub open spec fn end_effects<D, R>(deck: Deck<D, R>, reason: EndReason) -> Seq<Effect> {
    match deck.current {
        Some(track) => seq![
            Effect::Emit(VoxEvent::TrackEnded { path: track.decoder.path, reason }),
        ],
        None => Seq::empty(),
    }
}

/// Playing a file interrupts what plays before anything else becomes of it: the
/// end of the old track is announced as an interruption, with nothing loaded and
/// nothing primed while the new file is being opened. With nothing playing,
/// nothing is announced at this point.
pub proof fn play_interrupts_first<D, R>(w: WorkerView<D, R>, path: String, prefill: Prefill)
    ensures
        ({
            let after = w.handle_play(path, prefill);
            &&& after.outbox == w.outbox + seq![
                Effect::StartSeek,
                Effect::ResetSamples,
                Effect::ClearPending,
            ] + end_effects(w.deck, EndReason::Interrupted)
            &&& after.deck.current is None
            &&& after.deck.next is None
            &&& after.deck.deferred_next is None
            &&& after.deck.stage == Stage::Open { path, purpose: Purpose::Play(prefill) }
        }),
{
    reveal(WorkerView::handle_play);
    reveal(WorkerView::announce_end);
    assert(w.handle_play(path, prefill).outbox =~= w.outbox + seq![
        Effect::StartSeek,
        Effect::ResetSamples,
        Effect::ClearPending,
    ] + end_effects(w.deck, EndReason::Interrupted));
}

/// A file that could be opened becomes the current track of an active, unpaused
/// engine, and nothing is announced of it before the ring is filled but that
/// playback is no longer paused.
pub proof fn opened_track_becomes_current<D, R>(
    w: WorkerView<D, R>,
    track: Loaded<D>,
    resampler: Option<VoxResampler<R>>,
)
    requires
        w.deck.stage == Stage::Halted,
    ensures
        ({
            let opened = Ok::<Opened<D, R>, VoxError>(Opened { track, resampler: Ok(resampler) });
            let after = w.play_opened(Prefill::Now, opened);
            &&& after.deck.current == Some(track)
            &&& after.deck.resampler == resampler
            &&& after.deck.stage == Stage::Drain(Drained::Fill(Filled::TrackStart))
            &&& after.state.active
            &&& !after.state.paused
            &&& after.state.duration_micros == announced_duration(track.decoder)
            &&& forall|i: int|
                w.outbox.len() <= i < after.outbox.len() ==> match #[trigger] after.outbox[i] {
                    Effect::Emit(event) => w.state.paused && event == (VoxEvent::StateChanged {
                        paused: false,
                    }),
                    _ => true,
                }
        }),
{
    reveal(WorkerView::play_opened);
    reveal(WorkerView::begin_track);
    reveal(WorkerView::set_paused);
}

/// Once the ring is filled, the start of the track is announced, and the seek
/// that muted the output is over.
pub proof fn filled_ring_announces_start<D, R>(w: WorkerView<D, R>, track: Loaded<D>)
    requires
        w.deck.stage == Stage::Halted,
        w.deck.batch == Batch::none(),
        w.deck.current == Some(track),
        w.state.active,
    ensures
        ({
            let after = w.filled(Filled::TrackStart);
            let n = w.outbox.len() as int;
            &&& after.outbox.len() >= n + 2
            &&& after.outbox[n] == Effect::Emit(track_started(track.decoder, StartReason::Play))
            &&& after.outbox[n + 1] == Effect::FinishSeek
        }),
{
    reveal(WorkerView::filled);
    let said = w.emit(track_started(track.decoder, StartReason::Play)).perform(
        Effect::FinishSeek,
    );
    lemma_proceed(said, 0, vstd::pervasive::arbitrary());
    reveal(grown);
    assert(said.outbox[w.outbox.len() as int] == Effect::Emit(
        track_started(track.decoder, StartReason::Play),
    ));
    assert(said.outbox[w.outbox.len() as int + 1] == Effect::FinishSeek);
}

/// A file that cannot be opened costs nothing but itself: the error is announced
/// as recoverable, and the engine is idle and ready for the next command.
#[verifier::rlimit(40)]
pub proof fn failed_open_leaves_engine_idle<D, R>(
    w: WorkerView<D, R>,
    prefill: Prefill,
    error: VoxError,
)
    requires
        at_rest(w),
    ensures
        ({
            let after = w.play_opened(prefill, Err(error));
            &&& after.outbox == w.outbox + seq![
                Effect::SetActive(false),
                Effect::Emit(VoxEvent::Error { error, recoverable: true }),
            ] + stop_effects() + seq![Effect::FinishSeek]
            &&& after.deck.stage == Stage::Idle
            &&& after.deck.current is None
            &&& after.deck.next is None
            &&& !after.state.active
            &&& !after.state.seek_pending
        }),
{
    reveal(WorkerView::play_opened);
    reveal(WorkerView::stop_playback);
    reveal(WorkerView::proceed);
    reveal(WorkerView::proceed_to_seek);
    reveal(WorkerView::proceed_to_next);
    reveal(WorkerView::conclude);
    reveal(WorkerView::round);
    assert(w.play_opened(prefill, Err(error)).outbox =~= w.outbox + seq![
        Effect::SetActive(false),
        Effect::Emit(VoxEvent::Error { error, recoverable: true }),
    ] + stop_effects() + seq![Effect::FinishSeek]);
}

/// Stopping announces the interruption of what plays, drops everything that is
/// loaded or primed, and says last that the engine has stopped. On an idle
/// engine it says just that. Neither a position nor a duration is left, in
/// whatever format they are counted.
pub proof fn stop_leaves_nothing<D, R>(w: WorkerView<D, R>)
    requires
        at_rest(w),
    ensures
        ({
            let after = w.handle_command(VoxCommand::Stop);
            &&& after.outbox == w.outbox + end_effects(w.deck, EndReason::Interrupted)
                + stop_effects()
            &&& after.deck.stage == Stage::Idle
            &&& after.deck.current is None
            &&& after.deck.next is None
            &&& after.deck.resampler is None
            &&& !after.state.active
            &&& after.state.samples_played == 0
            &&& samples_of(
                after.state.duration_micros as nat,
                after.state.output_rate as nat,
                after.state.output_channels as nat,
            ) == 0
        }),
{
    reveal(WorkerView::handle_command);
    reveal(WorkerView::announce_end);
    reveal(WorkerView::stop_playback);
    reveal(WorkerView::conclude);
    reveal(WorkerView::round);
    let after = w.handle_command(VoxCommand::Stop);
    assert(after.state.duration_micros == 0);
    assert(0 * (after.state.output_rate as nat * after.state.output_channels as nat) == 0);
    assert(w.handle_command(VoxCommand::Stop).outbox =~= w.outbox + end_effects(
        w.deck,
        EndReason::Interrupted,
    ) + stop_effects());
}

/// A failure while playing is announced as the error and as the end of the track
/// by failure, in this order, before everything is dropped.
pub proof fn failure_ends_track<D, R>(w: WorkerView<D, R>, error: VoxError)
    ensures
        ({
            let after = w.fail_current(error);
            &&& after.outbox == w.outbox + seq![
                Effect::Emit(VoxEvent::Error { error, recoverable: false }),
            ] + end_effects(w.deck, EndReason::Failed) + stop_effects()
            &&& after.deck.stage == Stage::Idle
            &&& nothing_due(after.deck.due)
            &&& !after.state.active
        }),
{
    reveal(WorkerView::fail_current);
    reveal(WorkerView::announce_end);
    reveal(WorkerView::stop_playback);
    reveal(WorkerView::round);
    assert(w.fail_current(error).outbox =~= w.outbox + seq![
        Effect::Emit(VoxEvent::Error { error, recoverable: false }),
    ] + end_effects(w.deck, EndReason::Failed) + stop_effects());
}

/// Pausing what is paused and resuming what plays does and announces nothing.
pub proof fn pausing_is_idempotent<D, R>(w: WorkerView<D, R>, paused: bool)
    ensures
        w.set_paused(paused).state.paused == paused,
        w.set_paused(paused).set_paused(paused) == w.set_paused(paused),
        w.state.paused == paused ==> w.set_paused(paused) == w,
        w.state.paused != paused ==> w.set_paused(paused).outbox == w.outbox + seq![
            Effect::SetPaused(paused),
            Effect::Emit(VoxEvent::StateChanged { paused }),
        ],
{
    reveal(WorkerView::set_paused);
    if w.state.paused != paused {
        assert(w.set_paused(paused).outbox =~= w.outbox + seq![
            Effect::SetPaused(paused),
            Effect::Emit(VoxEvent::StateChanged { paused }),
        ]);
    }
}

/// The announcement that a track is primed.
pub open spec fn next_ready<D>(track: Loaded<D>) -> VoxEvent {
    VoxEvent::NextReady {
        path: track.decoder.path,
        duration: announced_duration(track.decoder),
        sample_rate: track.decoder.info.sample_rate,
        channels: track.decoder.info.channels,
    }
}

/// Priming is not a queue: a track that could be opened takes the place of the
/// one primed before it, and is announced. One that could not be opened leaves
/// everything as it was, but for the announcement of a recoverable error.
pub proof fn priming_overwrites<D, R>(
    w: WorkerView<D, R>,
    track: Loaded<D>,
    resampler: Option<VoxResampler<R>>,
    error: VoxError,
)
    requires
        at_rest(w),
    ensures
        ({
            let opened = Ok::<Opened<D, R>, VoxError>(Opened { track, resampler: Ok(resampler) });
            let after = w.next_opened(opened);
            &&& after.deck.next == Some(
                QueuedSource { track, resampler, input_channels: track.decoder.info.channels },
            )
            &&& after.deck.current == w.deck.current
            &&& after.outbox == w.outbox + seq![Effect::Emit(next_ready(track))]
        }),
        ({
            let unfit = Ok::<Opened<D, R>, VoxError>(Opened { track, resampler: Err(error) });
            let after = w.next_opened(Err(error));
            &&& after.deck.next == w.deck.next
            &&& after.deck.current == w.deck.current
            &&& after.deck.resampler == w.deck.resampler
            &&& after.state == w.state
            &&& after.outbox == w.outbox + seq![
                Effect::Emit(VoxEvent::Error { error, recoverable: true }),
            ]
            &&& w.next_opened(unfit) == after
        }),
{
    reveal(WorkerView::next_opened);
    reveal(WorkerView::proceed);
    reveal(WorkerView::proceed_to_seek);
    reveal(WorkerView::proceed_to_next);
    reveal(WorkerView::conclude);
    reveal(WorkerView::round);
    let opened = Ok::<Opened<D, R>, VoxError>(Opened { track, resampler: Ok(resampler) });
    assert(w.next_opened(opened).outbox =~= w.outbox + seq![Effect::Emit(next_ready(track))]);
    assert(w.next_opened(Err(error)).outbox =~= w.outbox + seq![
        Effect::Emit(VoxEvent::Error { error, recoverable: true }),
    ]);
}

/// Clearing the primed track drops it and touches nothing else.
pub proof fn clearing_next_drops_it<D, R>(w: WorkerView<D, R>)
    requires
        at_rest(w),
    ensures
        ({
            let after = w.handle_command(VoxCommand::ClearNext);
            &&& after.deck.next is None
            &&& after.deck.current == w.deck.current
            &&& after.outbox == w.outbox
            &&& after.state == w.state
        }),
{
    reveal(WorkerView::handle_command);
    reveal(WorkerView::conclude);
    reveal(WorkerView::round);
}

/// A seek before the start goes to the start; a seek past a known end drains the
/// ring on the way to the end of the track; any other seek goes to its target.
/// With an unknown duration there is no end to go past.
pub proof fn seek_targets_are_clamped<D, R>(w: WorkerView<D, R>, target: i64, track: Loaded<D>)
    requires
        w.deck.current == Some(track),
    ensures
        target < 0 ==> w.handle_seek(target).deck.stage == Stage::Seek(0),
        past_end(target, track.decoder) ==> w.handle_seek(target).deck.stage
            == Stage::Drain(Drained::PastEnd),
        target >= 0 && !past_end(target, track.decoder) ==> w.handle_seek(
            target,
        ).deck.stage == Stage::Seek(target as u64),
        w.handle_seek(target).state.seek_pending,
        w.handle_seek(target).state.seek_epoch == w.state.seek_epoch.wrapping_add(1),
        w.handle_seek(target).deck.current == Some(track),
        target < 0 ==> !past_end(target, track.decoder),
{
    let rate = at_least_one(track.decoder.info.sample_rate as nat);
    if target < 0 {
        assert(target * rate < 0) by (nonlinear_arith)
            requires
                target < 0,
                rate > 0,
        ;
    }
    reveal(WorkerView::handle_seek);
    reveal(WorkerView::reset_resampler);
}

/// A seek with nothing loaded leaves nothing behind: no seek stays pending.
pub proof fn seek_on_idle_engine_is_over_at_once<D, R>(w: WorkerView<D, R>)
    ensures
        !w.seek_nothing().state.seek_pending,
        w.seek_nothing().outbox == w.outbox + seq![Effect::StartSeek, Effect::FinishSeek],
{
    reveal(WorkerView::seek_nothing);
    assert(w.seek_nothing().outbox =~= w.outbox + seq![Effect::StartSeek, Effect::FinishSeek]);
}

/// The worker once the ring is drained for a seek past the end, and the resampler
/// flushed where it had to be.
pub open spec fn after_past_end<D, R>(w: WorkerView<D, R>) -> WorkerView<D, R> {
    let drained = w.drained(Drained::PastEnd);
    if drained.deck.stage is Flush {
        drained.resumed(Reply::Flushed(Ok(())))
    } else {
        drained
    }
}

/// The worker with its track over after a seek past the end, before anything
/// takes its place.
spec fn over_past_end<D, R>(w: WorkerView<D, R>) -> WorkerView<D, R> {
    w.perform(Effect::FinishSeek).perform(Effect::ResetSamples)
}

/// A flush that succeeded.
pub(crate) proof fn lemma_flush_done<D, R>(w: WorkerView<D, R>, then_do: Flushed)
    requires
        w.deck.stage == Stage::Halted,
    ensures
        w.at(Stage::Flush(then_do)).resumed(Reply::Flushed(Ok(()))) == (match then_do {
            Flushed::End(ended) => w.end(ended),
            Flushed::Handoff => w.transition(),
        }),
{
    reveal(WorkerView::resumed);
    reveal(WorkerView::flushed);
    assert(w.at(Stage::Flush(then_do)).at(Stage::Halted) == w);
}

/// A seek past the end, up to where a flush may come in between.
proof fn lemma_past_end<D, R>(w: WorkerView<D, R>, track: Loaded<D>)
    requires
        at_rest(w),
        w.deck.seeked,
        w.deck.current == Some(track),
    ensures
        ({
            let over = over_past_end(w);
            let path = track.decoder.path;
            let said = over.emit(
                VoxEvent::TrackEnded { path, reason: EndReason::EndOfStream },
            );
            let handing = said.with(Deck { current: None, ..said.deck });
            let ending = over.with(Deck { current: None, ..over.deck });
            w.drained(Drained::PastEnd) == (match w.deck.next {
                Some(queued) => if same_rate(w.deck.resampler, queued.resampler)
                    || w.deck.resampler is None {
                    handing.transition()
                } else {
                    handing.at(Stage::Flush(Flushed::Handoff))
                },
                None => if w.deck.resampler is Some {
                    ending.at(Stage::Flush(Flushed::End(Some(path))))
                } else {
                    ending.end(Some(path))
                },
            })
        }),
{
    reveal(WorkerView::drained);
    reveal(WorkerView::handle_track_end);
    reveal(WorkerView::reconcile_duration);
    reveal(WorkerView::announce_end);
}

/// What a handover to the primed track comes to.
#[verifier::rlimit(40)]
pub(crate) proof fn lemma_handover<D, R>(w: WorkerView<D, R>, queued: QueuedSource<D, R>)
    requires
        at_rest(w),
        w.deck.next == Some(queued),
    ensures
        ({
            let after = w.transition();
            let n = w.outbox.len() as int;
            &&& grown(w.outbox, after.outbox)
            &&& after.outbox.len() > n
            &&& after.outbox.last() == Effect::Emit(
                track_started(queued.track.decoder, StartReason::Gapless),
            )
            &&& after.deck.stage == Stage::Rebind
            &&& after.deck.current == Some(queued.track)
            &&& after.deck.next is None
            &&& after.deck.resampler == (if same_rate(w.deck.resampler, queued.resampler) {
                w.deck.resampler
            } else {
                queued.resampler
            })
            &&& after.state.active == w.state.active
            &&& after.state.seek_pending == w.state.seek_pending
            &&& forall|i: int| n <= i < after.outbox.len() ==> #[trigger] after.outbox[i]
                != Effect::SetActive(false)
        }),
{
    reveal(grown);
    reveal(WorkerView::transition);
    reveal(WorkerView::begin_track);
    reveal(WorkerView::proceed);
    reveal(WorkerView::proceed_to_seek);
    reveal(WorkerView::proceed_to_next);
    reveal(WorkerView::conclude);
    reveal(WorkerView::round);
}

/// What the end of the last track comes to.
#[verifier::rlimit(40)]
proof fn lemma_last_end<D, R>(w: WorkerView<D, R>, path: String)
    requires
        at_rest(w),
    ensures
        ({
            let after = w.end(Some(path));
            &&& after.outbox == w.outbox + seq![
                Effect::Emit(VoxEvent::TrackEnded { path, reason: EndReason::EndOfStream }),
            ] + stop_effects()
            &&& after.deck.stage == Stage::Idle
            &&& !after.state.active
        }),
{
    reveal(WorkerView::end);
    reveal(WorkerView::stop_playback);
    reveal(WorkerView::proceed);
    reveal(WorkerView::proceed_to_seek);
    reveal(WorkerView::proceed_to_next);
    reveal(WorkerView::conclude);
    reveal(WorkerView::round);
    assert(w.end(Some(path)).outbox =~= w.outbox + seq![
        Effect::Emit(VoxEvent::TrackEnded { path, reason: EndReason::EndOfStream }),
    ] + stop_effects());
}

/// Seeking past the end with a track primed hands over to it: the old track has
/// ended, and the new one starts without a gap. The primed track is used up. A
/// resampler that serves both tracks is kept; any other is flushed first, and the
/// new track's own takes its place.
pub proof fn past_end_hands_over<D, R>(
    w: WorkerView<D, R>,
    track: Loaded<D>,
    queued: QueuedSource<D, R>,
)
    requires
        at_rest(w),
        w.deck.seeked,
        w.deck.current == Some(track),
        w.deck.next == Some(queued),
    ensures
        w.drained(Drained::PastEnd).deck.stage == Stage::Flush(Flushed::Handoff)
            <==> w.deck.resampler is Some && !same_rate(w.deck.resampler, queued.resampler),
        ({
            let after = after_past_end(w);
            let n = w.outbox.len() as int;
            &&& after.outbox[n] == Effect::FinishSeek
            &&& after.outbox[n + 1] == Effect::ResetSamples
            &&& after.outbox[n + 2] == Effect::Emit(
                VoxEvent::TrackEnded {
                    path: track.decoder.path,
                    reason: EndReason::EndOfStream,
                },
            )
            &&& after.outbox.last() == Effect::Emit(
                track_started(queued.track.decoder, StartReason::Gapless),
            )
            &&& after.outbox.len() > n + 3
            &&& after.deck.current == Some(queued.track)
            &&& after.deck.next is None
            &&& after.deck.resampler == (if same_rate(w.deck.resampler, queued.resampler) {
                w.deck.resampler
            } else {
                queued.resampler
            })
            &&& after.state.active == w.state.active
            &&& !after.state.seek_pending
            &&& forall|i: int| n <= i < after.outbox.len() ==> #[trigger] after.outbox[i]
                != Effect::SetActive(false)
        }),
{
    lemma_past_end(w, track);
    let over = over_past_end(w);
    let said = over.emit(
        VoxEvent::TrackEnded { path: track.decoder.path, reason: EndReason::EndOfStream },
    );
    let handing = said.with(Deck { current: None, ..said.deck });
    lemma_flush_done(handing, Flushed::Handoff);
    lemma_handover(handing, queued);
    assert(after_past_end(w) == handing.transition());
    assert(handing.outbox =~= w.outbox + seq![
        Effect::FinishSeek,
        Effect::ResetSamples,
        Effect::Emit(
            VoxEvent::TrackEnded {
                path: track.decoder.path,
                reason: EndReason::EndOfStream,
            },
        ),
    ]);
    reveal(grown);
    let after = handing.transition().outbox;
    let n = w.outbox.len() as int;
    assert(after[n] == handing.outbox[n]);
    assert(after[n + 1] == handing.outbox[n + 1]);
    assert(after[n + 2] == handing.outbox[n + 2]);
    assert forall|i: int| n <= i < after.len() implies #[trigger] after[i] != Effect::SetActive(
        false,
    ) by {
        if i < n + 3 {
            assert(after[i] == handing.outbox[i]);
        }
    }
}

/// Seeking past the end with nothing primed ends the track and stops, once the
/// resampler, if there is one, is flushed.
pub proof fn past_end_stops<D, R>(w: WorkerView<D, R>, track: Loaded<D>)
    requires
        at_rest(w),
        w.deck.seeked,
        w.deck.current == Some(track),
        w.deck.next is None,
    ensures
        w.drained(Drained::PastEnd).deck.stage == Stage::Flush(
            Flushed::End(Some(track.decoder.path)),
        ) <==> w.deck.resampler is Some,
        ({
            let after = after_past_end(w);
            &&& after.outbox == w.outbox + seq![Effect::FinishSeek, Effect::ResetSamples]
                + end_effects(w.deck, EndReason::EndOfStream) + stop_effects()
            &&& after.deck.stage == Stage::Idle
            &&& !after.state.active
        }),
{
    lemma_past_end(w, track);
    let over = over_past_end(w);
    let ending = over.with(Deck { current: None, ..over.deck });
    lemma_flush_done(ending, Flushed::End(Some(track.decoder.path)));
    lemma_last_end(ending, track.decoder.path);
    assert(after_past_end(w) == ending.end(Some(track.decoder.path)));
    assert(after_past_end(w).outbox =~= w.outbox + seq![
        Effect::FinishSeek,
        Effect::ResetSamples,
    ] + end_effects(w.deck, EndReason::EndOfStream) + stop_effects());
}

/// Where the last of a track's audio cannot be converted, the track has failed:
/// the error and the end of the track are announced before the engine stops.
pub proof fn failed_flush_fails_the_track<D, R>(w: WorkerView<D, R>, path: String, error: VoxError)
    ensures
        ({
            let after = w.flushed(Flushed::End(Some(path)), Err(error));
            &&& after.outbox == w.outbox + seq![
                Effect::Emit(VoxEvent::Error { error, recoverable: false }),
                Effect::Emit(VoxEvent::TrackEnded { path, reason: EndReason::Failed }),
            ] + stop_effects()
            &&& after.deck.stage == Stage::Idle
            &&& nothing_due(after.deck.due)
            &&& !after.state.active
        }),
{
    reveal(WorkerView::flushed);
    reveal(WorkerView::stop_playback);
    reveal(WorkerView::round);
    assert(w.flushed(Flushed::End(Some(path)), Err(error)).outbox =~= w.outbox + seq![
        Effect::Emit(VoxEvent::Error { error, recoverable: false }),
        Effect::Emit(VoxEvent::TrackEnded { path, reason: EndReason::Failed }),
    ] + stop_effects());
}

/// With a resampler, the end of the last track is announced once its remaining
/// audio has been written, and only then does the engine stop.
pub proof fn flushed_track_ends_and_stops<D, R>(w: WorkerView<D, R>, path: String)
    requires
        at_rest(w),
    ensures
        ({
            let after = w.flushed(Flushed::End(Some(path)), Ok(()));
            &&& after.outbox == w.outbox + seq![
                Effect::Emit(VoxEvent::TrackEnded { path, reason: EndReason::EndOfStream }),
            ] + stop_effects()
            &&& after.deck.stage == Stage::Idle
            &&& !after.state.active
        }),
{
    reveal(WorkerView::flushed);
    lemma_last_end(w, path);
}

/// While playback is held or the output is being rebuilt, nothing is decoded;
/// else the current track goes on.
pub proof fn audio_waits_while_held<D, R>(w: WorkerView<D, R>)
    requires
        w.deck.current is Some,
    ensures
        w.settle().deck.stage == (if w.state.paused || w.state.rebuilding {
            Stage::Park
        } else {
            Stage::Decode(Fill::Playback)
        }),
        w.settle().outbox == w.outbox,
{
    reveal(WorkerView::settle);
}

/// A new output resumes at the old position: the position to go back to is
/// worked out with the format in which it was counted.
pub proof fn rebind_resumes_at_old_position<D, R>(
    w: WorkerView<D, R>,
    rate: u32,
    channels: usize,
    resampler: Option<VoxResampler<R>>,
)
    requires
        w.deck.current is Some,
        w.deck.next is None,
    ensures
        w.bound(Some((rate, channels))).deck.stage == (Stage::Rebuild { resume_at: w.elapsed() }),
        ({
            let bound = w.bound(Some((rate, channels)));
            let fitted = bound.with(Deck { resampler, ..bound.deck });
            bound.rebuilt(w.elapsed(), Ok(None), Ok(resampler)) == fitted.handle_seek(w.elapsed())
        }),
{
    reveal(WorkerView::bound);
    reveal(WorkerView::rebuilt);
}

/// The worker once it has read these commands of a burst, one after the other.
pub open spec fn after_burst<D, R>(
    w: WorkerView<D, R>,
    commands: Seq<VoxCommand>,
) -> WorkerView<D, R>
    decreases commands.len(),
{
    if commands.len() == 0 {
        w
    } else {
        after_burst(w, commands.drop_last()).resumed(Reply::Command(commands.last()))
    }
}

/// Commands that can be merged take no effect while a burst of them is read: all
/// that the worker keeps is what they come down to.
pub proof fn burst_is_merged<D, R>(w: WorkerView<D, R>, commands: Seq<VoxCommand>)
    requires
        w.deck.stage == Stage::Poll,
        w.deck.batch == Batch::none(),
        forall|i: int| 0 <= i < commands.len() ==> mergeable(#[trigger] commands[i]),
    ensures
        after_burst(w, commands) == w.with(
            Deck { batch: merged(commands, w.elapsed()), ..w.deck },
        ),
    decreases commands.len(),
{
    reveal(WorkerView::resumed);
    reveal(WorkerView::polled);
    if commands.len() > 0 {
        let earlier = commands.drop_last();
        assert forall|i: int| 0 <= i < earlier.len() implies mergeable(#[trigger] earlier[i]) by {
            assert(earlier[i] == commands[i]);
        }
        burst_is_merged(w, earlier);
        assert(commands.last() == commands[commands.len() - 1]);
    }
}

/// A burst of seeks is one seek: to where they lead together, with one fresh seek
/// epoch, as if that target had been asked for alone. No target on the way is
/// sought.
#[verifier::rlimit(40)]
pub proof fn burst_of_seeks_is_one_seek<D, R>(w: WorkerView<D, R>, commands: Seq<VoxCommand>)
    requires
        w.deck.stage == Stage::Poll,
        w.deck.batch == Batch::none(),
        w.deck.current is Some,
        commands.len() > 0,
        forall|i: int| 0 <= i < commands.len() ==> #[trigger] commands[i] is Seek,
    ensures
        ({
            let target = folded(commands, w.elapsed());
            let after = after_burst(w, commands).resumed(Reply::Quiet);
            let ready = w.with(
                Deck {
                    stage: Stage::Halted,
                    due: Due { prefill: Prefill::Defer, ..Due::nothing(Goal::Settle) },
                    ..w.deck
                },
            );
            &&& after == ready.handle_seek(target)
            &&& after == after_burst(
                w,
                seq![VoxCommand::Seek(SeekPosition::Absolute(target))],
            ).resumed(Reply::Quiet)
            &&& after.state.seek_epoch == w.state.seek_epoch.wrapping_add(1)
        }),
{
    let target = folded(commands, w.elapsed());
    let alone = seq![VoxCommand::Seek(SeekPosition::Absolute(target))];
    burst_is_merged(w, commands);
    burst_is_merged(w, alone);
    seeks_merge_into_one(commands, w.elapsed());
    seeks_merge_into_one(alone, w.elapsed());
    assert(folded(alone, w.elapsed()) == target);
    reveal(WorkerView::resumed);
    reveal(WorkerView::polled_quiet);
    reveal(WorkerView::proceed);
    reveal(WorkerView::proceed_to_seek);
    reveal(WorkerView::handle_seek);
    reveal(WorkerView::reset_resampler);
}

/// A seek given before a play in one burst is not made: the new track is opened
/// to be filled from its start, and nothing is left to be sought in it.
pub proof fn play_after_seek_starts_at_the_start<D, R>(
    w: WorkerView<D, R>,
    to: SeekPosition,
    path: String,
)
    requires
        w.deck.stage == Stage::Poll,
        w.deck.batch == Batch::none(),
    ensures
        ({
            let after = after_burst(
                w,
                seq![VoxCommand::Seek(to), VoxCommand::Play(path)],
            ).resumed(Reply::Quiet);
            &&& after.deck.stage == (Stage::Open { path, purpose: Purpose::Play(Prefill::Now) })
            &&& after.deck.due.seek is None
            &&& after.state.samples_played == 0
        }),
{
    let commands = seq![VoxCommand::Seek(to), VoxCommand::Play(path)];
    burst_is_merged(w, commands);
    reveal_with_fuel(merged, 3);
    assert(commands.drop_last() =~= seq![VoxCommand::Seek(to)]);
    reveal(WorkerView::resumed);
    reveal(WorkerView::polled_quiet);
    reveal(WorkerView::proceed);
    reveal(WorkerView::handle_play);
    reveal(WorkerView::announce_end);
}

/// Neither an effect of the worker nor a run of the callback begins or takes back
/// teardown.
pub proof fn teardown_is_left_alone(
    state: SharedState,
    effect: Effect,
    outcome: CallbackOutcome,
)
    ensures
        state.after(effect).shutdown == state.shutdown,
        state.after_callback(outcome).shutdown == state.shutdown,
{
}

/// A burst that ends while a play is pending puts off what is to follow the new
/// track, so that priming cannot delay its start; the next round primes it
/// before reading commands.
pub proof fn next_waits_for_coalesced_play<D, R>(
    w: WorkerView<D, R>,
    path: String,
    next: String,
)
    requires
        w.deck.batch.play == Some(path),
        w.deck.batch.next == Some(next),
    ensures
        w.polled_quiet().deck.stage == (Stage::Open {
            path,
            purpose: Purpose::Play(crate::command::prefill_for(w.deck.batch.seek)),
        }),
        w.polled_quiet().deck.due.defer == Some(next),
        w.polled_quiet().deck.due.next is None,
        w.polled_quiet().deck.due.seek == w.deck.batch.seek,
{
    reveal(WorkerView::polled_quiet);
    reveal(WorkerView::proceed);
    reveal(WorkerView::handle_play);
    reveal(WorkerView::announce_end);
}

/// What was put off is primed at the start of the next round.
pub proof fn deferred_next_is_primed<D, R>(w: WorkerView<D, R>, next: String)
    requires
        w.deck.deferred_next == Some(next),
    ensures
        w.poll().deck.stage == (Stage::Open { path: next, purpose: Purpose::Next }),
        w.poll().deck.deferred_next is None,
{
    reveal(WorkerView::poll);
}

/// Starting a track and stopping both overtake the duration scans under way: a
/// scan that concerned the track before concerns it no longer.
pub proof fn track_change_overtakes_scans<D, R>(
    w: WorkerView<D, R>,
    decoder: crate::decoder::VoxDecoder,
    epoch: u64,
)
    requires
        concerns(w.state, epoch),
    ensures
        !concerns(w.begin_track(decoder).state, epoch),
        !concerns(w.stop_playback().state, epoch),
{
    reveal(WorkerView::begin_track);
    reveal(WorkerView::stop_playback);
}

/// A track whose duration is an estimate is scanned on behalf of its own epoch.
pub proof fn estimated_track_is_scanned<D, R>(
    w: WorkerView<D, R>,
    decoder: crate::decoder::VoxDecoder,
)
    requires
        decoder.duration_estimated,
        !w.state.shutdown,
    ensures
        ({
            let after = w.begin_track(decoder);
            &&& after.outbox.last() == (Effect::Scan {
                path: decoder.path,
                epoch: after.state.track_epoch,
            })
            &&& concerns(after.state, after.state.track_epoch)
        }),
{
    reveal(WorkerView::begin_track);
}

/// Starting a seek takes back every acknowledgement of an earlier one: until the
/// callback acknowledges the new epoch itself, the ring does not count as
/// drained. An acknowledgement of any other epoch changes nothing about that.
pub proof fn new_seek_takes_back_acks(state: SharedState, stale: u64)
    requires
        state.seek_ack != state.seek_epoch.wrapping_add(1),
        stale != state.seek_epoch.wrapping_add(1),
    ensures
        ({
            let started = state.after(Effect::StartSeek);
            let acked = SharedState { seek_ack: stale, ..started };
            let drained = SharedState { seek_ack: started.seek_epoch, ..started };
            &&& started.seek_pending
            &&& started.seek_ack != started.seek_epoch
            &&& acked.seek_ack != acked.seek_epoch
            &&& drained.seek_ack == drained.seek_epoch
        }),
{
}

} // verus!
