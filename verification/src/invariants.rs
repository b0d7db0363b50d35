//! What holds of the decoder worker at every step, whatever commands come and
//! however the outside work turns out.

use crate::command::{Batch, Prefill, VoxCommand};
use crate::effect::Effect;
use crate::error::VoxError;
use crate::event::{EndReason, VoxEvent};
use crate::lifecycle::{same_rate, WorkerView};
use crate::resampler::VoxResampler;
use crate::stage::{answers, Deck, Drained, Due, Fill, Filled, Flushed};
use crate::stage::{Opened, Purpose, Reply, Stage};
use vstd::prelude::*;

verus! {

/// Whether the worker has a seek in progress while it waits for this.
pub open spec fn seeking(stage: Stage) -> bool {
    match stage {
        Stage::Open { purpose: Purpose::Play(_), .. } => true,
        Stage::Drain(_) => true,
        Stage::Decode(Fill::Ahead { .. }) => true,
        Stage::Deliver { fill: Fill::Ahead { .. }, .. } => true,
        Stage::Seek(_) => true,
        Stage::Skip { .. } => true,
        _ => false,
    }
}

/// The tracks that are loaded are those that what the worker waits for speaks
/// of.
pub open spec fn placed<D, R>(deck: Deck<D, R>) -> bool {
    match deck.stage {
        Stage::Idle => deck.current is None,
        Stage::Open { purpose: Purpose::Play(_), .. } => deck.current is None && deck.next is None,
        Stage::Rebuild { .. } => deck.current is Some || deck.next is Some,
        Stage::Drain(_) => deck.current is Some,
        Stage::Decode(_) => deck.current is Some,
        Stage::Deliver { .. } => deck.current is Some,
        Stage::Seek(_) => deck.current is Some,
        Stage::Skip { .. } => deck.current is Some,
        Stage::Flush(Flushed::End(_)) => deck.current is None && deck.next is None,
        Stage::Flush(Flushed::Handoff) => deck.current is None && deck.next is Some,
        _ => true,
    }
}

/// No part of a burst of commands is left to be carried out.
pub open spec fn nothing_due(due: Due) -> bool {
    due.play is None && due.defer is None && due.seek is None && due.next is None
        && due.command is None
}

/// Everything of a burst is carried out before the worker reads the next one or
/// goes on with the audio.
pub open spec fn punctual(stage: Stage, due: Due) -> bool {
    match stage {
        Stage::Rebind => nothing_due(Due { command: None, ..due }),
        Stage::Idle => nothing_due(due),
        Stage::Poll => nothing_due(due),
        Stage::Park => nothing_due(due),
        Stage::Decode(Fill::Playback) => nothing_due(due),
        Stage::Deliver { fill: Fill::Playback, .. } => nothing_due(due),
        _ => true,
    }
}

/// The worker is in order: the right tracks are loaded, a loaded track means an
/// active engine, no seek is left unfinished, and no command is left behind.
pub open spec fn consistent<D, R>(w: WorkerView<D, R>) -> bool {
    &&& placed(w.deck)
    &&& w.deck.current is Some || w.deck.stage == Stage::Flush(Flushed::Handoff)
        ==> w.state.active
    &&& w.state.seek_pending ==> seeking(w.deck.stage)
    &&& punctual(w.deck.stage, w.deck.due)
    &&& w.deck.stage !is Poll && w.deck.stage !is Halted ==> w.deck.batch == Batch::none()
}

/// The effect announces the end of the track at `path`.
pub open spec fn ends(effect: Effect, path: String) -> bool {
    effect matches Effect::Emit(VoxEvent::TrackEnded { path: at, .. }) && at == path
}

/// The end of the track at `path` is announced among `effects` from `base` on.
#[verifier::opaque]
pub open spec fn announced(effects: Seq<Effect>, base: nat, path: String) -> bool {
    exists|j: int| base <= j < effects.len() && ends(#[trigger] effects[j], path)
}

/// Among `effects` from `base` on, the engine turns inactive only after the end
/// of the track at `path` is announced.
#[verifier::opaque]
pub open spec fn orderly(effects: Seq<Effect>, base: nat, path: String) -> bool {
    forall|i: int|
        base <= i < effects.len() && #[trigger] effects[i] == Effect::SetActive(false)
            ==> announced(effects.take(i), base, path)
}

/// The worker still has to announce the end of the track at `path`.
pub open spec fn owes<D, R>(w: WorkerView<D, R>, path: String) -> bool {
    ||| w.deck.current is Some && w.deck.current->0.decoder.path == path
    ||| w.deck.stage == Stage::Flush(Flushed::End(Some(path)))
}

/// The end of the track at `path` has been announced or is still owed, and the
/// engine has not turned inactive before it was.
pub open spec fn carried<D, R>(w: WorkerView<D, R>, base: nat, path: String) -> bool {
    orderly(w.outbox, base, path) && (announced(w.outbox, base, path) || owes(w, path))
}

/// `later` goes on from `earlier`.
#[verifier::opaque]
pub open spec fn grown(earlier: Seq<Effect>, later: Seq<Effect>) -> bool {
    earlier.len() <= later.len() && forall|i: int|
        0 <= i < earlier.len() ==> #[trigger] later[i] == earlier[i]
}

broadcast proof fn lemma_push_grown(effects: Seq<Effect>, effect: Effect)
    ensures
        grown(effects, #[trigger] effects.push(effect)),
{
    reveal(grown);
}

broadcast proof fn lemma_grown_further(first: Seq<Effect>, second: Seq<Effect>, third: Seq<Effect>)
    requires
        #[trigger] grown(first, second),
        #[trigger] grown(second, third),
    ensures
        grown(first, third),
{
    reveal(grown);
    assert forall|i: int| 0 <= i < first.len() implies #[trigger] third[i] == first[i] by {
        assert(second[i] == first[i]);
    }
}

broadcast proof fn lemma_grown_longer(earlier: Seq<Effect>, later: Seq<Effect>)
    requires
        #[trigger] grown(earlier, later),
    ensures
        earlier.len() <= later.len(),
{
    reveal(grown);
}

proof fn lemma_grown_same(effects: Seq<Effect>)
    ensures
        grown(effects, effects),
{
    reveal(grown);
}

broadcast proof fn lemma_push_announced(effects: Seq<Effect>, effect: Effect, base: nat, path: String)
    ensures
        #[trigger] announced(effects.push(effect), base, path) == (announced(effects, base, path)
            || base <= effects.len() && ends(effect, path)),
{
    reveal(announced);
    let longer = effects.push(effect);
    if announced(effects, base, path) {
        let j = choose|j: int| base <= j < effects.len() && ends(#[trigger] effects[j], path);
        assert(longer[j] == effects[j]);
    }
    if base <= effects.len() && ends(effect, path) {
        assert(longer[effects.len() as int] == effect);
    }
    if announced(longer, base, path) {
        let j = choose|j: int| base <= j < longer.len() && ends(#[trigger] longer[j], path);
        if j < effects.len() {
            assert(longer[j] == effects[j]);
        }
    }
}

broadcast proof fn lemma_push_orderly(effects: Seq<Effect>, effect: Effect, base: nat, path: String)
    requires
        orderly(effects, base, path),
        effect == Effect::SetActive(false) ==> announced(effects, base, path),
    ensures
        #[trigger] orderly(effects.push(effect), base, path),
{
    reveal(orderly);
    let longer = effects.push(effect);
    assert forall|i: int|
        base <= i < longer.len() && #[trigger] longer[i] == Effect::SetActive(
            false,
        ) implies announced(longer.take(i), base, path) by {
        if i < effects.len() {
            assert(longer[i] == effects[i]);
            assert(longer.take(i) =~= effects.take(i));
        } else {
            assert(longer.take(i) =~= effects);
        }
    }
}

broadcast group group_order {
    lemma_push_announced,
    lemma_push_orderly,
    lemma_push_grown,
    lemma_grown_further,
    lemma_grown_longer,
}

/// Between two things to do: nothing is half done.
pub(crate) open spec fn ready<D, R>(w: WorkerView<D, R>) -> bool {
    &&& w.deck.current is Some ==> w.state.active
    &&& !w.state.seek_pending
    &&& w.deck.batch == Batch::none()
}

/// `after` is in order, and owes no end that `before` did not see to.
pub(crate) open spec fn sound<D, R>(
    before: WorkerView<D, R>,
    after: WorkerView<D, R>,
    base: nat,
    path: String,
) -> bool {
    &&& consistent(after)
    &&& grown(before.outbox, after.outbox)
    &&& carried(before, base, path) ==> carried(after, base, path)
}

// Each step of the worker keeps things in order: one lemma for each function of
// [`WorkerView`] that does something, from the innermost out.

proof fn lemma_conclude<D, R>(w: WorkerView<D, R>, base: nat, path: String)
    requires
        ready(w),
        nothing_due(w.deck.due),
        w.deck.stage == Stage::Halted,
    ensures
        sound(w, w.conclude(), base, path),
{
    broadcast use group_order;

    lemma_grown_same(w.outbox);
    reveal(WorkerView::conclude);
    reveal(WorkerView::round);
    reveal(WorkerView::poll);
    reveal(WorkerView::settle);
}

proof fn lemma_stop_playback<D, R>(w: WorkerView<D, R>, base: nat, path: String)
    requires
        w.deck.stage == Stage::Halted,
    ensures
        w.stop_playback().deck == (Deck { current: None, next: None, resampler: None, ..w.deck }),
        grown(w.outbox, w.stop_playback().outbox),
        !w.stop_playback().state.active,
        !w.stop_playback().state.seek_pending,
        w.stop_playback().state.paused == w.state.paused,
        orderly(w.outbox, base, path) && announced(w.outbox, base, path) ==> carried(
            w.stop_playback(),
            base,
            path,
        ),
{
    broadcast use group_order;

    lemma_grown_same(w.outbox);
    reveal(WorkerView::stop_playback);
}

proof fn lemma_announce_end<D, R>(w: WorkerView<D, R>, reason: EndReason, base: nat, path: String)
    requires
        w.deck.stage == Stage::Halted,
        base <= w.outbox.len(),
    ensures
        w.announce_end(reason).deck == w.deck,
        w.announce_end(reason).state == w.state,
        grown(w.outbox, w.announce_end(reason).outbox),
        carried(w, base, path) ==> orderly(w.announce_end(reason).outbox, base, path) && announced(
            w.announce_end(reason).outbox,
            base,
            path,
        ),
{
    broadcast use group_order;

    lemma_grown_same(w.outbox);
    reveal(WorkerView::announce_end);
}

proof fn lemma_fail_current<D, R>(w: WorkerView<D, R>, error: VoxError, base: nat, path: String)
    requires
        w.deck.stage == Stage::Halted,
        base <= w.outbox.len(),
    ensures
        sound(w, w.fail_current(error), base, path),
{
    broadcast use group_order;

    lemma_grown_same(w.outbox);
    reveal(WorkerView::fail_current);
    reveal(WorkerView::round);
    let said = w.emit(VoxEvent::Error { error, recoverable: false });
    assert(carried(w, base, path) ==> carried(said, base, path));
    lemma_announce_end(said, EndReason::Failed, base, path);
    lemma_stop_playback(said.announce_end(EndReason::Failed), base, path);
}

proof fn lemma_handle_play<D, R>(
    w: WorkerView<D, R>,
    file: String,
    prefill: Prefill,
    base: nat,
    path: String,
)
    requires
        w.deck.stage == Stage::Halted,
        w.deck.batch == Batch::none(),
        base <= w.outbox.len(),
    ensures
        sound(w, w.handle_play(file, prefill), base, path),
{
    broadcast use group_order;

    lemma_grown_same(w.outbox);
    reveal(WorkerView::handle_play);
    let torn = w.perform(Effect::StartSeek).perform(Effect::ResetSamples).perform(
        Effect::ClearPending,
    );
    assert(carried(w, base, path) ==> carried(torn, base, path));
    lemma_announce_end(torn, EndReason::Interrupted, base, path);
}

proof fn lemma_handle_seek<D, R>(w: WorkerView<D, R>, target: i64, base: nat, path: String)
    requires
        w.deck.stage == Stage::Halted,
        w.deck.batch == Batch::none(),
        w.deck.current is Some,
        w.state.active,
    ensures
        sound(w, w.handle_seek(target), base, path),
{
    broadcast use group_order;

    lemma_grown_same(w.outbox);
    reveal(WorkerView::handle_seek);
    reveal(WorkerView::reset_resampler);
}

proof fn lemma_seek_nothing<D, R>(w: WorkerView<D, R>, base: nat, path: String)
    requires
        w.deck.stage == Stage::Halted,
        ready(w),
    ensures
        ready(w.seek_nothing()),
        w.seek_nothing().deck == (Deck { seeked: true, ..w.deck }),
        grown(w.outbox, w.seek_nothing().outbox),
        carried(w, base, path) ==> carried(w.seek_nothing(), base, path),
{
    broadcast use group_order;

    lemma_grown_same(w.outbox);
    reveal(WorkerView::seek_nothing);
}

proof fn lemma_handle_command<D, R>(
    w: WorkerView<D, R>,
    command: VoxCommand,
    base: nat,
    path: String,
)
    requires
        w.deck.stage == Stage::Halted,
        ready(w),
        nothing_due(w.deck.due),
        base <= w.outbox.len(),
    ensures
        sound(w, w.handle_command(command), base, path),
{
    broadcast use group_order;

    lemma_grown_same(w.outbox);
    reveal(WorkerView::handle_command);
    match command {
        VoxCommand::Play(file) => lemma_handle_play(w, file, Prefill::Now, base, path),
        VoxCommand::QueueNext(_) => {},
        VoxCommand::ClearNext => lemma_conclude(
            w.with(Deck { next: None, ..w.deck }),
            base,
            path,
        ),
        VoxCommand::Seek(to) => {
            if w.deck.current is Some {
                lemma_handle_seek(w, to.from_base(w.elapsed()), base, path);
            } else {
                lemma_seek_nothing(w, base, path);
                lemma_conclude(w.seek_nothing(), base, path);
            }
        },
        VoxCommand::Pause => {
            reveal(WorkerView::set_paused);
            lemma_conclude(w.set_paused(true), base, path);
        },
        VoxCommand::Resume => {
            reveal(WorkerView::set_paused);
            lemma_conclude(w.set_paused(false), base, path);
        },
        VoxCommand::ReplayGain(mode) => {
            lemma_conclude(
                w.with(Deck { rg_mode: mode, ..w.deck }).perform(Effect::UpdateGain),
                base,
                path,
            );
        },
        VoxCommand::Stop => {
            lemma_announce_end(w, EndReason::Interrupted, base, path);
            lemma_stop_playback(w.announce_end(EndReason::Interrupted), base, path);
            lemma_conclude(
                w.announce_end(EndReason::Interrupted).stop_playback(),
                base,
                path,
            );
        },
        VoxCommand::Shutdown => {},
    }
}

proof fn lemma_proceed_to_next<D, R>(w: WorkerView<D, R>, base: nat, path: String)
    requires
        w.deck.stage == Stage::Halted,
        ready(w),
        nothing_due(Due { next: None, command: None, ..w.deck.due }),
        base <= w.outbox.len(),
    ensures
        sound(w, w.proceed_to_next(), base, path),
{
    broadcast use group_order;

    lemma_grown_same(w.outbox);
    reveal(WorkerView::proceed_to_next);
    if w.deck.due.next is None {
        match w.deck.due.command {
            Some(command) => {
                let taken = w.with(Deck { due: Due { command: None, ..w.deck.due }, ..w.deck });
                lemma_handle_command(taken, command, base, path);
            },
            None => lemma_conclude(w, base, path),
        }
    }
}

pub(crate) proof fn lemma_proceed<D, R>(w: WorkerView<D, R>, base: nat, path: String)
    requires
        w.deck.stage == Stage::Halted,
        ready(w),
        base <= w.outbox.len(),
    ensures
        sound(w, w.proceed(), base, path),
{
    broadcast use group_order;

    lemma_grown_same(w.outbox);
    reveal(WorkerView::proceed);
    reveal(WorkerView::proceed_to_seek);
    match w.deck.due.play {
        Some(file) => {
            let taken = w.with(Deck { due: Due { play: None, ..w.deck.due }, ..w.deck });
            lemma_handle_play(taken, file, w.deck.due.prefill, base, path);
        },
        None => {
            let deck = match w.deck.due.defer {
                Some(file) => Deck {
                    deferred_next: Some(file),
                    due: Due { defer: None, ..w.deck.due },
                    ..w.deck
                },
                None => w.deck,
            };
            match deck.due.seek {
                Some(target) => {
                    let sought = w.with(Deck { due: Due { seek: None, ..deck.due }, ..deck });
                    if deck.current is Some {
                        lemma_handle_seek(sought, target, base, path);
                    } else {
                        lemma_seek_nothing(sought, base, path);
                        lemma_proceed_to_next(sought.seek_nothing(), base, path);
                    }
                },
                None => lemma_proceed_to_next(w.with(deck), base, path),
            }
        },
    }
}

proof fn lemma_filled<D, R>(w: WorkerView<D, R>, then_do: Filled, base: nat, path: String)
    requires
        w.deck.stage == Stage::Halted,
        w.deck.current is Some ==> w.state.active,
        w.deck.batch == Batch::none(),
        base <= w.outbox.len(),
    ensures
        sound(w, w.filled(then_do), base, path),
{
    broadcast use group_order;

    lemma_grown_same(w.outbox);
    reveal(WorkerView::filled);
    let said = match (then_do, w.deck.current) {
        (Filled::TrackStart, Some(track)) => w.emit(
            crate::lifecycle::track_started(track.decoder, crate::event::StartReason::Play),
        ),
        _ => w,
    };
    assert(carried(w, base, path) ==> carried(said.perform(Effect::FinishSeek), base, path));
    lemma_proceed(said.perform(Effect::FinishSeek), base, path);
}

proof fn lemma_begin_track<D, R>(
    w: WorkerView<D, R>,
    decoder: crate::decoder::VoxDecoder,
    base: nat,
    path: String,
)
    ensures
        w.begin_track(decoder).deck == (Deck { seeked: false, ..w.deck }),
        w.begin_track(decoder).state == w.state.after(Effect::BumpTrackEpoch),
        grown(w.outbox, w.begin_track(decoder).outbox),
        carried(w, base, path) ==> carried(w.begin_track(decoder), base, path),
{
    broadcast use group_order;

    lemma_grown_same(w.outbox);
    reveal(WorkerView::begin_track);
}

proof fn lemma_play_opened<D, R>(
    w: WorkerView<D, R>,
    prefill: Prefill,
    opened: Result<Opened<D, R>, VoxError>,
    base: nat,
    path: String,
)
    requires
        w.deck.stage == Stage::Halted,
        w.deck.current is None,
        w.deck.next is None,
        w.deck.batch == Batch::none(),
        base <= w.outbox.len(),
    ensures
        sound(w, w.play_opened(prefill, opened), base, path),
{
    broadcast use group_order;

    lemma_grown_same(w.outbox);
    reveal(WorkerView::play_opened);
    match opened {
        Err(error) => {
            let failed = w.perform(Effect::SetActive(false)).emit(
                VoxEvent::Error { error, recoverable: true },
            );
            lemma_stop_playback(failed, base, path);
            let stopped = failed.stop_playback().perform(Effect::FinishSeek);
            reveal(WorkerView::stop_playback);
            assert(carried(w, base, path) ==> carried(stopped, base, path));
            lemma_proceed(stopped, base, path);
        },
        Ok(file) => {
            let decoder = file.track.decoder;
            let told = w.perform(
                Effect::SetDuration(crate::lifecycle::announced_duration(decoder)),
            );
            lemma_begin_track(told, decoder, base, path);
            let begun = told.begin_track(decoder);
            let ready = begun.with(Deck { input_channels: decoder.info.channels, ..begun.deck });
            match file.resampler {
                Err(error) => lemma_fail_current(ready, error, base, path),
                Ok(resampler) => {
                    reveal(WorkerView::set_paused);
                    let playing = ready.with(
                        Deck { resampler, current: Some(file.track), ..ready.deck },
                    ).perform(Effect::UpdateGain).perform(Effect::SetActive(true)).set_paused(
                        false,
                    );
                    assert(carried(w, base, path) ==> carried(playing, base, path));
                    lemma_filled(playing, Filled::TrackStart, base, path);
                },
            }
        },
    }
}

proof fn lemma_next_opened<D, R>(
    w: WorkerView<D, R>,
    opened: Result<Opened<D, R>, VoxError>,
    base: nat,
    path: String,
)
    requires
        w.deck.stage == Stage::Halted,
        ready(w),
        base <= w.outbox.len(),
    ensures
        sound(w, w.next_opened(opened), base, path),
{
    broadcast use group_order;

    lemma_grown_same(w.outbox);
    reveal(WorkerView::next_opened);
    match opened {
        Ok(Opened { track, resampler: Ok(resampler) }) => {
            let primed = w.emit(
                VoxEvent::NextReady {
                    path: track.decoder.path,
                    duration: crate::lifecycle::announced_duration(track.decoder),
                    sample_rate: track.decoder.info.sample_rate,
                    channels: track.decoder.info.channels,
                },
            ).with(
                Deck {
                    next: Some(
                        crate::stage::QueuedSource {
                            track,
                            resampler,
                            input_channels: track.decoder.info.channels,
                        },
                    ),
                    ..w.deck
                },
            );
            lemma_proceed(primed, base, path);
        },
        Ok(Opened { track, resampler: Err(error) }) => {
            lemma_proceed(w.emit(VoxEvent::Error { error, recoverable: true }), base, path);
        },
        Err(error) => {
            lemma_proceed(w.emit(VoxEvent::Error { error, recoverable: true }), base, path);
        },
    }
}

proof fn lemma_end<D, R>(w: WorkerView<D, R>, ended: Option<String>, base: nat, path: String)
    requires
        w.deck.stage == Stage::Halted,
        w.deck.batch == Batch::none(),
        base <= w.outbox.len(),
    ensures
        consistent(w.end(ended)),
        grown(w.outbox, w.end(ended).outbox),
        orderly(w.outbox, base, path) && (announced(w.outbox, base, path) || ended == Some(path))
            ==> carried(w.end(ended), base, path),
{
    broadcast use group_order;

    lemma_grown_same(w.outbox);
    reveal(WorkerView::end);
    let said = match ended {
        Some(file) => w.emit(
            VoxEvent::TrackEnded { path: file, reason: EndReason::EndOfStream },
        ),
        None => w,
    };
    lemma_stop_playback(said, base, path);
    reveal(WorkerView::stop_playback);
    lemma_proceed(said.stop_playback(), base, path);
}

proof fn lemma_transition<D, R>(w: WorkerView<D, R>, base: nat, path: String)
    requires
        w.deck.stage == Stage::Halted,
        ready(w),
        w.deck.current is None,
        w.deck.next is Some,
        w.state.active,
        base <= w.outbox.len(),
    ensures
        sound(w, w.transition(), base, path),
{
    broadcast use group_order;

    lemma_grown_same(w.outbox);
    reveal(WorkerView::transition);
    let queued = w.deck.next->0;
    let decoder = queued.track.decoder;
    let fitted = if same_rate(w.deck.resampler, queued.resampler) {
        w
    } else {
        w.with(Deck { resampler: queued.resampler, ..w.deck }).perform(Effect::ClearPending)
    };
    let told = fitted.with(Deck { next: None, ..fitted.deck }).perform(
        Effect::SetDuration(crate::lifecycle::announced_duration(decoder)),
    );
    assert(carried(w, base, path) ==> carried(told, base, path));
    lemma_begin_track(told, decoder, base, path);
    let begun = told.begin_track(decoder);
    let started = begun.with(
        Deck {
            input_channels: queued.input_channels,
            current: Some(queued.track),
            ..begun.deck
        },
    ).perform(Effect::UpdateGain).emit(
        crate::lifecycle::track_started(decoder, crate::event::StartReason::Gapless),
    );
    lemma_proceed(started, base, path);
}

proof fn lemma_handle_track_end<D, R>(w: WorkerView<D, R>, base: nat, path: String)
    requires
        w.deck.stage == Stage::Halted,
        ready(w),
        w.deck.current is Some,
        base <= w.outbox.len(),
    ensures
        sound(w, w.handle_track_end(), base, path),
{
    broadcast use group_order;

    lemma_grown_same(w.outbox);
    reveal(WorkerView::handle_track_end);
    let over = w.reconcile_duration().perform(Effect::ResetSamples);
    assert(carried(w, base, path) ==> carried(over, base, path)) by {
        reveal(WorkerView::reconcile_duration);
    }
    assert(over.deck == w.deck && over.state.active == w.state.active && over.state.seek_pending
        == w.state.seek_pending && grown(w.outbox, over.outbox)) by {
        reveal(WorkerView::reconcile_duration);
    }
    match w.deck.next {
        Some(queued) => {
            lemma_announce_end(over, EndReason::EndOfStream, base, path);
            let said = over.announce_end(EndReason::EndOfStream);
            let handing = said.with(Deck { current: None, ..said.deck });
            lemma_transition(handing, base, path);
        },
        None => {
            let ending = over.with(Deck { current: None, ..over.deck });
            lemma_end(ending, Some(w.deck.current->0.decoder.path), base, path);
        },
    }
}

proof fn lemma_fill_ahead<D, R>(
    w: WorkerView<D, R>,
    then_do: Filled,
    done: usize,
    base: nat,
    path: String,
)
    requires
        w.deck.stage == Stage::Halted,
        w.deck.current is Some ==> w.state.active,
        w.deck.batch == Batch::none(),
        base <= w.outbox.len(),
    ensures
        sound(w, w.fill_ahead(then_do, done), base, path),
{
    broadcast use group_order;

    lemma_grown_same(w.outbox);
    reveal(WorkerView::fill_ahead);
    lemma_filled(w, then_do, base, path);
}

proof fn lemma_bound<D, R>(
    w: WorkerView<D, R>,
    format: Option<(u32, usize)>,
    base: nat,
    path: String,
)
    requires
        w.deck.stage == Stage::Halted,
        ready(w),
        base <= w.outbox.len(),
    ensures
        sound(w, w.bound(format), base, path),
{
    broadcast use group_order;

    lemma_grown_same(w.outbox);
    reveal(WorkerView::bound);
    match format {
        None => lemma_proceed(w, base, path),
        Some((rate, channels)) => {
            let adopted = w.with(
                Deck { output_rate: rate, output_channels: channels, ..w.deck },
            ).perform(Effect::ClearPending);
            lemma_proceed(adopted, base, path);
        },
    }
}

proof fn lemma_rebuilt<D, R>(
    w: WorkerView<D, R>,
    resume_at: i64,
    next: Result<Option<VoxResampler<R>>, VoxError>,
    current: Result<Option<VoxResampler<R>>, VoxError>,
    base: nat,
    path: String,
)
    requires
        w.deck.stage == Stage::Halted,
        ready(w),
        base <= w.outbox.len(),
    ensures
        sound(w, w.rebuilt(resume_at, next, current), base, path),
{
    broadcast use group_order;

    lemma_grown_same(w.outbox);
    reveal(WorkerView::rebuilt);
    let fitted = match (w.deck.next, next) {
        (Some(queued), Ok(resampler)) => w.with(
            Deck {
                next: Some(crate::stage::QueuedSource { resampler, ..queued }),
                ..w.deck
            },
        ),
        _ => w,
    };
    if w.deck.next is Some && next is Err {
        lemma_fail_current(w, next->Err_0, base, path);
    } else if w.deck.current is None {
        lemma_proceed(fitted, base, path);
    } else {
        match current {
            Err(error) => lemma_fail_current(fitted, error, base, path),
            Ok(resampler) => lemma_handle_seek(
                fitted.with(Deck { resampler, ..fitted.deck }),
                resume_at,
                base,
                path,
            ),
        }
    }
}

proof fn lemma_resumed<D, R>(w: WorkerView<D, R>, reply: Reply<D, R>, base: nat, path: String)
    requires
        consistent(w),
        answers(w.deck.stage, reply),
        base <= w.outbox.len(),
    ensures
        consistent(w.resumed(reply)),
        grown(w.outbox, w.resumed(reply).outbox),
        carried(w, base, path) ==> carried(w.resumed(reply), base, path),
{
    broadcast use group_order;

    lemma_grown_same(w.outbox);
    reveal(WorkerView::resumed);
    let h = w.at(Stage::Halted);
    match (w.deck.stage, reply) {
        (Stage::Idle, Reply::Command(command)) => {
            reveal(WorkerView::idle_command);
        },
        (Stage::Idle, Reply::Quiet) => {
            reveal(WorkerView::idle_quiet);
        },
        (Stage::Poll, Reply::Command(command)) => {
            reveal(WorkerView::polled);
            if !crate::command::mergeable(command) {
                lemma_proceed(
                    h.with(
                        Deck {
                            due: Due::interrupted(h.deck.batch, command),
                            batch: Batch::none(),
                            ..h.deck
                        },
                    ),
                    base,
                    path,
                );
            }
        },
        (Stage::Poll, Reply::Quiet) => {
            reveal(WorkerView::polled_quiet);
            lemma_proceed(
                h.with(
                    Deck { due: Due::finished(h.deck.batch), batch: Batch::none(), ..h.deck },
                ),
                base,
                path,
            );
        },
        (Stage::Rebind, Reply::Bound(format)) => lemma_bound(h, format, base, path),
        (Stage::Rebuild { resume_at }, Reply::Rebuilt { next, current }) => lemma_rebuilt(
            h,
            resume_at,
            next,
            current,
            base,
            path,
        ),
        (Stage::Open { path: _, purpose: Purpose::Play(prefill) }, Reply::Opened(opened)) =>
        lemma_play_opened(h, prefill, opened, base, path),
        (Stage::Open { path: _, purpose: Purpose::Next }, Reply::Opened(opened)) =>
        lemma_next_opened(h, opened, base, path),
        (Stage::Drain(then_do), Reply::Drained) => {
            reveal(WorkerView::drained);
            match then_do {
                Drained::PastEnd => lemma_handle_track_end(
                    h.perform(Effect::FinishSeek),
                    base,
                    path,
                ),
                Drained::Fill(filled) => lemma_fill_ahead(h, filled, 0, base, path),
            }
        },
        (Stage::Decode(fill), Reply::Packet(packet)) => {
            reveal(WorkerView::packet);
            match (packet, fill) {
                (Err(error), _) => lemma_fail_current(h, error, base, path),
                (Ok(Some(samples)), _) => {},
                (Ok(None), Fill::Playback) => lemma_handle_track_end(h, base, path),
                (Ok(None), Fill::Ahead { then_do, .. }) => lemma_filled(h, then_do, base, path),
            }
        },
        (Stage::Deliver { samples, fill }, Reply::Delivered(written)) => {
            reveal(WorkerView::delivered);
            match (written, fill) {
                (Err(error), _) => lemma_fail_current(h, error, base, path),
                (Ok(_), Fill::Playback) => lemma_proceed(h, base, path),
                (Ok(n), Fill::Ahead { then_do, done }) => {
                    let sum = if done + n > usize::MAX {
                        usize::MAX
                    } else {
                        (done + n) as usize
                    };
                    lemma_fill_ahead(h, then_do, sum, base, path);
                },
            }
        },
        (Stage::Seek(_), Reply::Landed(landing)) => {
            reveal(WorkerView::landed);
            match landing {
                Ok(_) => {},
                Err(error) => lemma_handle_track_end(
                    h.emit(VoxEvent::Error { error, recoverable: true }).perform(
                        Effect::FinishSeek,
                    ),
                    base,
                    path,
                ),
            }
        },
        (Stage::Skip { frames: _, landing: _ }, Reply::Skipped(skipped)) => {
            reveal(WorkerView::skipped);
            reveal(WorkerView::reset_resampler);
            match skipped {
                Err(error) => lemma_fail_current(h, error, base, path),
                Ok(_) => {},
            }
        },
        (Stage::Flush(then_do), Reply::Flushed(outcome)) => {
            reveal(WorkerView::flushed);
            match (outcome, then_do) {
                (Err(error), Flushed::End(Some(ended))) => {
                    reveal(WorkerView::round);
                    let said = h.emit(VoxEvent::Error { error, recoverable: false }).emit(
                        VoxEvent::TrackEnded { path: ended, reason: EndReason::Failed },
                    );
                    lemma_stop_playback(said, base, path);
                },
                (Err(error), _) => {
                    lemma_fail_current(h, error, base, path);
                },
                (Ok(_), Flushed::End(ended)) => lemma_end(h, ended, base, path),
                (Ok(_), Flushed::Handoff) => lemma_transition(h, base, path),
            }
        },
        (Stage::Park, Reply::Woken) => {
            reveal(WorkerView::round);
        },
        _ => {},
    }
}

/// The worker is in order at the start.
pub proof fn starts_consistent<D, R>(w: WorkerView<D, R>)
    requires
        w.deck.stage is Idle,
        w.deck.current is None,
        w.deck.batch == Batch::none(),
        nothing_due(w.deck.due),
        !w.state.seek_pending,
    ensures
        consistent(w),
{
}

/// The worker stays in order, whatever it is told: a loaded track means an
/// active engine, a seek that was started is finished before the worker reads
/// the next command or goes on with the audio, and no command gets lost on the
/// way there.
pub proof fn stays_consistent<D, R>(w: WorkerView<D, R>, reply: Reply<D, R>)
    requires
        consistent(w),
        answers(w.deck.stage, reply),
    ensures
        consistent(w.resumed(reply)),
{
    lemma_resumed(w, reply, w.outbox.len(), vstd::pervasive::arbitrary());
}

/// The end of a track is announced before the engine turns inactive: whatever
/// the worker is told while it plays the track at `path`, an effect that makes
/// the engine inactive comes after one that announces the end of that track; and
/// as long as the end has not been announced, the worker still has the track.
pub proof fn end_is_announced_before_inactive<D, R>(
    w: WorkerView<D, R>,
    reply: Reply<D, R>,
    path: String,
    i: int,
)
    requires
        consistent(w),
        answers(w.deck.stage, reply),
        owes(w, path),
    ensures
        w.outbox.len() <= i < w.resumed(reply).outbox.len() && w.resumed(reply).outbox[i]
            == Effect::SetActive(false) ==> exists|j: int|
            w.outbox.len() <= j < i && ends(#[trigger] w.resumed(reply).outbox[j], path),
        owes(w.resumed(reply), path) || exists|j: int|
            w.outbox.len() <= j < w.resumed(reply).outbox.len() && ends(
                #[trigger] w.resumed(reply).outbox[j],
                path,
            ),
{
    let base = w.outbox.len();
    let after = w.resumed(reply).outbox;
    assert(carried(w, base, path)) by {
        reveal(orderly);
    }
    lemma_resumed(w, reply, base, path);
    reveal(orderly);
    reveal(announced);
    if base <= i < after.len() && after[i] == Effect::SetActive(false) {
        let front = after.take(i);
        let j = choose|j: int| base <= j < front.len() && ends(#[trigger] front[j], path);
        assert(after[j] == front[j]);
    }
}

/// What the worker has asked for stands: later steps only add to it, so that the
/// order of effects is the order in which they came up.
pub proof fn effects_stand<D, R>(w: WorkerView<D, R>, reply: Reply<D, R>, i: int)
    requires
        consistent(w),
        answers(w.deck.stage, reply),
        0 <= i < w.outbox.len(),
    ensures
        i < w.resumed(reply).outbox.len(),
        w.resumed(reply).outbox[i] == w.outbox[i],
{
    lemma_resumed(w, reply, w.outbox.len(), vstd::pervasive::arbitrary());
    reveal(grown);
}

} // verus!
