//! What the tracks play through: the channels they are taken to have, the
//! resampler that converts them, and what is said of them when they start and
//! end. Stated over the rates, channels and lengths themselves.

use crate::command::{Batch, Prefill, VoxCommand};
use crate::effect::Effect;
use crate::error::VoxError;
use crate::event::{EndReason, StartReason, VoxEvent};
use crate::laws::{at_rest, lemma_flush_done, lemma_handover};
use crate::lifecycle::WorkerView;
use crate::resampler::VoxResampler;
use crate::stage::{answers, Deck, Drained, Due, Fill, Filled, Flushed, Loaded};
use crate::stage::{Opened, Purpose, QueuedSource, Reply, Stage};
use vstd::prelude::*;

verus! {

/// A track of `rate` comes out right for an output of `output_rate`: through a
/// resampler that takes its rate, or through none where the rates are the same.
pub open spec fn serves<R>(
    resampler: Option<VoxResampler<R>>,
    rate: u32,
    output_rate: u32,
) -> bool {
    match resampler {
        Some(r) => r.input_rate == rate,
        None => rate == output_rate,
    }
}

/// The current track is taken to have the channels it has, and so is the primed
/// one. With `rates`, each also has a resampler that serves it, unless these are
/// just being made anew.
pub open spec fn tuned<D, R>(deck: Deck<D, R>, rates: bool) -> bool {
    &&& deck.current is Some ==> deck.input_channels
        == deck.current->0.decoder.info.channels
    &&& deck.next is Some ==> deck.next->0.input_channels
        == deck.next->0.track.decoder.info.channels
    &&& rates && deck.stage !is Rebuild ==> {
        &&& deck.current is Some ==> serves(
            deck.resampler,
            deck.current->0.decoder.info.sample_rate,
            deck.output_rate,
        )
        &&& deck.next is Some ==> serves(
            deck.next->0.resampler,
            deck.next->0.track.decoder.info.sample_rate,
            deck.output_rate,
        )
    }
}

/// The resamplers in a reply are those that were asked for: each takes the rate of
/// the track it was made for, and none was made only where the rates are the
/// same.
pub open spec fn fitting<D, R>(deck: Deck<D, R>, reply: Reply<D, R>) -> bool {
    match reply {
        Reply::Opened(Ok(opened)) => opened.resampler matches Ok(made) ==> serves(
            made,
            opened.track.decoder.info.sample_rate,
            deck.output_rate,
        ),
        Reply::Rebuilt { next, current } => {
            &&& deck.next is Some && next is Ok ==> serves(
                next->Ok_0,
                deck.next->0.track.decoder.info.sample_rate,
                deck.output_rate,
            )
            &&& deck.current is Some && current is Ok ==> serves(
                current->Ok_0,
                deck.current->0.decoder.info.sample_rate,
                deck.output_rate,
            )
        },
        _ => true,
    }
}

// What each step of the worker keeps, from the innermost out.

proof fn lemma_conclude<D, R>(w: WorkerView<D, R>, rates: bool)
    requires
        tuned(w.deck, rates),
        w.deck.stage == Stage::Halted,
    ensures
        tuned(w.conclude().deck, rates),
{
    reveal(WorkerView::conclude);
    reveal(WorkerView::round);
    reveal(WorkerView::poll);
    reveal(WorkerView::settle);
}

proof fn lemma_emptied<D, R>(w: WorkerView<D, R>, error: VoxError, rates: bool)
    ensures
        w.stop_playback().deck == (Deck { current: None, next: None, resampler: None, ..w.deck }),
        tuned(w.fail_current(error).deck, rates),
        tuned(w.give_up().deck, rates),
{
    reveal(WorkerView::fail_current);
    reveal(WorkerView::announce_end);
    reveal(WorkerView::stop_playback);
    reveal(WorkerView::round);
}

proof fn lemma_handle_play<D, R>(w: WorkerView<D, R>, path: String, prefill: Prefill, rates: bool)
    ensures
        tuned(w.handle_play(path, prefill).deck, rates),
{
    reveal(WorkerView::handle_play);
    reveal(WorkerView::announce_end);
}

proof fn lemma_handle_seek<D, R>(w: WorkerView<D, R>, target: i64, rates: bool)
    requires
        tuned(w.deck, rates),
        w.deck.stage == Stage::Halted,
    ensures
        tuned(w.handle_seek(target).deck, rates),
        w.seek_nothing().deck == (Deck { seeked: true, ..w.deck }),
{
    reveal(WorkerView::handle_seek);
    reveal(WorkerView::reset_resampler);
    reveal(WorkerView::seek_nothing);
}

proof fn lemma_handle_command<D, R>(w: WorkerView<D, R>, command: VoxCommand, rates: bool)
    requires
        tuned(w.deck, rates),
        w.deck.stage == Stage::Halted,
    ensures
        tuned(w.handle_command(command).deck, rates),
{
    reveal(WorkerView::handle_command);
    match command {
        VoxCommand::Play(path) => lemma_handle_play(w, path, Prefill::Now, rates),
        VoxCommand::QueueNext(_) => {},
        VoxCommand::ClearNext => lemma_conclude(w.with(Deck { next: None, ..w.deck }), rates),
        VoxCommand::Seek(to) => {
            lemma_handle_seek(w, to.from_base(w.elapsed()), rates);
            lemma_conclude(w.seek_nothing(), rates);
        },
        VoxCommand::Pause => {
            reveal(WorkerView::set_paused);
            lemma_conclude(w.set_paused(true), rates);
        },
        VoxCommand::Resume => {
            reveal(WorkerView::set_paused);
            lemma_conclude(w.set_paused(false), rates);
        },
        VoxCommand::ReplayGain(mode) => {
            lemma_conclude(
                w.with(Deck { rg_mode: mode, ..w.deck }).perform(Effect::UpdateGain),
                rates,
            );
        },
        VoxCommand::Stop => {
            reveal(WorkerView::announce_end);
            let said = w.announce_end(EndReason::Interrupted);
            lemma_emptied(said, vstd::pervasive::arbitrary(), rates);
            lemma_conclude(said.stop_playback(), rates);
        },
        VoxCommand::Shutdown => {},
    }
}

proof fn lemma_proceed_to_next<D, R>(w: WorkerView<D, R>, rates: bool)
    requires
        tuned(w.deck, rates),
        w.deck.stage == Stage::Halted,
    ensures
        tuned(w.proceed_to_next().deck, rates),
{
    reveal(WorkerView::proceed_to_next);
    if w.deck.due.next is None {
        match w.deck.due.command {
            Some(command) => lemma_handle_command(
                w.with(Deck { due: Due { command: None, ..w.deck.due }, ..w.deck }),
                command,
                rates,
            ),
            None => lemma_conclude(w, rates),
        }
    }
}

proof fn lemma_proceed<D, R>(w: WorkerView<D, R>, rates: bool)
    requires
        tuned(w.deck, rates),
        w.deck.stage == Stage::Halted,
    ensures
        tuned(w.proceed().deck, rates),
{
    reveal(WorkerView::proceed);
    reveal(WorkerView::proceed_to_seek);
    match w.deck.due.play {
        Some(path) => lemma_handle_play(
            w.with(Deck { due: Due { play: None, ..w.deck.due }, ..w.deck }),
            path,
            w.deck.due.prefill,
            rates,
        ),
        None => {
            let deck = match w.deck.due.defer {
                Some(path) => Deck {
                    deferred_next: Some(path),
                    due: Due { defer: None, ..w.deck.due },
                    ..w.deck
                },
                None => w.deck,
            };
            match deck.due.seek {
                Some(target) => {
                    let sought = w.with(Deck { due: Due { seek: None, ..deck.due }, ..deck });
                    lemma_handle_seek(sought, target, rates);
                    lemma_proceed_to_next(sought.seek_nothing(), rates);
                },
                None => lemma_proceed_to_next(w.with(deck), rates),
            }
        },
    }
}

proof fn lemma_filled<D, R>(w: WorkerView<D, R>, then_do: Filled, done: usize, rates: bool)
    requires
        tuned(w.deck, rates),
        w.deck.stage == Stage::Halted,
    ensures
        tuned(w.filled(then_do).deck, rates),
        tuned(w.fill_ahead(then_do, done).deck, rates),
{
    reveal(WorkerView::filled);
    reveal(WorkerView::fill_ahead);
    let said = match (then_do, w.deck.current) {
        (Filled::TrackStart, Some(track)) => w.emit(
            crate::lifecycle::track_started(track.decoder, StartReason::Play),
        ),
        _ => w,
    };
    lemma_proceed(said.perform(Effect::FinishSeek), rates);
}

proof fn lemma_play_opened<D, R>(
    w: WorkerView<D, R>,
    prefill: Prefill,
    opened: Result<Opened<D, R>, VoxError>,
    rates: bool,
)
    requires
        w.deck.stage == Stage::Halted,
        w.deck.next is None,
        rates ==> fitting(w.deck, Reply::Opened(opened)),
    ensures
        tuned(w.play_opened(prefill, opened).deck, rates),
{
    reveal(WorkerView::play_opened);
    reveal(WorkerView::begin_track);
    reveal(WorkerView::set_paused);
    match opened {
        Err(error) => {
            let failed = w.perform(Effect::SetActive(false)).emit(
                VoxEvent::Error { error, recoverable: true },
            );
            lemma_emptied(failed, error, rates);
            lemma_proceed(failed.stop_playback().perform(Effect::FinishSeek), rates);
        },
        Ok(file) => {
            let decoder = file.track.decoder;
            let begun = w.perform(
                Effect::SetDuration(crate::lifecycle::announced_duration(decoder)),
            ).begin_track(decoder);
            let ready = begun.with(Deck { input_channels: decoder.info.channels, ..begun.deck });
            match file.resampler {
                Err(error) => lemma_emptied(ready, error, rates),
                Ok(resampler) => {
                    let playing = ready.with(
                        Deck { resampler, current: Some(file.track), ..ready.deck },
                    ).perform(Effect::UpdateGain).perform(Effect::SetActive(true)).set_paused(
                        false,
                    );
                    lemma_filled(playing, Filled::TrackStart, 0, rates);
                },
            }
        },
    }
}

proof fn lemma_next_opened<D, R>(
    w: WorkerView<D, R>,
    opened: Result<Opened<D, R>, VoxError>,
    rates: bool,
)
    requires
        tuned(w.deck, rates),
        w.deck.stage == Stage::Halted,
        rates ==> fitting(w.deck, Reply::Opened(opened)),
    ensures
        tuned(w.next_opened(opened).deck, rates),
{
    reveal(WorkerView::next_opened);
    match opened {
        Ok(Opened { track, resampler: Ok(resampler) }) => {
            let said = w.emit(
                VoxEvent::NextReady {
                    path: track.decoder.path,
                    duration: crate::lifecycle::announced_duration(track.decoder),
                    sample_rate: track.decoder.info.sample_rate,
                    channels: track.decoder.info.channels,
                },
            );
            lemma_proceed(
                said.with(
                    Deck {
                        next: Some(
                            QueuedSource {
                                track,
                                resampler,
                                input_channels: track.decoder.info.channels,
                            },
                        ),
                        ..w.deck
                    },
                ),
                rates,
            );
        },
        Ok(Opened { track, resampler: Err(error) }) => lemma_proceed(
            w.emit(VoxEvent::Error { error, recoverable: true }),
            rates,
        ),
        Err(error) => lemma_proceed(w.emit(VoxEvent::Error { error, recoverable: true }), rates),
    }
}

proof fn lemma_end<D, R>(w: WorkerView<D, R>, ended: Option<String>, rates: bool)
    requires
        w.deck.stage == Stage::Halted,
    ensures
        tuned(w.end(ended).deck, rates),
{
    reveal(WorkerView::end);
    let said = match ended {
        Some(path) => w.emit(VoxEvent::TrackEnded { path, reason: EndReason::EndOfStream }),
        None => w,
    };
    lemma_emptied(said, vstd::pervasive::arbitrary(), rates);
    lemma_proceed(said.stop_playback(), rates);
}

proof fn lemma_transition<D, R>(w: WorkerView<D, R>, rates: bool)
    requires
        tuned(w.deck, rates),
        w.deck.stage == Stage::Halted,
    ensures
        tuned(w.transition().deck, rates),
{
    reveal(WorkerView::transition);
    reveal(WorkerView::begin_track);
    match w.deck.next {
        Some(queued) => {
            let decoder = queued.track.decoder;
            let fitted = if crate::lifecycle::same_rate(w.deck.resampler, queued.resampler) {
                w
            } else {
                w.with(Deck { resampler: queued.resampler, ..w.deck }).perform(
                    Effect::ClearPending,
                )
            };
            let begun = fitted.with(Deck { next: None, ..fitted.deck }).perform(
                Effect::SetDuration(crate::lifecycle::announced_duration(decoder)),
            ).begin_track(decoder);
            lemma_proceed(
                begun.with(
                    Deck {
                        input_channels: queued.input_channels,
                        current: Some(queued.track),
                        ..begun.deck
                    },
                ).perform(Effect::UpdateGain).emit(
                    crate::lifecycle::track_started(decoder, StartReason::Gapless),
                ),
                rates,
            );
        },
        None => lemma_proceed(w, rates),
    }
}

proof fn lemma_handle_track_end<D, R>(w: WorkerView<D, R>, rates: bool)
    requires
        tuned(w.deck, rates),
        w.deck.stage == Stage::Halted,
    ensures
        tuned(w.handle_track_end().deck, rates),
{
    reveal(WorkerView::handle_track_end);
    reveal(WorkerView::reconcile_duration);
    reveal(WorkerView::announce_end);
    let over = w.reconcile_duration().perform(Effect::ResetSamples);
    assert(over.deck == w.deck);
    let ended = match w.deck.current {
        Some(track) => Some(track.decoder.path),
        None => None,
    };
    let said = over.announce_end(EndReason::EndOfStream);
    lemma_transition(said.with(Deck { current: None, ..said.deck }), rates);
    lemma_end(over.with(Deck { current: None, ..over.deck }), ended, rates);
}

proof fn lemma_rebuilt<D, R>(
    w: WorkerView<D, R>,
    resume_at: i64,
    next: Result<Option<VoxResampler<R>>, VoxError>,
    current: Result<Option<VoxResampler<R>>, VoxError>,
    rates: bool,
)
    requires
        tuned(w.deck, false),
        w.deck.stage == Stage::Halted,
        rates ==> fitting(w.deck, Reply::Rebuilt { next, current }),
    ensures
        tuned(w.rebuilt(resume_at, next, current).deck, rates),
{
    reveal(WorkerView::rebuilt);
    let fitted = match (w.deck.next, next) {
        (Some(queued), Ok(resampler)) => w.with(
            Deck { next: Some(QueuedSource { resampler, ..queued }), ..w.deck },
        ),
        _ => w,
    };
    if w.deck.next is Some && next is Err {
        lemma_emptied(w, next->Err_0, rates);
    } else if w.deck.current is None {
        lemma_proceed(fitted, rates);
    } else {
        match current {
            Err(error) => lemma_emptied(fitted, error, rates),
            Ok(resampler) => lemma_handle_seek(
                fitted.with(Deck { resampler, ..fitted.deck }),
                resume_at,
                rates,
            ),
        }
    }
}

proof fn lemma_resumed<D, R>(w: WorkerView<D, R>, reply: Reply<D, R>, rates: bool)
    requires
        tuned(w.deck, rates),
        answers(w.deck.stage, reply),
        w.deck.stage matches Stage::Open { purpose: Purpose::Play(_), .. } ==> w.deck.next is None,
        rates ==> fitting(w.deck, reply),
    ensures
        tuned(w.resumed(reply).deck, rates),
{
    reveal(WorkerView::resumed);
    let h = w.at(Stage::Halted);
    match (w.deck.stage, reply) {
        (Stage::Idle, Reply::Command(_)) => {
            reveal(WorkerView::idle_command);
        },
        (Stage::Idle, Reply::Quiet) => {
            reveal(WorkerView::idle_quiet);
        },
        (Stage::Poll, Reply::Command(command)) => {
            reveal(WorkerView::polled);
            lemma_proceed(
                h.with(
                    Deck {
                        due: Due::interrupted(h.deck.batch, command),
                        batch: Batch::none(),
                        ..h.deck
                    },
                ),
                rates,
            );
        },
        (Stage::Poll, Reply::Quiet) => {
            reveal(WorkerView::polled_quiet);
            lemma_proceed(
                h.with(Deck { due: Due::finished(h.deck.batch), batch: Batch::none(), ..h.deck }),
                rates,
            );
        },
        (Stage::Rebind, Reply::Bound(format)) => {
            reveal(WorkerView::bound);
            match format {
                None => lemma_proceed(h, rates),
                Some((rate, channels)) => {
                    if h.deck.current is None && h.deck.next is None {
                        lemma_proceed(
                            h.with(
                                Deck { output_rate: rate, output_channels: channels, ..h.deck },
                            ).perform(Effect::ClearPending),
                            rates,
                        );
                    }
                },
            }
        },
        (Stage::Rebuild { resume_at }, Reply::Rebuilt { next, current }) => lemma_rebuilt(
            h,
            resume_at,
            next,
            current,
            rates,
        ),
        (Stage::Open { path: _, purpose: Purpose::Play(prefill) }, Reply::Opened(opened)) =>
        lemma_play_opened(h, prefill, opened, rates),
        (Stage::Open { path: _, purpose: Purpose::Next }, Reply::Opened(opened)) =>
        lemma_next_opened(h, opened, rates),
        (Stage::Drain(then_do), Reply::Drained) => {
            reveal(WorkerView::drained);
            lemma_handle_track_end(h.perform(Effect::FinishSeek), rates);
            if let Drained::Fill(filled) = then_do {
                lemma_filled(h, filled, 0, rates);
            }
        },
        (Stage::Decode(fill), Reply::Packet(packet)) => {
            reveal(WorkerView::packet);
            match (packet, fill) {
                (Err(error), _) => lemma_emptied(h, error, rates),
                (Ok(Some(_)), _) => {},
                (Ok(None), Fill::Playback) => lemma_handle_track_end(h, rates),
                (Ok(None), Fill::Ahead { then_do, done }) => lemma_filled(h, then_do, done, rates),
            }
        },
        (Stage::Deliver { samples: _, fill }, Reply::Delivered(written)) => {
            reveal(WorkerView::delivered);
            match (written, fill) {
                (Err(error), _) => lemma_emptied(h, error, rates),
                (Ok(_), Fill::Playback) => lemma_proceed(h, rates),
                (Ok(n), Fill::Ahead { then_do, done }) => {
                    let sum = if done + n > usize::MAX {
                        usize::MAX
                    } else {
                        (done + n) as usize
                    };
                    lemma_filled(h, then_do, sum, rates);
                },
            }
        },
        (Stage::Seek(_), Reply::Landed(landing)) => {
            reveal(WorkerView::landed);
            match landing {
                Ok(_) => lemma_proceed(h.perform(Effect::FinishSeek), rates),
                Err(error) => lemma_handle_track_end(
                    h.emit(VoxEvent::Error { error, recoverable: true }).perform(
                        Effect::FinishSeek,
                    ),
                    rates,
                ),
            }
        },
        (Stage::Skip { frames: _, landing: _ }, Reply::Skipped(skipped)) => {
            reveal(WorkerView::skipped);
            reveal(WorkerView::reset_resampler);
            if let Err(error) = skipped {
                lemma_emptied(h, error, rates);
            }
        },
        (Stage::Flush(then_do), Reply::Flushed(outcome)) => {
            reveal(WorkerView::flushed);
            match (outcome, then_do) {
                (Err(error), Flushed::End(Some(path))) => lemma_emptied(
                    h.emit(VoxEvent::Error { error, recoverable: false }).emit(
                        VoxEvent::TrackEnded { path, reason: EndReason::Failed },
                    ),
                    error,
                    rates,
                ),
                (Err(error), _) => lemma_emptied(h, error, rates),
                (Ok(_), Flushed::End(ended)) => lemma_end(h, ended, rates),
                (Ok(_), Flushed::Handoff) => lemma_transition(h, rates),
            }
        },
        (Stage::Park, Reply::Woken) => {
            reveal(WorkerView::round);
        },
        _ => {},
    }
}

/// With nothing loaded and nothing primed there is nothing to be tuned to.
pub proof fn starts_tuned<D, R>(w: WorkerView<D, R>, rates: bool)
    requires
        w.deck.current is None,
        w.deck.next is None,
    ensures
        tuned(w.deck, rates),
{
}

/// Whenever a track is current, its samples are taken to have the channels that
/// the track has, whatever the worker is told and whatever played before it. The
/// same holds of the primed track from the moment it is primed.
pub proof fn channels_are_the_tracks_own<D, R>(w: WorkerView<D, R>, reply: Reply<D, R>)
    requires
        tuned(w.deck, false),
        answers(w.deck.stage, reply),
        w.deck.stage matches Stage::Open { purpose: Purpose::Play(_), .. } ==> w.deck.next is None,
    ensures
        tuned(w.resumed(reply).deck, false),
        w.resumed(reply).deck.current matches Some(track) ==> w.resumed(reply).deck.input_channels
            == track.decoder.info.channels,
{
    lemma_resumed(w, reply, false);
}

/// As long as the resamplers that are handed in are those that were asked for, the
/// current track plays through one that takes its own rate, or through none where
/// its rate is that of the output: after a play, a handover, a seek, and a change
/// of the output alike.
pub proof fn rates_are_the_tracks_own<D, R>(w: WorkerView<D, R>, reply: Reply<D, R>)
    requires
        tuned(w.deck, true),
        answers(w.deck.stage, reply),
        fitting(w.deck, reply),
        w.deck.stage matches Stage::Open { purpose: Purpose::Play(_), .. } ==> w.deck.next is None,
    ensures
        tuned(w.resumed(reply).deck, true),
        ({
            let after = w.resumed(reply).deck;
            after.current is Some && after.stage !is Rebuild ==> match after.resampler {
                Some(r) => r.input_rate == after.current->0.decoder.info.sample_rate,
                None => after.current->0.decoder.info.sample_rate == after.output_rate,
            }
        }),
{
    lemma_resumed(w, reply, true);
}

/// The worker once its track is over, and the resampler flushed where it had to
/// be.
pub open spec fn after_end<D, R>(w: WorkerView<D, R>) -> WorkerView<D, R> {
    let over = w.handle_track_end();
    if over.deck.stage is Flush {
        over.resumed(Reply::Flushed(Ok(())))
    } else {
        over
    }
}

/// When a track ends with another one primed, that one is current at once: with
/// its own channels, and through a resampler that takes the rate of its own. The
/// old resampler is flushed first exactly where it cannot go on with the new
/// track, because that has another rate or needs none; where it can, it stays as
/// it is, so that nothing of what it holds is lost.
#[verifier::rlimit(40)]
pub proof fn next_track_plays_at_its_own_rate<D, R>(
    w: WorkerView<D, R>,
    track: Loaded<D>,
    queued: QueuedSource<D, R>,
)
    requires
        at_rest(w),
        w.deck.current == Some(track),
        w.deck.next == Some(queued),
    ensures
        ({
            let over = w.handle_track_end();
            let must_flush = w.deck.resampler is Some && (queued.resampler is None
                || queued.resampler->0.input_rate != w.deck.resampler->0.input_rate);
            &&& over.deck.stage == Stage::Flush(Flushed::Handoff) <==> must_flush
            &&& over.deck.stage is Flush <==> must_flush
        }),
        ({
            let after = after_end(w);
            &&& after.deck.current == Some(queued.track)
            &&& after.deck.next is None
            &&& after.deck.input_channels == queued.input_channels
            &&& match queued.resampler {
                Some(b) => after.deck.resampler is Some && after.deck.resampler->0.input_rate
                    == b.input_rate,
                None => after.deck.resampler is None,
            }
            &&& w.deck.resampler is Some && queued.resampler is Some
                && w.deck.resampler->0.input_rate == queued.resampler->0.input_rate
                ==> after.deck.resampler == w.deck.resampler
            &&& w.deck.resampler is None || queued.resampler is None
                || w.deck.resampler->0.input_rate != queued.resampler->0.input_rate
                ==> after.deck.resampler == queued.resampler
            &&& after.state.samples_played == 0
            &&& after.state.active == w.state.active
        }),
{
    lemma_over(w, track);
    let handing = handed(w);
    lemma_flush_done(handing, Flushed::Handoff);
    lemma_handover(handing, queued);
    lemma_taken_over(handing, queued);
}

/// The worker with its track over and said to be, before the primed one takes
/// its place.
pub(crate) open spec fn handed<D, R>(w: WorkerView<D, R>) -> WorkerView<D, R> {
    let said = w.reconcile_duration().perform(Effect::ResetSamples).announce_end(
        EndReason::EndOfStream,
    );
    said.with(Deck { current: None, ..said.deck })
}

/// The end of a track, up to where a flush may come in between.
pub(crate) proof fn lemma_over<D, R>(w: WorkerView<D, R>, track: Loaded<D>)
    requires
        at_rest(w),
        w.deck.current == Some(track),
    ensures
        at_rest(handed(w)),
        handed(w).deck == (Deck { current: None, ..w.deck }),
        handed(w).state.samples_played == 0,
        handed(w).state.active == w.state.active,
        w.deck.next matches Some(queued) ==> w.handle_track_end() == if w.deck.resampler is Some
            && !crate::lifecycle::same_rate(w.deck.resampler, queued.resampler) {
            handed(w).at(Stage::Flush(Flushed::Handoff))
        } else {
            handed(w).transition()
        },
{
    reveal(WorkerView::handle_track_end);
    reveal(WorkerView::reconcile_duration);
    reveal(WorkerView::announce_end);
}

/// A handover leaves the position alone, and takes the channels of the primed
/// track.
#[verifier::rlimit(40)]
proof fn lemma_taken_over<D, R>(w: WorkerView<D, R>, queued: QueuedSource<D, R>)
    requires
        at_rest(w),
        w.deck.next == Some(queued),
    ensures
        w.transition().deck.input_channels == queued.input_channels,
        w.transition().state.samples_played == w.state.samples_played,
{
    reveal(WorkerView::transition);
    reveal(WorkerView::begin_track);
    reveal(WorkerView::proceed);
    reveal(WorkerView::proceed_to_seek);
    reveal(WorkerView::proceed_to_next);
    reveal(WorkerView::conclude);
    reveal(WorkerView::round);
}

} // verus!
