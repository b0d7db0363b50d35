//! What a seek does, from the command to the first sample at the new position:
//! laws over the lengths, rates and positions themselves.

use crate::command::{SeekPosition, VoxCommand};
use crate::decoder::{Codec, Landing};
use crate::effect::Effect;
use crate::error::VoxError;
use crate::event::VoxEvent;
use crate::lifecycle::WorkerView;
use crate::stage::{Drained, Fill, Filled, Goal, Loaded, Reply, Stage};
use crate::state::SharedState;
use crate::timing::{lemma_quotient, position_is_whole_micros};
use vstd::prelude::*;

verus! {

/// A seek ends a track of `frames` frames at `rate` frames a second exactly where
/// its target lies at or beyond the end of the last frame; every target before
/// that is sought, and one before the start means the start. A track of unknown
/// length is never left by a seek.
pub proof fn seek_goes_by_the_tracks_own_length<D, R>(
    w: WorkerView<D, R>,
    track: Loaded<D>,
    target: i64,
    frames: u64,
    rate: u32,
)
    requires
        w.deck.current == Some(track),
        track.decoder.info.sample_rate == rate,
        rate > 0,
    ensures
        track.decoder.info.n_frames == Some(frames) ==> {
            let stage = w.handle_seek(target).deck.stage;
            &&& stage == Stage::Drain(Drained::PastEnd) <==> target * rate >= frames * 1_000_000
            &&& 0 <= target && target * rate < frames * 1_000_000 ==> stage == Stage::Seek(
                target as u64,
            )
            &&& target < 0 ==> stage == Stage::Seek(0)
        },
        track.decoder.info.n_frames is None ==> w.handle_seek(target).deck.stage == Stage::Seek(
            if target < 0 {
                0
            } else {
                target as u64
            },
        ),
{
    reveal(WorkerView::handle_seek);
    reveal(WorkerView::reset_resampler);
    if target < 0 {
        assert(target * rate < 0) by (nonlinear_arith)
            requires
                target < 0,
                rate > 0,
        ;
    }
}

/// Starting a seek mutes the output under a fresh seek epoch, and neither the
/// track nor what follows it is touched. What is still waiting to be converted is
/// dropped at once only where the track is left.
pub proof fn seek_mutes_before_it_moves<D, R>(w: WorkerView<D, R>, track: Loaded<D>, target: i64)
    requires
        w.deck.current == Some(track),
    ensures
        ({
            let after = w.handle_seek(target);
            &&& after.state == (SharedState {
                seek_pending: true,
                seek_epoch: w.state.seek_epoch.wrapping_add(1),
                ..w.state
            })
            &&& after.deck.current == w.deck.current
            &&& after.deck.next == w.deck.next
            &&& after.deck.resampler == w.deck.resampler
            &&& after.deck.seeked
            &&& after.deck.stage is Seek ==> after.outbox == w.outbox.push(Effect::StartSeek)
            &&& after.deck.stage is Drain ==> after.outbox == w.outbox + seq![
                Effect::StartSeek,
                Effect::ClearPending,
            ] + (if w.deck.resampler is Some {
                seq![Effect::ResetResampler]
            } else {
                Seq::empty()
            })
        }),
{
    reveal(WorkerView::handle_seek);
    reveal(WorkerView::reset_resampler);
    let after = w.handle_seek(target);
    if after.deck.stage is Drain {
        assert(after.outbox =~= w.outbox + seq![Effect::StartSeek, Effect::ClearPending] + (
        if w.deck.resampler is Some {
            seq![Effect::ResetResampler]
        } else {
            Seq::empty()
        }));
    }
}

/// An absolute seek goes to the position it names. A relative one goes where the
/// absolute seek to the sum of the current position and the distance goes, the
/// position being the whole microseconds of output that have been played.
pub proof fn relative_seek_counts_from_the_position<D, R>(
    w: WorkerView<D, R>,
    position: nat,
    to: i64,
    by: i64,
)
    requires
        w.deck.current is Some,
        w.deck.output_rate > 0,
        w.deck.output_channels > 0,
        position * w.deck.output_rate * w.deck.output_channels <= w.state.samples_played
            * 1_000_000,
        w.state.samples_played * 1_000_000 < (position + 1) * w.deck.output_rate
            * w.deck.output_channels,
        position <= i64::MAX,
        i64::MIN <= position + by <= i64::MAX,
    ensures
        w.handle_command(VoxCommand::Seek(SeekPosition::Absolute(to))) == w.handle_seek(to),
        w.handle_command(VoxCommand::Seek(SeekPosition::Relative(by))) == w.handle_seek(
            (position + by) as i64,
        ),
{
    reveal(WorkerView::handle_command);
    position_is_whole_micros(
        w.state.samples_played as nat,
        w.deck.output_rate as nat,
        w.deck.output_channels as nat,
        position,
    );
}

/// After a seek has landed, a codec decodes for nothing what it needs to
/// reconverge: at least its pre-roll and, where it is lossy, a fiftieth of a
/// second; but no more than the larger of the two. A decoder that was not thrown
/// to the position skips nothing.
pub proof fn landing_is_followed_by_a_warm_up<D, R>(
    w: WorkerView<D, R>,
    track: Loaded<D>,
    landing: Landing,
    frames: u64,
)
    requires
        w.deck.current == Some(track),
        w.landed(Ok(landing)).deck.stage == (Stage::Skip { frames, landing }),
    ensures
        !landing.needs_warmup ==> frames == 0,
        landing.needs_warmup ==> {
            let lossy = track.decoder.info.codec != Codec::Other;
            &&& frames >= track.decoder.seek_preroll_frames
            &&& lossy ==> (frames + 1) * 50 > track.decoder.info.sample_rate
            &&& frames == track.decoder.seek_preroll_frames || lossy && frames * 50
                <= track.decoder.info.sample_rate
        },
{
    reveal(WorkerView::landed);
}

/// A seek that has landed goes on to the warm-up, whatever it landed on; nothing
/// is announced of it, and no effect comes of it yet.
pub proof fn landing_is_kept<D, R>(w: WorkerView<D, R>, landing: Landing)
    requires
        w.deck.current is Some,
    ensures
        w.landed(Ok(landing)).deck.stage is Skip,
        w.landed(Ok(landing)).deck.stage->Skip_landing == landing,
        w.landed(Ok(landing)).outbox == w.outbox,
        w.landed(Ok(landing)).state == w.state,
{
    reveal(WorkerView::landed);
}

/// The position after a seek is that of the first frame that will be heard: the
/// landing and the frames skipped after it, together, in whole output samples.
/// What lies before the start counts as the start. All that is left of the old
/// position is dropped first.
pub proof fn position_follows_the_landing<D, R>(
    w: WorkerView<D, R>,
    track: Loaded<D>,
    landing: Landing,
    frames: u64,
    samples: nat,
)
    requires
        w.deck.current == Some(track),
        track.decoder.info.sample_rate > 0,
        landing.per_second > 0,
    ensures
        ({
            let after = w.skipped(landing, Ok(frames));
            let rate = track.decoder.info.sample_rate as int;
            let per = landing.per_second as int;
            let speed = w.deck.output_rate * w.deck.output_channels;
            let time = landing.units * rate + frames * per;
            &&& after.deck.stage == Stage::Drain(Drained::Fill(Filled::Seek))
            &&& after.outbox == w.outbox + seq![Effect::ClearPending] + (
            if w.deck.resampler is Some {
                seq![Effect::ResetResampler]
            } else {
                Seq::empty()
            }) + seq![Effect::SetSamples(after.state.samples_played)]
            &&& time <= 0 ==> after.state.samples_played == 0
            &&& time > 0 && samples <= u64::MAX && samples * (per * rate) <= time * speed && time
                * speed < (samples + 1) * (per * rate) ==> after.state.samples_played == samples
        }),
{
    reveal(WorkerView::skipped);
    reveal(WorkerView::position_after);
    reveal(WorkerView::reset_resampler);
    let after = w.skipped(landing, Ok(frames));
    let rate = track.decoder.info.sample_rate as int;
    let per = landing.per_second as int;
    let speed = w.deck.output_rate * w.deck.output_channels;
    let time = landing.units * rate + frames * per;
    assert(per * rate > 0) by (nonlinear_arith)
        requires
            per > 0,
            rate > 0,
    ;
    assert(after.outbox =~= w.outbox + seq![Effect::ClearPending] + (
    if w.deck.resampler is Some {
        seq![Effect::ResetResampler]
    } else {
        Seq::empty()
    }) + seq![Effect::SetSamples(after.state.samples_played)]);
    if samples * (per * rate) <= time * speed && time * speed < (samples + 1) * (per * rate) {
        lemma_quotient(time * speed, per * rate, samples as int);
    }
}

/// Before playback goes on, the ring is filled with a twenty-fifth of a second of
/// output: another packet is decoded exactly as long as a sample of that is
/// missing. Then the seek is over.
pub proof fn ring_is_filled_before_playback<D, R>(
    w: WorkerView<D, R>,
    then_do: Filled,
    done: usize,
)
    requires
        w.deck.current is Some,
        w.deck.output_rate * w.deck.output_channels / 25 <= u64::MAX,
    ensures
        (done + 1) * 25 <= w.deck.output_rate * w.deck.output_channels ==> w.fill_ahead(
            then_do,
            done,
        ).deck.stage == Stage::Decode(Fill::Ahead { then_do, done }) && w.fill_ahead(
            then_do,
            done,
        ).outbox == w.outbox,
        (done + 1) * 25 > w.deck.output_rate * w.deck.output_channels ==> w.fill_ahead(
            then_do,
            done,
        ) == w.filled(then_do),
{
    reveal(WorkerView::fill_ahead);
    let speed = w.deck.output_rate * w.deck.output_channels;
    assert(0 <= speed) by (nonlinear_arith)
        requires
            speed == w.deck.output_rate * w.deck.output_channels,
            0 <= w.deck.output_rate,
            0 <= w.deck.output_channels,
    ;
    assert(speed * 40 / 1000 == speed / 25);
}

/// What is written while the ring is being filled adds up; what the filling is
/// for stays what it was.
pub proof fn filling_counts_what_is_written<D, R>(
    w: WorkerView<D, R>,
    then_do: Filled,
    done: usize,
    more: usize,
)
    requires
        done + more <= usize::MAX,
    ensures
        w.delivered(Fill::Ahead { then_do, done }, Ok(more)) == w.fill_ahead(
            then_do,
            (done + more) as usize,
        ),
        w.drained(Drained::Fill(then_do)) == w.fill_ahead(then_do, 0),
{
    reveal(WorkerView::delivered);
    reveal(WorkerView::drained);
}

/// A packet is delivered as it was decoded, for what it was decoded for.
pub proof fn packets_are_delivered_as_decoded<D, R>(
    w: WorkerView<D, R>,
    fill: Fill,
    samples: Vec<u32>,
)
    ensures
        ({
            let after = w.at(Stage::Decode(fill)).resumed(Reply::Packet(Ok(Some(samples))));
            &&& after.deck.stage == Stage::Deliver { samples, fill }
            &&& after.outbox == w.outbox
            &&& after.deck.current == w.deck.current
        }),
{
    reveal(WorkerView::resumed);
    reveal(WorkerView::packet);
}

/// A seek that could not be made is announced as an error the engine survives,
/// the seek is over, and the track ends as if it had played out.
pub proof fn failed_seek_ends_the_track<D, R>(w: WorkerView<D, R>, error: VoxError)
    ensures
        ({
            let told = WorkerView {
                state: SharedState { seek_pending: false, ..w.state },
                outbox: w.outbox + seq![
                    Effect::Emit(VoxEvent::Error { error, recoverable: true }),
                    Effect::FinishSeek,
                ],
                ..w
            };
            w.landed(Err(error)) == told.handle_track_end()
        }),
{
    reveal(WorkerView::landed);
    let told = WorkerView {
        state: SharedState { seek_pending: false, ..w.state },
        outbox: w.outbox + seq![
            Effect::Emit(VoxEvent::Error { error, recoverable: true }),
            Effect::FinishSeek,
        ],
        ..w
    };
    assert(w.emit(VoxEvent::Error { error, recoverable: true }).perform(Effect::FinishSeek)
        =~= told);
}

/// A seek is made of its parts in order, each the answer to the one before: the
/// jump, the warm-up, the drain, and the filling of the ring.
pub proof fn seek_goes_through_its_parts<D, R>(
    w: WorkerView<D, R>,
    target: u64,
    landing: Landing,
    frames: u64,
    skipped: u64,
)
    requires
        w.deck.stage == Stage::Halted,
    ensures
        w.at(Stage::Seek(target)).resumed(Reply::Landed(Ok(landing))) == w.landed(Ok(landing)),
        w.at(Stage::Skip { frames, landing }).resumed(Reply::Skipped(Ok(skipped))) == w.skipped(
            landing,
            Ok(skipped),
        ),
        w.at(Stage::Drain(Drained::Fill(Filled::Seek))).resumed(Reply::Drained)
            == w.fill_ahead(Filled::Seek, 0),
{
    reveal(WorkerView::resumed);
    reveal(WorkerView::drained);
    assert(w.at(Stage::Seek(target)).at(Stage::Halted) =~= w);
    assert(w.at(Stage::Skip { frames, landing }).at(Stage::Halted) =~= w);
    assert(w.at(Stage::Drain(Drained::Fill(Filled::Seek))).at(Stage::Halted) =~= w);
}

/// Once the ring is filled for a seek, the output is unmuted, and nothing is
/// announced of it: with nothing else due, playback goes on where the worker was
/// headed.
pub proof fn filled_ring_ends_the_seek<D, R>(w: WorkerView<D, R>)
    requires
        w.deck.current is Some,
        w.deck.due.play is None,
        w.deck.due.defer is None,
        w.deck.due.seek is None,
        w.deck.due.next is None,
        w.deck.due.command is None,
        w.deck.due.goal == Goal::Settle,
        !w.state.paused,
        !w.state.rebuilding,
    ensures
        ({
            let after = w.filled(Filled::Seek);
            &&& after.outbox == w.outbox.push(Effect::FinishSeek)
            &&& !after.state.seek_pending
            &&& after.state.samples_played == w.state.samples_played
            &&& after.deck.stage == Stage::Decode(Fill::Playback)
        }),
{
    reveal(WorkerView::filled);
    reveal(WorkerView::proceed);
    reveal(WorkerView::proceed_to_seek);
    reveal(WorkerView::proceed_to_next);
    reveal(WorkerView::conclude);
    reveal(WorkerView::settle);
}

} // verus!
