//! The decoder worker.
//!
//! The worker is a state machine. Its [`Stage`] says what it waits for; the
//! outside does that and answers with a [`Reply`]; [`VoxWorker::resume`] takes
//! the reply, leaves the resulting [`Effect`]s in the outbox and moves on to the
//! next stage. An open file's reader and codec (`D`) and a resampler's engine
//! (`R`) are carried along unopened.

use crate::channel::{arrived_bindings, heard_bindings, heard_commands, next_command, Received};
use crate::command::{seek_prefill, Batch, Prefill, VoxCommand};
use crate::decoder::{Codec, Landing, VoxDecoder};
use crate::effect::Effect;
use crate::error::VoxError;
use crate::event::{EndReason, StartReason, VoxEvent};
use crate::feed::Feed;
use crate::lifecycle::{announced_duration, past_end, prefill_target, resume_position, same_rate};
use crate::lifecycle::{track_started, warmup_frames, WorkerView};
use crate::output::AudioBinding;
use crate::replaygain::{ReplayGainMode, UNITY};
use crate::resampler::VoxResampler;
use crate::scan::publish_correction;
use crate::stage::{answers, Deck, Drained, Due, Fill, Filled, Flushed, Goal};
use crate::stage::{Opened, Purpose, QueuedSource, Reply, Stage};
use crate::stage::{SEEK_POST_SKIP_MS, SEEK_PREFILL_MS};
use crate::state::SharedState;
use crate::timing::{frames_to_micros, rescale, samples_to_micros, MICROS};
use crossbeam_channel::Receiver;
use vstd::prelude::*;

verus! {

/// The decoder worker.
pub struct VoxWorker<D, R> {
    pub deck: Deck<D, R>,
    /// The shared state as the worker last saw it.
    pub state: SharedState,
    /// Effects to be carried out, oldest first.
    pub outbox: Vec<Effect>,
}

impl<D, R> View for VoxWorker<D, R> {
    type V = WorkerView<D, R>;

    open spec fn view(&self) -> WorkerView<D, R> {
        WorkerView { deck: self.deck, state: self.state, outbox: self.outbox@ }
    }
}

/// The format of the newest output binding of those that have come.
pub open spec fn newest_format(arrived: Seq<AudioBinding>) -> Option<(u32, usize)> {
    if arrived.len() == 0 {
        None
    } else {
        Some((arrived.last().output_rate, arrived.last().output_channels))
    }
}

/// What the worker is told of a look at the channel of commands.
pub open spec fn as_reply<D, R>(received: Received<VoxCommand>) -> Reply<D, R> {
    match received {
        Received::Message(command) => Reply::Command(command),
        Received::Empty => Reply::Quiet,
        Received::Disconnected => Reply::Disconnected,
    }
}

/// The feed goes on with the ring of the newest of the bindings that have come,
/// if any has.
pub open spec fn feed_adopts(before: Feed, arrived: Seq<AudioBinding>, after: Feed) -> bool {
    if arrived.len() == 0 {
        after == before
    } else {
        after.producer == arrived.last().producer && after.pending@ == Seq::<u32>::empty()
    }
}

/// See [`Due::nothing`].
fn due_nothing(goal: Goal) -> (due: Due)
    ensures
        due == Due::nothing(goal),
{
    Due {
        play: None,
        prefill: Prefill::Now,
        defer: None,
        seek: None,
        next: None,
        command: None,
        goal,
    }
}

/// See [`same_rate`].
fn is_same_rate<R>(current: &Option<VoxResampler<R>>, next: &Option<VoxResampler<R>>) -> (same:
    bool)
    ensures
        same == same_rate(*current, *next),
{
    match (current, next) {
        (Some(a), Some(b)) => a.input_rate() == b.input_rate(),
        (None, None) => true,
        _ => false,
    }
}

/// See [`past_end`].
fn is_past_end(target: i64, decoder: &VoxDecoder) -> (past: bool)
    ensures
        past == past_end(target, *decoder),
{
    match decoder.info.n_frames {
        Some(frames) => {
            let rate: u32 = if decoder.info.sample_rate == 0 {
                1
            } else {
                decoder.info.sample_rate
            };
            if target < 0 {
                assert(target * rate < 0) by (nonlinear_arith)
                    requires
                        target < 0,
                        rate > 0,
                ;
                return false;
            }
            assert(0 <= target * rate <= u128::MAX) by (nonlinear_arith)
                requires
                    0 <= target <= i64::MAX,
                    0 <= rate <= u32::MAX,
            ;
            target as u128 * rate as u128 >= frames as u128 * MICROS as u128
        },
        None => false,
    }
}

/// See [`resume_position`].
fn position_of(
    landing: Landing,
    frames: u64,
    input_rate: u32,
    output_rate: u32,
    output_channels: usize,
) -> (samples: u64)
    ensures
        samples == resume_position(landing, frames, input_rate, output_rate, output_channels),
{
    let rate: u32 = if input_rate == 0 {
        1
    } else {
        input_rate
    };
    let per: u32 = if landing.per_second == 0 {
        1
    } else {
        landing.per_second
    };
    assert(-0x8000_0000_0000_0000 * 0xffff_ffff <= landing.units * rate <= 0x8000_0000_0000_0000
        * 0xffff_ffff) by (nonlinear_arith)
        requires
            -0x8000_0000_0000_0000 <= landing.units <= 0x8000_0000_0000_0000,
            0 < rate <= 0xffff_ffff,
    ;
    assert(0 <= frames * per <= 0xffff_ffff_ffff_ffff * 0xffff_ffff) by (nonlinear_arith)
        requires
            0 <= frames <= 0xffff_ffff_ffff_ffff,
            0 < per <= 0xffff_ffff,
    ;
    assert(0 < per * rate <= 0xffff_ffff * 0xffff_ffff) by (nonlinear_arith)
        requires
            0 < rate <= 0xffff_ffff,
            0 < per <= 0xffff_ffff,
    ;
    assert(0 <= output_rate * output_channels <= u128::MAX) by (nonlinear_arith)
        requires
            0 <= output_rate <= 0xffff_ffff,
            0 <= output_channels <= 0xffff_ffff_ffff_ffff,
    ;
    let time: i128 = landing.units as i128 * rate as i128 + frames as i128 * per as i128;
    if time <= 0 {
        return 0;
    }
    let per_second: u128 = output_rate as u128 * output_channels as u128;
    rescale(time as u128, per_second, per as u128 * rate as u128)
}

/// See [`warmup_frames`].
fn frames_to_skip(decoder: &VoxDecoder, landing: Landing) -> (frames: u64)
    ensures
        frames == warmup_frames(*decoder, landing),
{
    if !landing.needs_warmup {
        return 0;
    }
    let packet: u64 = match decoder.info.codec {
        Codec::Other => 0,
        _ => decoder.info.sample_rate as u64 * SEEK_POST_SKIP_MS / 1000,
    };
    let preroll: u64 = decoder.seek_preroll_frames();
    if packet > preroll {
        packet
    } else {
        preroll
    }
}

/// See [`prefill_target`].
fn samples_to_fill(rate: u32, channels: usize) -> (samples: u64)
    ensures
        samples == prefill_target(rate, channels),
{
    assert(0 <= rate * channels <= 0xffff_ffff * 0xffff_ffff_ffff_ffff) by (nonlinear_arith)
        requires
            0 <= rate <= 0xffff_ffff,
            0 <= channels <= 0xffff_ffff_ffff_ffff,
    ;
    let samples: u128 = rate as u128 * channels as u128 * SEEK_PREFILL_MS as u128 / 1000;
    if samples > u64::MAX as u128 {
        u64::MAX
    } else {
        samples as u64
    }
}

/// See [`announced_duration`].
fn duration_to_announce(decoder: &VoxDecoder) -> (micros: u64)
    ensures
        micros == announced_duration(*decoder),
{
    match decoder.playable_duration() {
        Some(micros) => micros,
        None => 0,
    }
}

impl<D, R> VoxWorker<D, R> {
    /// A worker with nothing loaded, for an output of this format.
    pub fn new(output_rate: u32, output_channels: usize) -> (worker: Self)
        ensures
            worker.deck == (Deck::<D, R> {
                output_rate,
                output_channels,
                current: None,
                next: None,
                resampler: None,
                input_channels: 2,
                deferred_next: None,
                rg_mode: ReplayGainMode::Off,
                seeked: false,
                batch: Batch::none(),
                due: Due::nothing(Goal::Round),
                stage: Stage::Idle,
            }),
            worker.state == SharedState::initial(),
            worker.outbox@ == Seq::<Effect>::empty(),
    {
        VoxWorker {
            deck: Deck {
                output_rate,
                output_channels,
                current: None,
                next: None,
                resampler: None,
                input_channels: 2,
                deferred_next: None,
                rg_mode: ReplayGainMode::default(),
                seeked: false,
                batch: Batch::new(),
                due: due_nothing(Goal::Round),
                stage: Stage::Idle,
            },
            state: SharedState::default(),
            outbox: Vec::new(),
        }
    }

    /// See [`WorkerView::perform`].
    fn perform(&mut self, effect: Effect)
        ensures
            final(self)@ == old(self)@.perform(effect),
    {
        self.state.apply(&effect);
        self.outbox.push(effect);
    }

    /// See [`WorkerView::emit`].
    fn emit(&mut self, event: VoxEvent)
        ensures
            final(self)@ == old(self)@.emit(event),
    {
        self.perform(Effect::Emit(event));
    }

    /// See [`WorkerView::elapsed`].
    fn get_elapsed(&self) -> (micros: i64)
        ensures
            micros == self@.elapsed(),
    {
        let micros: u64 = samples_to_micros(
            self.state.get_samples(),
            self.deck.output_rate,
            self.deck.output_channels,
        );
        if micros > i64::MAX as u64 {
            i64::MAX
        } else {
            micros as i64
        }
    }

    /// See [`WorkerView::set_paused`].
    fn set_paused(&mut self, paused: bool)
        ensures
            final(self)@ == old(self)@.set_paused(paused),
    {
        proof {
            reveal(WorkerView::set_paused);
        }
        if self.state.is_paused() != paused {
            self.perform(Effect::SetPaused(paused));
            self.emit(VoxEvent::StateChanged { paused });
        }
    }

    /// See [`WorkerView::begin_track`].
    fn begin_track(&mut self, decoder: &VoxDecoder)
        ensures
            final(self)@ == old(self)@.begin_track(*decoder),
    {
        proof {
            reveal(WorkerView::begin_track);
        }
        self.deck.seeked = false;
        self.perform(Effect::BumpTrackEpoch);
        if decoder.duration_estimated() {
            let epoch: u64 = self.state.track_epoch();
            self.perform(Effect::Scan { path: decoder.path.clone(), epoch });
        }
    }

    /// See [`WorkerView::reset_resampler`].
    fn reset_resampler(&mut self)
        ensures
            final(self)@ == old(self)@.reset_resampler(),
    {
        proof {
            reveal(WorkerView::reset_resampler);
        }
        if self.deck.resampler.is_some() {
            self.perform(Effect::ResetResampler);
        }
    }

    /// See [`WorkerView::stop_playback`].
    fn stop_playback(&mut self)
        ensures
            final(self)@ == old(self)@.stop_playback(),
    {
        proof {
            reveal(WorkerView::stop_playback);
        }
        self.perform(Effect::BumpTrackEpoch);
        self.perform(Effect::ResetSamples);
        self.perform(Effect::SetDuration(0));
        self.perform(Effect::SetActive(false));
        self.perform(Effect::FinishSeek);
        self.deck.resampler = None;
        self.perform(Effect::ClearPending);
        self.deck.current = None;
        self.deck.next = None;
        self.emit(VoxEvent::Stopped);
    }

    /// See [`WorkerView::announce_end`].
    fn announce_end(&mut self, reason: EndReason)
        ensures
            final(self)@ == old(self)@.announce_end(reason),
    {
        proof {
            reveal(WorkerView::announce_end);
        }
        let path: Option<String> = match &self.deck.current {
            Some(track) => Some(track.decoder.path.clone()),
            None => None,
        };
        if let Some(path) = path {
            self.emit(VoxEvent::TrackEnded { path, reason });
        }
    }

    /// See [`WorkerView::fail_current`].
    fn fail_current(&mut self, error: VoxError)
        ensures
            final(self)@ == old(self)@.fail_current(error),
    {
        proof {
            reveal(WorkerView::fail_current);
        }
        self.emit(VoxEvent::Error { error, recoverable: false });
        self.announce_end(EndReason::Failed);
        self.give_up();
    }

    /// See [`WorkerView::give_up`].
    fn give_up(&mut self)
        ensures
            final(self)@ == old(self)@.give_up(),
    {
        self.stop_playback();
        self.deck.due = due_nothing(Goal::Round);
        self.deck.batch = Batch::new();
        self.round();
    }

    /// See [`WorkerView::round`].
    fn round(&mut self)
        ensures
            final(self)@ == old(self)@.round(),
    {
        proof {
            reveal(WorkerView::round);
        }
        if self.deck.current.is_none() {
            self.deck.stage = Stage::Idle;
        } else {
            self.deck.due.goal = Goal::Poll;
            self.deck.stage = Stage::Rebind;
        }
    }

    /// See [`WorkerView::settle`].
    fn settle(&mut self)
        ensures
            final(self)@ == old(self)@.settle(),
    {
        proof {
            reveal(WorkerView::settle);
        }
        self.deck.due.goal = Goal::Round;
        if self.state.is_paused() || self.state.is_rebuilding() {
            self.deck.stage = Stage::Park;
        } else if self.deck.current.is_none() {
            self.round();
        } else {
            self.deck.stage = Stage::Decode(Fill::Playback);
        }
    }

    /// See [`WorkerView::poll`].
    fn poll(&mut self)
        ensures
            final(self)@ == old(self)@.poll(),
    {
        proof {
            reveal(WorkerView::poll);
        }
        match self.deck.deferred_next.take() {
            Some(path) => self.set_next(path),
            None => {
                self.deck.stage = Stage::Poll;
            },
        }
    }

    /// See [`WorkerView::conclude`].
    fn conclude(&mut self)
        ensures
            final(self)@ == old(self)@.conclude(),
    {
        proof {
            reveal(WorkerView::conclude);
        }
        match self.deck.due.goal {
            Goal::Round => self.round(),
            Goal::Poll => self.poll(),
            Goal::Settle => self.settle(),
        }
    }

    /// See [`WorkerView::proceed`].
    fn proceed(&mut self)
        ensures
            final(self)@ == old(self)@.proceed(),
    {
        proof {
            reveal(WorkerView::proceed);
        }
        match self.deck.due.play.take() {
            Some(path) => {
                let prefill: Prefill = self.deck.due.prefill;
                self.handle_play(path, prefill);
            },
            None => self.proceed_to_seek(),
        }
    }

    /// See [`WorkerView::proceed_to_seek`].
    fn proceed_to_seek(&mut self)
        ensures
            final(self)@ == old(self)@.proceed_to_seek(),
    {
        proof {
            reveal(WorkerView::proceed_to_seek);
        }
        if let Some(path) = self.deck.due.defer.take() {
            self.deck.deferred_next = Some(path);
        }
        match self.deck.due.seek.take() {
            Some(target) => {
                if self.deck.current.is_some() {
                    self.handle_seek(target);
                } else {
                    self.seek_nothing();
                    self.proceed_to_next();
                }
            },
            None => self.proceed_to_next(),
        }
    }

    /// See [`WorkerView::proceed_to_next`].
    fn proceed_to_next(&mut self)
        ensures
            final(self)@ == old(self)@.proceed_to_next(),
    {
        proof {
            reveal(WorkerView::proceed_to_next);
        }
        match self.deck.due.next.take() {
            Some(path) => self.set_next(path),
            None => match self.deck.due.command.take() {
                Some(command) => self.handle_command(command),
                None => self.conclude(),
            },
        }
    }

    /// See [`WorkerView::handle_command`].
    fn handle_command(&mut self, command: VoxCommand)
        ensures
            final(self)@ == old(self)@.handle_command(command),
    {
        proof {
            reveal(WorkerView::handle_command);
        }
        match command {
            VoxCommand::Play(path) => self.handle_play(path, Prefill::Now),
            VoxCommand::QueueNext(path) => self.set_next(path),
            VoxCommand::ClearNext => {
                self.deck.next = None;
                self.conclude();
            },
            VoxCommand::Seek(to) => {
                let target: i64 = to.target(self.get_elapsed());
                if self.deck.current.is_some() {
                    self.handle_seek(target);
                } else {
                    self.seek_nothing();
                    self.conclude();
                }
            },
            VoxCommand::Pause => {
                self.set_paused(true);
                self.conclude();
            },
            VoxCommand::Resume => {
                self.set_paused(false);
                self.conclude();
            },
            VoxCommand::ReplayGain(mode) => {
                self.deck.rg_mode = mode;
                self.perform(Effect::UpdateGain);
                self.conclude();
            },
            VoxCommand::Stop => {
                self.announce_end(EndReason::Interrupted);
                self.stop_playback();
                self.conclude();
            },
            VoxCommand::Shutdown => {
                self.deck.stage = Stage::Halted;
            },
        }
    }

    /// See [`WorkerView::handle_play`].
    fn handle_play(&mut self, path: String, prefill: Prefill)
        ensures
            final(self)@ == old(self)@.handle_play(path, prefill),
    {
        proof {
            reveal(WorkerView::handle_play);
            reveal(WorkerView::announce_end);
        }
        self.perform(Effect::StartSeek);
        self.perform(Effect::ResetSamples);
        self.perform(Effect::ClearPending);
        self.deck.next = None;
        self.deck.deferred_next = None;
        self.announce_end(EndReason::Interrupted);
        self.deck.current = None;
        self.deck.stage = Stage::Open { path, purpose: Purpose::Play(prefill) };
    }

    /// See [`WorkerView::play_opened`].
    fn play_opened(&mut self, prefill: Prefill, opened: Result<Opened<D, R>, VoxError>)
        ensures
            final(self)@ == old(self)@.play_opened(prefill, opened),
    {
        proof {
            reveal(WorkerView::play_opened);
        }
        match opened {
            Err(error) => {
                self.perform(Effect::SetActive(false));
                self.emit(VoxEvent::Error { error, recoverable: true });
                self.stop_playback();
                self.perform(Effect::FinishSeek);
                self.proceed();
            },
            Ok(file) => {
                let duration: u64 = duration_to_announce(&file.track.decoder);
                self.perform(Effect::SetDuration(duration));
                self.begin_track(&file.track.decoder);
                self.deck.input_channels = file.track.decoder.info.channels;
                match file.resampler {
                    Err(error) => self.fail_current(error),
                    Ok(resampler) => {
                        self.deck.resampler = resampler;
                        self.deck.current = Some(file.track);
                        self.perform(Effect::UpdateGain);
                        self.perform(Effect::SetActive(true));
                        self.set_paused(false);
                        if prefill == Prefill::Now {
                            self.deck.stage = Stage::Drain(Drained::Fill(Filled::TrackStart));
                        } else {
                            self.filled(Filled::TrackStart);
                        }
                    },
                }
            },
        }
    }

    /// See [`track_started`].
    fn started(decoder: &VoxDecoder, reason: StartReason) -> (event: VoxEvent)
        ensures
            event == track_started(*decoder, reason),
    {
        VoxEvent::TrackStarted {
            path: decoder.path.clone(),
            duration: duration_to_announce(decoder),
            sample_rate: decoder.info.sample_rate,
            channels: decoder.info.channels,
            reason,
        }
    }

    /// See [`WorkerView::filled`].
    fn filled(&mut self, then_do: Filled)
        ensures
            final(self)@ == old(self)@.filled(then_do),
    {
        proof {
            reveal(WorkerView::filled);
        }
        let event: Option<VoxEvent> = match (then_do, &self.deck.current) {
            (Filled::TrackStart, Some(track)) => Some(
                Self::started(&track.decoder, StartReason::Play),
            ),
            _ => None,
        };
        if let Some(event) = event {
            self.emit(event);
        }
        self.perform(Effect::FinishSeek);
        self.proceed();
    }

    /// See [`WorkerView::set_next`].
    fn set_next(&mut self, path: String)
        ensures
            final(self)@ == old(self)@.set_next(path),
    {
        self.deck.stage = Stage::Open { path, purpose: Purpose::Next };
    }

    /// See [`WorkerView::next_opened`].
    fn next_opened(&mut self, opened: Result<Opened<D, R>, VoxError>)
        ensures
            final(self)@ == old(self)@.next_opened(opened),
    {
        proof {
            reveal(WorkerView::next_opened);
        }
        match opened {
            Ok(file) => match file.resampler {
                Ok(resampler) => {
                    let track = file.track;
                    let input_channels: usize = track.decoder.info.channels;
                    self.emit(
                        VoxEvent::NextReady {
                            path: track.decoder.path.clone(),
                            duration: duration_to_announce(&track.decoder),
                            sample_rate: track.decoder.info.sample_rate,
                            channels: input_channels,
                        },
                    );
                    self.deck.next = Some(QueuedSource { track, resampler, input_channels });
                },
                Err(error) => self.emit(VoxEvent::Error { error, recoverable: true }),
            },
            Err(error) => self.emit(VoxEvent::Error { error, recoverable: true }),
        }
        self.proceed();
    }

    /// See [`WorkerView::seek_nothing`].
    fn seek_nothing(&mut self)
        ensures
            final(self)@ == old(self)@.seek_nothing(),
    {
        proof {
            reveal(WorkerView::seek_nothing);
        }
        self.deck.seeked = true;
        self.perform(Effect::StartSeek);
        self.perform(Effect::FinishSeek);
    }

    /// See [`WorkerView::handle_seek`].
    fn handle_seek(&mut self, target: i64)
        ensures
            final(self)@ == old(self)@.handle_seek(target),
    {
        proof {
            reveal(WorkerView::handle_seek);
        }
        self.deck.seeked = true;
        self.perform(Effect::StartSeek);
        let past: bool = match &self.deck.current {
            Some(track) => is_past_end(target, &track.decoder),
            None => false,
        };
        if past {
            self.perform(Effect::ClearPending);
            self.reset_resampler();
            self.deck.stage = Stage::Drain(Drained::PastEnd);
        } else if target < 0 {
            self.deck.stage = Stage::Seek(0);
        } else {
            self.deck.stage = Stage::Seek(target as u64);
        }
    }

    /// See [`WorkerView::landed`].
    fn landed(&mut self, landing: Result<Landing, VoxError>)
        ensures
            final(self)@ == old(self)@.landed(landing),
    {
        proof {
            reveal(WorkerView::landed);
        }
        match landing {
            Ok(at) => {
                let frames: Option<u64> = match &self.deck.current {
                    Some(track) => Some(frames_to_skip(&track.decoder, at)),
                    None => None,
                };
                match frames {
                    Some(frames) => {
                        self.deck.stage = Stage::Skip { frames, landing: at };
                    },
                    None => {
                        self.perform(Effect::FinishSeek);
                        self.proceed();
                    },
                }
            },
            Err(error) => {
                self.emit(VoxEvent::Error { error, recoverable: true });
                self.perform(Effect::FinishSeek);
                self.handle_track_end();
            },
        }
    }

    /// See [`WorkerView::position_after`].
    fn position_after(&self, landing: Landing, frames: u64) -> (samples: u64)
        ensures
            samples == self@.position_after(landing, frames),
    {
        proof {
            reveal(WorkerView::position_after);
        }
        let rate: u32 = match &self.deck.current {
            Some(track) => track.decoder.info.sample_rate,
            None => 0,
        };
        position_of(landing, frames, rate, self.deck.output_rate, self.deck.output_channels)
    }

    /// See [`WorkerView::skipped`].
    fn skipped(&mut self, landing: Landing, frames: Result<u64, VoxError>)
        ensures
            final(self)@ == old(self)@.skipped(landing, frames),
    {
        proof {
            reveal(WorkerView::skipped);
        }
        match frames {
            Err(error) => self.fail_current(error),
            Ok(frames) => {
                let samples: u64 = self.position_after(landing, frames);
                self.perform(Effect::ClearPending);
                self.reset_resampler();
                self.perform(Effect::SetSamples(samples));
                self.deck.stage = Stage::Drain(Drained::Fill(Filled::Seek));
            },
        }
    }

    /// See [`WorkerView::drained`].
    fn drained(&mut self, then_do: Drained)
        ensures
            final(self)@ == old(self)@.drained(then_do),
    {
        proof {
            reveal(WorkerView::drained);
        }
        match then_do {
            Drained::PastEnd => {
                self.perform(Effect::FinishSeek);
                self.handle_track_end();
            },
            Drained::Fill(filled) => self.fill_ahead(filled, 0),
        }
    }

    /// See [`WorkerView::fill_ahead`].
    fn fill_ahead(&mut self, then_do: Filled, done: usize)
        ensures
            final(self)@ == old(self)@.fill_ahead(then_do, done),
    {
        proof {
            reveal(WorkerView::fill_ahead);
        }
        let target: u64 = samples_to_fill(self.deck.output_rate, self.deck.output_channels);
        if (done as u64) < target && self.deck.current.is_some() {
            self.deck.stage = Stage::Decode(Fill::Ahead { then_do, done });
        } else {
            self.filled(then_do);
        }
    }

    /// See [`WorkerView::packet`].
    fn packet(&mut self, fill: Fill, packet: Result<Option<Vec<u32>>, VoxError>)
        ensures
            final(self)@ == old(self)@.packet(fill, packet),
    {
        proof {
            reveal(WorkerView::packet);
        }
        match packet {
            Err(error) => self.fail_current(error),
            Ok(Some(samples)) => {
                self.deck.stage = Stage::Deliver { samples, fill };
            },
            Ok(None) => match fill {
                Fill::Playback => self.handle_track_end(),
                Fill::Ahead { then_do, .. } => self.filled(then_do),
            },
        }
    }

    /// See [`WorkerView::delivered`].
    fn delivered(&mut self, fill: Fill, written: Result<usize, VoxError>)
        ensures
            final(self)@ == old(self)@.delivered(fill, written),
    {
        proof {
            reveal(WorkerView::delivered);
        }
        match written {
            Err(error) => self.fail_current(error),
            Ok(n) => match fill {
                Fill::Playback => self.proceed(),
                Fill::Ahead { then_do, done } => {
                    let sum: usize = match done.checked_add(n) {
                        Some(sum) => sum,
                        None => usize::MAX,
                    };
                    self.fill_ahead(then_do, sum);
                },
            },
        }
    }

    /// See [`WorkerView::reconcile_duration`].
    fn reconcile_duration(&mut self)
        ensures
            final(self)@ == old(self)@.reconcile_duration(),
    {
        proof {
            reveal(WorkerView::reconcile_duration);
        }
        if self.deck.seeked {
            return;
        }
        let (path, micros) = match &self.deck.current {
            Some(track) => (
                track.decoder.path.clone(),
                frames_to_micros(track.decoder.frames_emitted(), track.decoder.info.sample_rate),
            ),
            None => return,
        };
        let mut effects: Vec<Effect> = publish_correction(&self.state, path, micros);
        if let Some(event) = effects.pop() {
            if let Some(update) = effects.pop() {
                self.perform(update);
                self.perform(event);
            }
        }
    }

    /// See [`WorkerView::handle_track_end`].
    fn handle_track_end(&mut self)
        ensures
            final(self)@ == old(self)@.handle_track_end(),
    {
        proof {
            reveal(WorkerView::handle_track_end);
            reveal(WorkerView::reconcile_duration);
            reveal(WorkerView::announce_end);
        }
        self.reconcile_duration();
        self.perform(Effect::ResetSamples);
        let keep: Option<bool> = match &self.deck.next {
            Some(queued) => Some(
                is_same_rate(&self.deck.resampler, &queued.resampler)
                    || self.deck.resampler.is_none(),
            ),
            None => None,
        };
        match keep {
            Some(ready) => {
                self.announce_end(EndReason::EndOfStream);
                self.deck.current = None;
                if ready {
                    self.transition();
                } else {
                    self.deck.stage = Stage::Flush(Flushed::Handoff);
                }
            },
            None => {
                let ended: Option<String> = match self.deck.current.take() {
                    Some(track) => Some(track.decoder.path),
                    None => None,
                };
                if self.deck.resampler.is_some() {
                    self.deck.stage = Stage::Flush(Flushed::End(ended));
                } else {
                    self.end(ended);
                }
            },
        }
    }

    /// See [`WorkerView::end`].
    fn end(&mut self, ended: Option<String>)
        ensures
            final(self)@ == old(self)@.end(ended),
    {
        proof {
            reveal(WorkerView::end);
        }
        if let Some(path) = ended {
            self.emit(VoxEvent::TrackEnded { path, reason: EndReason::EndOfStream });
        }
        self.stop_playback();
        self.proceed();
    }

    /// See [`WorkerView::transition`].
    fn transition(&mut self)
        ensures
            final(self)@ == old(self)@.transition(),
    {
        proof {
            reveal(WorkerView::transition);
        }
        if let Some(queued) = self.deck.next.take() {
            if !is_same_rate(&self.deck.resampler, &queued.resampler) {
                self.perform(Effect::ClearPending);
                self.deck.resampler = queued.resampler;
            }
            let track = queued.track;
            self.perform(Effect::SetDuration(duration_to_announce(&track.decoder)));
            self.begin_track(&track.decoder);
            self.deck.input_channels = queued.input_channels;
            let event: VoxEvent = Self::started(&track.decoder, StartReason::Gapless);
            self.deck.current = Some(track);
            self.perform(Effect::UpdateGain);
            self.emit(event);
        }
        self.proceed();
    }

    /// See [`WorkerView::flushed`].
    fn flushed(&mut self, then_do: Flushed, outcome: Result<(), VoxError>)
        ensures
            final(self)@ == old(self)@.flushed(then_do, outcome),
    {
        proof {
            reveal(WorkerView::flushed);
        }
        match outcome {
            Err(error) => match then_do {
                Flushed::End(Some(path)) => {
                    self.emit(VoxEvent::Error { error, recoverable: false });
                    self.emit(VoxEvent::TrackEnded { path, reason: EndReason::Failed });
                    self.give_up();
                },
                _ => self.fail_current(error),
            },
            Ok(_) => match then_do {
                Flushed::End(ended) => self.end(ended),
                Flushed::Handoff => self.transition(),
            },
        }
    }

    /// See [`WorkerView::bound`].
    fn bound(&mut self, format: Option<(u32, usize)>)
        ensures
            final(self)@ == old(self)@.bound(format),
    {
        proof {
            reveal(WorkerView::bound);
        }
        match format {
            None => self.proceed(),
            Some((rate, channels)) => {
                let resume_at: i64 = self.get_elapsed();
                self.deck.output_rate = rate;
                self.deck.output_channels = channels;
                self.perform(Effect::ClearPending);
                if self.deck.current.is_some() || self.deck.next.is_some() {
                    self.deck.stage = Stage::Rebuild { resume_at };
                } else {
                    self.proceed();
                }
            },
        }
    }

    /// See [`WorkerView::rebuilt`].
    fn rebuilt(
        &mut self,
        resume_at: i64,
        next: Result<Option<VoxResampler<R>>, VoxError>,
        current: Result<Option<VoxResampler<R>>, VoxError>,
    )
        ensures
            final(self)@ == old(self)@.rebuilt(resume_at, next, current),
    {
        proof {
            reveal(WorkerView::rebuilt);
        }
        if self.deck.next.is_some() {
            match next {
                Ok(resampler) => {
                    if let Some(queued) = self.deck.next.take() {
                        self.deck.next = Some(
                            QueuedSource {
                                track: queued.track,
                                resampler,
                                input_channels: queued.input_channels,
                            },
                        );
                    }
                },
                Err(error) => {
                    self.fail_current(error);
                    return;
                },
            }
        }
        if self.deck.current.is_none() {
            self.proceed();
            return;
        }
        match current {
            Err(error) => self.fail_current(error),
            Ok(resampler) => {
                self.deck.resampler = resampler;
                self.handle_seek(resume_at);
            },
        }
    }

    /// See [`WorkerView::polled`].
    fn polled(&mut self, command: VoxCommand)
        ensures
            final(self)@ == old(self)@.polled(command),
    {
        proof {
            reveal(WorkerView::polled);
        }
        let elapsed: i64 = self.get_elapsed();
        match self.deck.batch.merge(command, elapsed) {
            None => {
                self.deck.stage = Stage::Poll;
            },
            Some(command) => {
                let prefill: Prefill = seek_prefill(&self.deck.batch.seek);
                self.deck.due = Due {
                    play: self.deck.batch.play.take(),
                    prefill,
                    defer: None,
                    seek: self.deck.batch.seek.take(),
                    next: self.deck.batch.next.take(),
                    command: Some(command),
                    goal: Goal::Poll,
                };
                self.proceed();
            },
        }
    }

    /// See [`WorkerView::polled_quiet`].
    fn polled_quiet(&mut self)
        ensures
            final(self)@ == old(self)@.polled_quiet(),
    {
        proof {
            reveal(WorkerView::polled_quiet);
        }
        let prefill: Prefill = seek_prefill(&self.deck.batch.seek);
        let play: Option<String> = self.deck.batch.play.take();
        let next: Option<String> = self.deck.batch.next.take();
        let (defer, next) = if play.is_some() {
            (next, None)
        } else {
            (None, next)
        };
        self.deck.due = Due {
            play,
            prefill,
            defer,
            seek: self.deck.batch.seek.take(),
            next,
            command: None,
            goal: Goal::Settle,
        };
        self.proceed();
    }

    /// Takes the reply to what the worker waits for, given the shared state as it
    /// is now, and goes on to what it waits for next. The effects are left in
    /// the outbox.
    pub fn resume(&mut self, state: SharedState, reply: Reply<D, R>)
        requires
            answers(old(self).deck.stage, reply),
        ensures
            final(self)@ == (WorkerView { state, ..old(self)@ }).resumed(reply),
    {
        proof {
            reveal(WorkerView::resumed);
            reveal(WorkerView::idle_command);
            reveal(WorkerView::idle_quiet);
        }
        self.state = state;
        let mut stage: Stage = Stage::Halted;
        std::mem::swap(&mut self.deck.stage, &mut stage);
        match (stage, reply) {
            (Stage::Idle, Reply::Command(command)) => {
                self.deck.due.command = Some(command);
                self.deck.due.goal = Goal::Round;
                self.deck.stage = Stage::Rebind;
            },
            (Stage::Idle, Reply::Quiet) => {
                self.deck.due.goal = Goal::Round;
                self.deck.stage = Stage::Rebind;
            },
            (Stage::Poll, Reply::Command(command)) => self.polled(command),
            (Stage::Poll, Reply::Quiet) => self.polled_quiet(),
            (Stage::Rebind, Reply::Bound(format)) => self.bound(format),
            (Stage::Rebuild { resume_at }, Reply::Rebuilt { next, current }) => self.rebuilt(
                resume_at,
                next,
                current,
            ),
            (Stage::Open { path: _, purpose }, Reply::Opened(opened)) => match purpose {
                Purpose::Play(prefill) => self.play_opened(prefill, opened),
                Purpose::Next => self.next_opened(opened),
            },
            (Stage::Drain(then_do), Reply::Drained) => self.drained(then_do),
            (Stage::Decode(fill), Reply::Packet(packet)) => self.packet(fill, packet),
            (Stage::Deliver { samples: _, fill }, Reply::Delivered(written)) => self.delivered(
                fill,
                written,
            ),
            (Stage::Seek(_), Reply::Landed(landing)) => self.landed(landing),
            (Stage::Skip { frames: _, landing }, Reply::Skipped(skipped)) => self.skipped(
                landing,
                skipped,
            ),
            (Stage::Flush(then_do), Reply::Flushed(outcome)) => self.flushed(then_do, outcome),
            (Stage::Park, Reply::Woken) => self.round(),
            _ => {},
        }
    }

    /// Adopts the newest of the output bindings that wait, where the worker waits
    /// for that. Which ones wait is up to the thread that sends;
    /// [`VoxWorker::adopt_newest`] says what becomes of them.
    pub fn apply_bindings(
        &mut self,
        state: SharedState,
        feed: &mut Feed,
        bindings: &mut Receiver<AudioBinding>,
    )
        requires
            old(self).deck.stage == Stage::Rebind,
        ensures
            heard_bindings(*old(bindings)).is_prefix_of(heard_bindings(*final(bindings))),
            ({
                let arrived = heard_bindings(*final(bindings)).skip(
                    heard_bindings(*old(bindings)).len() as int,
                );
                &&& final(self)@ == (WorkerView { state, ..old(self)@ }).resumed(
                    Reply::Bound(newest_format(arrived)),
                )
                &&& feed_adopts(*old(feed), arrived, *final(feed))
            }),
    {
        let ghost before = heard_bindings(*bindings);
        let arrived: Vec<AudioBinding> = arrived_bindings(bindings);
        assert(heard_bindings(*bindings).skip(before.len() as int) =~= arrived@);
        self.adopt_newest(state, feed, arrived);
    }

    /// Adopts the newest of the output bindings that have `arrived`, given oldest
    /// first: `feed` goes on with its ring, and the worker with its format.
    pub fn adopt_newest(
        &mut self,
        state: SharedState,
        feed: &mut Feed,
        arrived: Vec<AudioBinding>,
    )
        requires
            old(self).deck.stage == Stage::Rebind,
        ensures
            final(self)@ == (WorkerView { state, ..old(self)@ }).resumed(
                Reply::Bound(newest_format(arrived@)),
            ),
            feed_adopts(*old(feed), arrived@, *final(feed)),
    {
        let ghost all = arrived@;
        let mut arrived = arrived;
        let format: Option<(u32, usize)> = match arrived.pop() {
            Some(binding) => {
                feed.adopt(binding.producer);
                Some((binding.output_rate, binding.output_channels))
            },
            None => None,
        };
        assert(format == newest_format(all));
        self.resume(state, Reply::Bound(format));
    }

    /// Takes the next command of a burst, where the worker waits for that: the
    /// one command that is taken out of the channel, or none. Whether one waits is
    /// up to the threads that send; [`VoxWorker::polled_message`] says what becomes
    /// of it.
    pub fn poll_commands(&mut self, state: SharedState, commands: &mut Receiver<VoxCommand>)
        requires
            old(self).deck.stage == Stage::Poll,
        ensures
            ({
                let before = heard_commands(*old(commands));
                let after = heard_commands(*final(commands));
                let held = WorkerView { state, ..old(self)@ };
                if after.len() == before.len() {
                    after == before && (final(self)@ == held.resumed(Reply::Quiet)
                        || final(self)@ == held.resumed(Reply::Disconnected))
                } else {
                    after == before.push(after.last()) && final(self)@ == held.resumed(
                        Reply::Command(after.last()),
                    )
                }
            }),
    {
        let received: Received<VoxCommand> = next_command(commands);
        self.polled_message(state, received);
    }

    /// Takes what a look at the channel of commands gave, where the worker waits
    /// for that.
    pub fn polled_message(&mut self, state: SharedState, received: Received<VoxCommand>)
        requires
            old(self).deck.stage == Stage::Poll,
        ensures
            final(self)@ == (WorkerView { state, ..old(self)@ }).resumed(as_reply(received)),
    {
        let reply: Reply<D, R> = match received {
            Received::Message(command) => Reply::Command(command),
            Received::Empty => Reply::Quiet,
            Received::Disconnected => Reply::Disconnected,
        };
        self.resume(state, reply);
    }

    /// Hands over the effects to be carried out.
    pub fn take_effects(&mut self) -> (effects: Vec<Effect>)
        ensures
            effects@ == old(self).outbox@,
            final(self)@ == (WorkerView { outbox: Seq::empty(), ..old(self)@ }),
    {
        let mut effects: Vec<Effect> = Vec::new();
        std::mem::swap(&mut self.outbox, &mut effects);
        effects
    }

    /// The linear gain of the current track, unity without one.
    pub fn update_gain<F: Fn(u32) -> u32, G: Fn(u32, u32) -> u32>(
        &self,
        from_db: F,
        clamp: G,
    ) -> (gain: u32)
        requires
            forall|db: u32| #[trigger] call_requires(from_db, (db,)),
            forall|raw: u32, peak: u32| #[trigger] call_requires(clamp, (raw, peak)),
        ensures
            match self.deck.current {
                Some(track) => track.decoder.info.replaygain.is_linear_gain(
                    self.deck.rg_mode,
                    from_db,
                    clamp,
                    gain,
                ),
                None => gain == UNITY,
            },
    {
        match &self.deck.current {
            Some(track) => track.decoder.info.replaygain.linear_gain(
                self.deck.rg_mode,
                from_db,
                clamp,
            ),
            None => UNITY,
        }
    }
}

/// Of several outputs that have come the last one counts: for the format the worker
/// goes by and for the ring that is written from then on alike.
pub proof fn newest_output_counts(
    before: Feed,
    earlier: Seq<AudioBinding>,
    last: AudioBinding,
    after: Feed,
)
    ensures
        newest_format(earlier.push(last)) == Some((last.output_rate, last.output_channels)),
        newest_format(Seq::empty()) is None,
        feed_adopts(before, earlier.push(last), after) ==> after.producer == last.producer
            && after.pending@.len() == 0,
        feed_adopts(before, Seq::empty(), after) ==> after == before,
{
}

} // verus!
