//! The playback lifecycle: what the decoder worker makes of every command and of
//! every outcome of the outside work it asks for.

use crate::command::{mergeable, Batch, Prefill, VoxCommand};
use crate::decoder::{Codec, Landing, VoxDecoder};
use crate::effect::Effect;
use crate::error::VoxError;
use crate::event::{EndReason, StartReason, VoxEvent};
use crate::resampler::VoxResampler;
use crate::scan::correction;
use crate::stage::{Deck, Drained, Due, Fill, Filled, Flushed, Goal};
use crate::stage::{Opened, Purpose, QueuedSource, Reply, Stage};
use crate::stage::{SEEK_POST_SKIP_MS, SEEK_PREFILL_MS};
use crate::state::SharedState;
use crate::timing::{at_least_one, clip, frames_micros, micros_of};
use vstd::prelude::*;

verus! {

/// The worker as contracts see it.
#[verifier::ext_equal]
pub struct WorkerView<D, R> {
    pub deck: Deck<D, R>,
    /// The shared state as it is once the outbox is carried out.
    pub state: SharedState,
    pub outbox: Seq<Effect>,
}

/// Whether a seek to `target` microseconds leaves a track: it does from the end
/// of the last frame on. Where the length is unknown, there is no end.
pub open spec fn past_end(target: i64, decoder: VoxDecoder) -> bool {
    match decoder.info.n_frames {
        Some(frames) => target * at_least_one(decoder.info.sample_rate as nat) >= frames
            * 1_000_000,
        None => false,
    }
}

/// Where playback goes on, in output samples, after landing there in a track of
/// `input_rate` and skipping `frames` frames of it. What lies before the start
/// of the audio counts as the start.
pub open spec fn resume_position(
    landing: Landing,
    frames: u64,
    input_rate: u32,
    output_rate: u32,
    output_channels: usize,
) -> u64 {
    let rate = at_least_one(input_rate as nat) as int;
    let per = at_least_one(landing.per_second as nat) as int;
    let time = landing.units * rate + frames * per;
    if time <= 0 {
        0
    } else {
        clip((time * (output_rate * output_channels) / (per * rate)) as nat)
    }
}

/// Frames that a codec needs to reconverge after a seek: about one packet for
/// lossy codecs, at least the pre-roll, and none where the decoder was not
/// thrown.
pub open spec fn warmup_frames(decoder: VoxDecoder, landing: Landing) -> u64 {
    let packet = match decoder.info.codec {
        Codec::Other => 0,
        _ => decoder.info.sample_rate * SEEK_POST_SKIP_MS / 1000,
    };
    if !landing.needs_warmup {
        0
    } else if packet > decoder.seek_preroll_frames {
        packet as u64
    } else {
        decoder.seek_preroll_frames
    }
}

/// Output samples to put into the ring after a seek.
pub open spec fn prefill_target(rate: u32, channels: usize) -> u64 {
    clip((rate * channels * SEEK_PREFILL_MS / 1000) as nat)
}

/// Whether the resampler of the ending track serves the primed one as well.
pub open spec fn same_rate<R>(
    current: Option<VoxResampler<R>>,
    next: Option<VoxResampler<R>>,
) -> bool {
    match (current, next) {
        (Some(a), Some(b)) => a.input_rate == b.input_rate,
        (None, None) => true,
        _ => false,
    }
}

/// The duration to announce for a track.
pub open spec fn announced_duration(decoder: VoxDecoder) -> u64 {
    match decoder.playable() {
        Some(micros) => micros,
        None => 0,
    }
}

/// The announcement that a track has started.
pub open spec fn track_started(decoder: VoxDecoder, reason: StartReason) -> VoxEvent {
    VoxEvent::TrackStarted {
        path: decoder.path,
        duration: announced_duration(decoder),
        sample_rate: decoder.info.sample_rate,
        channels: decoder.info.channels,
        reason,
    }
}

impl<D, R> WorkerView<D, R> {
    /// With one more effect.
    pub open spec fn perform(self, effect: Effect) -> Self {
        WorkerView {
            state: self.state.after(effect),
            outbox: self.outbox.push(effect),
            ..self
        }
    }

    /// With one more event announced.
    pub open spec fn emit(self, event: VoxEvent) -> Self {
        self.perform(Effect::Emit(event))
    }

    /// With another deck.
    pub open spec fn with(self, deck: Deck<D, R>) -> Self {
        WorkerView { deck, ..self }
    }

    /// Waiting for something else.
    pub open spec fn at(self, stage: Stage) -> Self {
        self.with(Deck { stage, ..self.deck })
    }

    /// The playback position in microseconds, by the output format the worker
    /// knows.
    pub open spec fn elapsed(self) -> i64 {
        let micros = micros_of(
            self.state.samples_played as nat,
            self.deck.output_rate as nat,
            self.deck.output_channels as nat,
        );
        if micros > i64::MAX {
            i64::MAX
        } else {
            micros as i64
        }
    }

    /// Records whether playback is held, announcing a change only.
    #[verifier::opaque]
    pub open spec fn set_paused(self, paused: bool) -> Self {
        if self.state.paused != paused {
            self.perform(Effect::SetPaused(paused)).emit(VoxEvent::StateChanged { paused })
        } else {
            self
        }
    }

    /// Marks a freshly-started track: clears the seek flag, bumps the epoch,
    /// which drops a prior track's in-flight scan, and scans for the true length
    /// if the reported duration is only an estimate.
    #[verifier::opaque]
    pub open spec fn begin_track(self, decoder: VoxDecoder) -> Self {
        let begun = self.with(Deck { seeked: false, ..self.deck }).perform(
            Effect::BumpTrackEpoch,
        );
        if decoder.duration_estimated {
            begun.perform(Effect::Scan { path: decoder.path, epoch: begun.state.track_epoch })
        } else {
            begun
        }
    }

    /// Makes the resampler, if there is one, forget what it has seen.
    #[verifier::opaque]
    pub open spec fn reset_resampler(self) -> Self {
        if self.deck.resampler is Some {
            self.perform(Effect::ResetResampler)
        } else {
            self
        }
    }

    /// Drops all tracks and goes idle.
    #[verifier::opaque]
    pub open spec fn stop_playback(self) -> Self {
        self.with(
            Deck { current: None, next: None, resampler: None, ..self.deck },
        ).perform(Effect::BumpTrackEpoch).perform(Effect::ResetSamples).perform(
            Effect::SetDuration(0),
        ).perform(Effect::SetActive(false)).perform(Effect::FinishSeek).perform(
            Effect::ClearPending,
        ).emit(VoxEvent::Stopped)
    }

    /// Drops all tracks and all that is still due, and starts over.
    pub open spec fn give_up(self) -> Self {
        let stopped = self.stop_playback();
        stopped.with(
            Deck { due: Due::nothing(Goal::Round), batch: Batch::none(), ..stopped.deck },
        ).round()
    }

    /// Announces how the current track, if there is one, ended.
    #[verifier::opaque]
    pub open spec fn announce_end(self, reason: EndReason) -> Self {
        match self.deck.current {
            Some(track) => self.emit(VoxEvent::TrackEnded { path: track.decoder.path, reason }),
            None => self,
        }
    }

    /// Gives up on the current track, and on all that is still due.
    #[verifier::opaque]
    pub open spec fn fail_current(self, error: VoxError) -> Self {
        self.emit(VoxEvent::Error { error, recoverable: false }).announce_end(
            EndReason::Failed,
        ).give_up()
    }

    /// The start of a round: with nothing loaded wait for a command; else adopt a
    /// new output, read commands, and go on with the audio.
    #[verifier::opaque]
    pub open spec fn round(self) -> Self {
        if self.deck.current is None {
            self.at(Stage::Idle)
        } else {
            self.with(Deck { due: Due { goal: Goal::Poll, ..self.deck.due }, ..self.deck }).at(
                Stage::Rebind,
            )
        }
    }

    /// On to the audio: nothing is decoded while playback is held or the stream
    /// is being rebuilt.
    #[verifier::opaque]
    pub open spec fn settle(self) -> Self {
        let settled = self.with(
            Deck { due: Due { goal: Goal::Round, ..self.deck.due }, ..self.deck },
        );
        if self.state.paused || self.state.rebuilding {
            settled.at(Stage::Park)
        } else if self.deck.current is None {
            settled.round()
        } else {
            settled.at(Stage::Decode(Fill::Playback))
        }
    }

    /// On to the next command, after priming what the last round put off.
    #[verifier::opaque]
    pub open spec fn poll(self) -> Self {
        match self.deck.deferred_next {
            Some(path) => self.with(Deck { deferred_next: None, ..self.deck }).set_next(path),
            None => self.at(Stage::Poll),
        }
    }

    /// Nothing is due any more.
    #[verifier::opaque]
    pub open spec fn conclude(self) -> Self {
        match self.deck.due.goal {
            Goal::Round => self.round(),
            Goal::Poll => self.poll(),
            Goal::Settle => self.settle(),
        }
    }

    /// Goes on with what is due.
    #[verifier::opaque]
    pub open spec fn proceed(self) -> Self {
        match self.deck.due.play {
            Some(path) => self.with(
                Deck { due: Due { play: None, ..self.deck.due }, ..self.deck },
            ).handle_play(path, self.deck.due.prefill),
            None => self.proceed_to_seek(),
        }
    }

    /// Goes on with what is due after a play.
    #[verifier::opaque]
    pub open spec fn proceed_to_seek(self) -> Self {
        let deck = match self.deck.due.defer {
            Some(path) => Deck {
                deferred_next: Some(path),
                due: Due { defer: None, ..self.deck.due },
                ..self.deck
            },
            None => self.deck,
        };
        match deck.due.seek {
            Some(target) => {
                let sought = self.with(
                    Deck { due: Due { seek: None, ..deck.due }, ..deck },
                );
                if deck.current is Some {
                    sought.handle_seek(target)
                } else {
                    sought.seek_nothing().proceed_to_next()
                }
            },
            None => self.with(deck).proceed_to_next(),
        }
    }

    /// Goes on with what is due after a seek.
    #[verifier::opaque]
    pub open spec fn proceed_to_next(self) -> Self {
        match self.deck.due.next {
            Some(path) => self.with(
                Deck { due: Due { next: None, ..self.deck.due }, ..self.deck },
            ).set_next(path),
            None => match self.deck.due.command {
                Some(command) => self.with(
                    Deck { due: Due { command: None, ..self.deck.due }, ..self.deck },
                ).handle_command(command),
                None => self.conclude(),
            },
        }
    }

    /// Does what a single command asks.
    #[verifier::opaque]
    pub open spec fn handle_command(self, command: VoxCommand) -> Self {
        match command {
            VoxCommand::Play(path) => self.handle_play(path, Prefill::Now),
            VoxCommand::QueueNext(path) => self.set_next(path),
            VoxCommand::ClearNext => self.with(Deck { next: None, ..self.deck }).conclude(),
            VoxCommand::Seek(to) => {
                let target = to.from_base(self.elapsed());
                if self.deck.current is Some {
                    self.handle_seek(target)
                } else {
                    self.seek_nothing().conclude()
                }
            },
            VoxCommand::Pause => self.set_paused(true).conclude(),
            VoxCommand::Resume => self.set_paused(false).conclude(),
            VoxCommand::ReplayGain(mode) => self.with(
                Deck { rg_mode: mode, ..self.deck },
            ).perform(Effect::UpdateGain).conclude(),
            VoxCommand::Stop => self.announce_end(
                EndReason::Interrupted,
            ).stop_playback().conclude(),
            VoxCommand::Shutdown => self.at(Stage::Halted),
        }
    }

    /// Starts playing the file at `path`: whatever plays is interrupted, and
    /// whatever was to follow is dropped.
    #[verifier::opaque]
    pub open spec fn handle_play(self, path: String, prefill: Prefill) -> Self {
        let torn = self.perform(Effect::StartSeek).perform(Effect::ResetSamples).perform(
            Effect::ClearPending,
        ).announce_end(EndReason::Interrupted);
        torn.with(
            Deck { current: None, next: None, deferred_next: None, ..torn.deck },
        ).at(Stage::Open { path, purpose: Purpose::Play(prefill) })
    }

    /// The file to play has been opened, or could not be.
    #[verifier::opaque]
    pub open spec fn play_opened(
        self,
        prefill: Prefill,
        opened: Result<Opened<D, R>, VoxError>,
    ) -> Self {
        match opened {
            Err(error) => self.perform(Effect::SetActive(false)).emit(
                VoxEvent::Error { error, recoverable: true },
            ).stop_playback().perform(Effect::FinishSeek).proceed(),
            Ok(file) => {
                let decoder = file.track.decoder;
                let begun = self.perform(
                    Effect::SetDuration(announced_duration(decoder)),
                ).begin_track(decoder);
                let ready = begun.with(
                    Deck { input_channels: decoder.info.channels, ..begun.deck },
                );
                match file.resampler {
                    Err(error) => ready.fail_current(error),
                    Ok(resampler) => {
                        let playing = ready.with(
                            Deck { resampler, current: Some(file.track), ..ready.deck },
                        ).perform(Effect::UpdateGain).perform(
                            Effect::SetActive(true),
                        ).set_paused(false);
                        if prefill == Prefill::Now {
                            playing.at(Stage::Drain(Drained::Fill(Filled::TrackStart)))
                        } else {
                            playing.filled(Filled::TrackStart)
                        }
                    },
                }
            },
        }
    }

    /// The ring has been filled.
    #[verifier::opaque]
    pub open spec fn filled(self, then_do: Filled) -> Self {
        match (then_do, self.deck.current) {
            (Filled::TrackStart, Some(track)) => self.emit(
                track_started(track.decoder, StartReason::Play),
            ).perform(Effect::FinishSeek).proceed(),
            _ => self.perform(Effect::FinishSeek).proceed(),
        }
    }

    /// Primes the file at `path`.
    pub open spec fn set_next(self, path: String) -> Self {
        self.at(Stage::Open { path, purpose: Purpose::Next })
    }

    /// The file to prime has been opened, or could not be.
    #[verifier::opaque]
    pub open spec fn next_opened(self, opened: Result<Opened<D, R>, VoxError>) -> Self {
        match opened {
            Ok(Opened { track, resampler: Ok(resampler) }) => self.emit(
                VoxEvent::NextReady {
                    path: track.decoder.path,
                    duration: announced_duration(track.decoder),
                    sample_rate: track.decoder.info.sample_rate,
                    channels: track.decoder.info.channels,
                },
            ).with(
                Deck {
                    next: Some(
                        QueuedSource {
                            track,
                            resampler,
                            input_channels: track.decoder.info.channels,
                        },
                    ),
                    ..self.deck
                },
            ).proceed(),
            Ok(Opened { track, resampler: Err(error) }) => self.emit(
                VoxEvent::Error { error, recoverable: true },
            ).proceed(),
            Err(error) => self.emit(VoxEvent::Error { error, recoverable: true }).proceed(),
        }
    }

    /// A seek with nothing loaded.
    #[verifier::opaque]
    pub open spec fn seek_nothing(self) -> Self {
        self.with(Deck { seeked: true, ..self.deck }).perform(Effect::StartSeek).perform(
            Effect::FinishSeek,
        )
    }

    /// Seeks in the current track. A target before the start means the start. A
    /// target past the end ends the track, once the ring is drained of audio
    /// from before the seek.
    #[verifier::opaque]
    pub open spec fn handle_seek(self, target: i64) -> Self {
        let started = self.with(Deck { seeked: true, ..self.deck }).perform(Effect::StartSeek);
        let past = match self.deck.current {
            Some(track) => past_end(target, track.decoder),
            None => false,
        };
        if past {
            started.perform(Effect::ClearPending).reset_resampler().at(
                Stage::Drain(Drained::PastEnd),
            )
        } else if target < 0 {
            started.at(Stage::Seek(0))
        } else {
            started.at(Stage::Seek(target as u64))
        }
    }

    /// The seek has landed, or failed, which ends the track.
    #[verifier::opaque]
    pub open spec fn landed(self, landing: Result<Landing, VoxError>) -> Self {
        match (landing, self.deck.current) {
            (Ok(at), Some(track)) => self.at(
                Stage::Skip { frames: warmup_frames(track.decoder, at), landing: at },
            ),
            (Ok(_), None) => self.perform(Effect::FinishSeek).proceed(),
            (Err(error), _) => self.emit(
                VoxEvent::Error { error, recoverable: true },
            ).perform(Effect::FinishSeek).handle_track_end(),
        }
    }

    /// Where playback goes on after landing there and skipping `frames` frames, in
    /// output samples.
    #[verifier::opaque]
    pub open spec fn position_after(self, landing: Landing, frames: u64) -> u64 {
        let rate = match self.deck.current {
            Some(track) => track.decoder.info.sample_rate,
            None => 0,
        };
        resume_position(landing, frames, rate, self.deck.output_rate, self.deck.output_channels)
    }

    /// The codec has reconverged.
    #[verifier::opaque]
    pub open spec fn skipped(self, landing: Landing, frames: Result<u64, VoxError>) -> Self {
        match frames {
            Err(error) => self.fail_current(error),
            Ok(frames) => self.perform(Effect::ClearPending).reset_resampler().perform(
                Effect::SetSamples(self.position_after(landing, frames)),
            ).at(Stage::Drain(Drained::Fill(Filled::Seek))),
        }
    }

    /// The ring has been drained.
    #[verifier::opaque]
    pub open spec fn drained(self, then_do: Drained) -> Self {
        match then_do {
            Drained::PastEnd => self.perform(Effect::FinishSeek).handle_track_end(),
            Drained::Fill(filled) => self.fill_ahead(filled, 0),
        }
    }

    /// Goes on filling the ring until enough is in it.
    #[verifier::opaque]
    pub open spec fn fill_ahead(self, then_do: Filled, done: usize) -> Self {
        if done < prefill_target(self.deck.output_rate, self.deck.output_channels)
            && self.deck.current is Some {
            self.at(Stage::Decode(Fill::Ahead { then_do, done }))
        } else {
            self.filled(then_do)
        }
    }

    /// A packet has been decoded, or the track is over.
    #[verifier::opaque]
    pub open spec fn packet(self, fill: Fill, packet: Result<Option<Vec<u32>>, VoxError>) -> Self {
        match (packet, fill) {
            (Err(error), _) => self.fail_current(error),
            (Ok(Some(samples)), _) => self.at(Stage::Deliver { samples, fill }),
            (Ok(None), Fill::Playback) => self.handle_track_end(),
            (Ok(None), Fill::Ahead { then_do, .. }) => self.filled(then_do),
        }
    }

    /// A packet has been written to the ring.
    #[verifier::opaque]
    pub open spec fn delivered(self, fill: Fill, written: Result<usize, VoxError>) -> Self {
        match (written, fill) {
            (Err(error), _) => self.fail_current(error),
            (Ok(_), Fill::Playback) => self.proceed(),
            (Ok(n), Fill::Ahead { then_do, done }) => {
                let sum = if done + n > usize::MAX {
                    usize::MAX
                } else {
                    (done + n) as usize
                };
                self.fill_ahead(then_do, sum)
            },
        }
    }

    /// At the end of a track played without a seek, reconciles the reported
    /// duration with what actually decoded.
    #[verifier::opaque]
    pub open spec fn reconcile_duration(self) -> Self {
        match self.deck.current {
            Some(track) if !self.deck.seeked => {
                let micros = frames_micros(
                    track.decoder.frames_emitted as nat,
                    track.decoder.info.sample_rate as nat,
                );
                let effects = correction(self.state, track.decoder.path, micros);
                if effects.len() == 0 {
                    self
                } else {
                    self.perform(effects[0]).perform(effects[1])
                }
            },
            _ => self,
        }
    }

    /// The current track is over: hands over to the primed one, or stops.
    #[verifier::opaque]
    pub open spec fn handle_track_end(self) -> Self {
        let over = self.reconcile_duration().perform(Effect::ResetSamples);
        let ended = match self.deck.current {
            Some(track) => Some(track.decoder.path),
            None => None,
        };
        match self.deck.next {
            Some(queued) => {
                let announced = over.announce_end(EndReason::EndOfStream);
                let handing = announced.with(Deck { current: None, ..announced.deck });
                if same_rate(self.deck.resampler, queued.resampler) || self.deck.resampler is None {
                    handing.transition()
                } else {
                    handing.at(Stage::Flush(Flushed::Handoff))
                }
            },
            None => {
                let ending = over.with(Deck { current: None, ..over.deck });
                if self.deck.resampler is Some {
                    ending.at(Stage::Flush(Flushed::End(ended)))
                } else {
                    ending.end(ended)
                }
            },
        }
    }

    /// Nothing follows the track that was at `ended`.
    #[verifier::opaque]
    pub open spec fn end(self, ended: Option<String>) -> Self {
        match ended {
            Some(path) => self.emit(
                VoxEvent::TrackEnded { path, reason: EndReason::EndOfStream },
            ).stop_playback().proceed(),
            None => self.stop_playback().proceed(),
        }
    }

    /// The primed track takes over. The resampler stays where it serves both
    /// tracks, so that nothing of its history is lost.
    #[verifier::opaque]
    pub open spec fn transition(self) -> Self {
        match self.deck.next {
            Some(queued) => {
                let decoder = queued.track.decoder;
                let fitted = if same_rate(self.deck.resampler, queued.resampler) {
                    self
                } else {
                    self.with(Deck { resampler: queued.resampler, ..self.deck }).perform(
                        Effect::ClearPending,
                    )
                };
                let begun = fitted.with(Deck { next: None, ..fitted.deck }).perform(
                    Effect::SetDuration(announced_duration(decoder)),
                ).begin_track(decoder);
                begun.with(
                    Deck {
                        input_channels: queued.input_channels,
                        current: Some(queued.track),
                        ..begun.deck
                    },
                ).perform(Effect::UpdateGain).emit(
                    track_started(decoder, StartReason::Gapless),
                ).proceed()
            },
            None => self.proceed(),
        }
    }

    /// The resampler has been flushed. Where that failed, a track whose end is not
    /// announced yet has failed with it.
    #[verifier::opaque]
    pub open spec fn flushed(self, then_do: Flushed, outcome: Result<(), VoxError>) -> Self {
        match (outcome, then_do) {
            (Err(error), Flushed::End(Some(path))) => self.emit(
                VoxEvent::Error { error, recoverable: false },
            ).emit(VoxEvent::TrackEnded { path, reason: EndReason::Failed }).give_up(),
            (Err(error), _) => self.fail_current(error),
            (Ok(_), Flushed::End(ended)) => self.end(ended),
            (Ok(_), Flushed::Handoff) => self.transition(),
        }
    }

    /// A new output is adopted: the position is taken with the old format, and
    /// the resamplers have to be made anew.
    #[verifier::opaque]
    pub open spec fn bound(self, format: Option<(u32, usize)>) -> Self {
        match format {
            None => self.proceed(),
            Some((rate, channels)) => {
                let adopted = self.with(
                    Deck { output_rate: rate, output_channels: channels, ..self.deck },
                ).perform(Effect::ClearPending);
                if self.deck.current is Some || self.deck.next is Some {
                    adopted.at(Stage::Rebuild { resume_at: self.elapsed() })
                } else {
                    adopted.proceed()
                }
            },
        }
    }

    /// The resamplers have been made; playback resumes where it was.
    #[verifier::opaque]
    pub open spec fn rebuilt(
        self,
        resume_at: i64,
        next: Result<Option<VoxResampler<R>>, VoxError>,
        current: Result<Option<VoxResampler<R>>, VoxError>,
    ) -> Self {
        let fitted = match (self.deck.next, next) {
            (Some(queued), Ok(resampler)) => self.with(
                Deck { next: Some(QueuedSource { resampler, ..queued }), ..self.deck },
            ),
            _ => self,
        };
        if self.deck.next is Some && next is Err {
            self.fail_current(next->Err_0)
        } else if self.deck.current is None {
            fitted.proceed()
        } else {
            match current {
                Err(error) => fitted.fail_current(error),
                Ok(resampler) => fitted.with(Deck { resampler, ..fitted.deck }).handle_seek(
                    resume_at,
                ),
            }
        }
    }

    /// A command has come while nothing is loaded: a new output is adopted first.
    #[verifier::opaque]
    pub open spec fn idle_command(self, command: VoxCommand) -> Self {
        self.with(
            Deck {
                due: Due { command: Some(command), goal: Goal::Round, ..self.deck.due },
                ..self.deck
            },
        ).at(Stage::Rebind)
    }

    /// No command has come while nothing is loaded.
    #[verifier::opaque]
    pub open spec fn idle_quiet(self) -> Self {
        self.with(
            Deck { due: Due { goal: Goal::Round, ..self.deck.due }, ..self.deck },
        ).at(Stage::Rebind)
    }

    /// A command of a burst has come.
    #[verifier::opaque]
    pub open spec fn polled(self, command: VoxCommand) -> Self {
        if mergeable(command) {
            self.with(
                Deck { batch: self.deck.batch.with(command, self.elapsed()), ..self.deck },
            ).at(Stage::Poll)
        } else {
            self.with(
                Deck {
                    due: Due::interrupted(self.deck.batch, command),
                    batch: Batch::none(),
                    ..self.deck
                },
            ).proceed()
        }
    }

    /// A burst of commands is over.
    #[verifier::opaque]
    pub open spec fn polled_quiet(self) -> Self {
        self.with(
            Deck { due: Due::finished(self.deck.batch), batch: Batch::none(), ..self.deck },
        ).proceed()
    }

    /// What the worker makes of a reply.
    #[verifier::opaque]
    pub open spec fn resumed(self, reply: Reply<D, R>) -> Self {
        let w = self.at(Stage::Halted);
        match (self.deck.stage, reply) {
            (Stage::Idle, Reply::Command(command)) => w.idle_command(command),
            (Stage::Idle, Reply::Quiet) => w.idle_quiet(),
            (Stage::Poll, Reply::Command(command)) => w.polled(command),
            (Stage::Poll, Reply::Quiet) => w.polled_quiet(),
            (Stage::Rebind, Reply::Bound(format)) => w.bound(format),
            (Stage::Rebuild { resume_at }, Reply::Rebuilt { next, current }) => w.rebuilt(
                resume_at,
                next,
                current,
            ),
            (Stage::Open { path, purpose: Purpose::Play(prefill) }, Reply::Opened(opened)) =>
            w.play_opened(prefill, opened),
            (Stage::Open { path, purpose: Purpose::Next }, Reply::Opened(opened)) => w.next_opened(
                opened,
            ),
            (Stage::Drain(then_do), Reply::Drained) => w.drained(then_do),
            (Stage::Decode(fill), Reply::Packet(packet)) => w.packet(fill, packet),
            (Stage::Deliver { samples, fill }, Reply::Delivered(written)) => w.delivered(
                fill,
                written,
            ),
            (Stage::Seek(_), Reply::Landed(landing)) => w.landed(landing),
            (Stage::Skip { frames, landing }, Reply::Skipped(skipped)) => w.skipped(
                landing,
                skipped,
            ),
            (Stage::Flush(then_do), Reply::Flushed(outcome)) => w.flushed(then_do, outcome),
            (Stage::Park, Reply::Woken) => w.round(),
            _ => w,
        }
    }
}

} // verus!
