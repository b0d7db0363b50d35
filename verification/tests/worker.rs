use std::collections::VecDeque;
use voxio::channel::Received;
use voxio::command::{SeekPosition, VoxCommand};
use voxio::control;
use voxio::decoder::{Codec, Landing, Span, TrackHeader, VoxDecoder};
use voxio::effect::Effect;
use voxio::error::VoxError;
use voxio::event::{EndReason, StartReason, VoxEvent};
use voxio::replaygain::{ReplayGainInfo, ReplayGainMode};
use voxio::resampler::VoxResampler;
use voxio::stage::{Fill, Loaded, Opened, Reply, Stage};
use voxio::state::SharedState;
use voxio::worker::VoxWorker;

const RATE: u32 = 48_000;

/// A stand-in for everything around the worker: files are known by name, and
/// every outside action succeeds unless told otherwise.
struct Engine {
    worker: VoxWorker<u32, u32>,
    state: SharedState,
    commands: VecDeque<VoxCommand>,
    binding: Option<(u32, usize)>,
    /// Packets left in the current track.
    packets: usize,
    seek_fails: bool,
    flush_fails: bool,
    decode_fails: bool,
    landing: Option<Landing>,
    effects: Vec<Effect>,
    events: Vec<VoxEvent>,
    opened: Vec<String>,
    sought: Vec<u64>,
    skipped: Vec<u64>,
}

fn at_micros(units: i64) -> Landing {
    Landing { units, per_second: 1_000_000, needs_warmup: true }
}

fn track(path: &str) -> Result<Opened<u32, u32>, VoxError> {
    if path.ends_with(".txt") {
        return Err(VoxError::Decoder("not audio".to_string()));
    }
    // 30 s at the output rate, or at 44.1 kHz, which has to be resampled.
    let rate = if path.contains("cd") { 44_100 } else { RATE };
    let n_frames = if path.contains("endless") { None } else { Some(30 * rate as u64) };
    let codec = if path.ends_with(".mp3") { Codec::Mp3 } else { Codec::Other };
    let header = TrackHeader {
        track_id: 1,
        codec,
        sample_rate: Some(rate),
        channels: Some(2),
        n_frames,
        track: Span { time_base: None, ticks: None },
        media: Span { time_base: None, ticks: None },
        duration_estimated: path.contains("estimated"),
    };
    let decoder = VoxDecoder::open(
        path.to_string(),
        Ok(header),
        None,
        ReplayGainInfo {
            track_gain_db: Some((-6.0f32).to_bits()),
            ..ReplayGainInfo::default()
        },
    )
    .ok()
    .unwrap();
    let built = if path.contains("unresampled") {
        Err("odd rate".to_string())
    } else {
        Ok(7)
    };
    let resampler = VoxResampler::new(rate, RATE, 2, Some(built));
    Ok(Opened { track: Loaded { decoder, source: 5 }, resampler })
}

impl Engine {
    fn new() -> Engine {
        let mut state = SharedState::default();
        state.set_output_format(RATE, 2);
        Engine {
            worker: VoxWorker::new(RATE, 2),
            state,
            commands: VecDeque::new(),
            binding: None,
            packets: 1000,
            seek_fails: false,
            flush_fails: false,
            decode_fails: false,
            landing: None,
            effects: Vec::new(),
            events: Vec::new(),
            opened: Vec::new(),
            sought: Vec::new(),
            skipped: Vec::new(),
        }
    }

    fn snapshot(&self) -> SharedState {
        SharedState { ..self.state }
    }

    fn answer(&mut self, reply: Reply<u32, u32>) {
        self.worker.resume(self.snapshot(), reply);
        for effect in self.worker.take_effects() {
            self.state.apply(&effect);
            if let Effect::Emit(event) = &effect {
                self.events.push(event.clone());
            }
            self.effects.push(effect);
        }
    }

    fn take_command(&mut self) -> Reply<u32, u32> {
        match self.commands.pop_front() {
            Some(command) => Reply::Command(command),
            None => Reply::Quiet,
        }
    }

    /// Runs until the worker has nothing to do but play, wait or stay parked.
    fn run(&mut self) {
        for _ in 0..10_000 {
            let reply = match &self.worker.deck.stage {
                Stage::Idle | Stage::Park | Stage::Decode(Fill::Playback)
                    if self.commands.is_empty() && self.binding.is_none() =>
                {
                    return
                }
                Stage::Halted => return,
                Stage::Idle if self.commands.is_empty() => Reply::Quiet,
                Stage::Idle | Stage::Poll => self.take_command(),
                Stage::Park => Reply::Woken,
                Stage::Rebind => Reply::Bound(self.binding.take()),
                Stage::Rebuild { .. } => Reply::Rebuilt { next: Ok(None), current: Ok(None) },
                Stage::Open { path, .. } => {
                    let path = path.clone();
                    self.opened.push(path.clone());
                    Reply::Opened(track(&path))
                }
                Stage::Drain(_) => Reply::Drained,
                Stage::Decode(_) if self.decode_fails => {
                    Reply::Packet(Err(VoxError::Decoder("broken".to_string())))
                }
                Stage::Decode(_) => {
                    if self.packets == 0 {
                        Reply::Packet(Ok(None))
                    } else {
                        self.packets -= 1;
                        if let Some(current) = self.worker.deck.current.as_mut() {
                            current.decoder.frames_emitted += 1024;
                        }
                        Reply::Packet(Ok(Some(vec![0; 2048])))
                    }
                }
                Stage::Deliver { samples, .. } => Reply::Delivered(Ok(samples.len())),
                Stage::Seek(_) if self.seek_fails => {
                    Reply::Landed(Err(VoxError::Seek("lost".to_string())))
                }
                Stage::Seek(target) => {
                    let target = *target;
                    self.sought.push(target);
                    Reply::Landed(Ok(self.landing.unwrap_or(at_micros(target as i64))))
                }
                Stage::Skip { frames, .. } => {
                    let frames = *frames;
                    self.skipped.push(frames);
                    Reply::Skipped(Ok(frames))
                }
                Stage::Flush(_) if self.flush_fails => {
                    Reply::Flushed(Err(VoxError::Resampler("stuck".to_string())))
                }
                Stage::Flush(_) => Reply::Flushed(Ok(())),
            };
            self.answer(reply);
        }
        panic!("the worker does not settle");
    }

    fn give(&mut self, command: VoxCommand) {
        self.commands.push_back(command);
        self.run();
    }

    fn play(&mut self, path: &str) {
        self.give(VoxCommand::Play(path.to_string()));
    }

    fn next(&mut self, path: &str) {
        self.give(VoxCommand::QueueNext(path.to_string()));
    }

    fn seek(&mut self, secs: i64) {
        self.give(VoxCommand::Seek(SeekPosition::Absolute(secs * 1_000_000)));
    }

    /// Plays the current track to its end.
    fn play_out(&mut self) {
        self.packets = 0;
        assert!(matches!(self.worker.deck.stage, Stage::Decode(Fill::Playback)));
        self.answer(Reply::Packet(Ok(None)));
        self.packets = 1000;
        self.run();
    }

    fn take_events(&mut self) -> Vec<VoxEvent> {
        std::mem::take(&mut self.events)
    }
}

fn started(path: &str, reason: StartReason) -> VoxEvent {
    let sample_rate = if path.contains("cd") { 44_100 } else { RATE };
    let duration = if path.contains("endless") { 0 } else { 30_000_000 };
    VoxEvent::TrackStarted {
        path: path.to_string(),
        duration,
        sample_rate,
        channels: 2,
        reason,
    }
}

fn ended(path: &str, reason: EndReason) -> VoxEvent {
    VoxEvent::TrackEnded { path: path.to_string(), reason }
}

fn error(error: VoxError, recoverable: bool) -> VoxEvent {
    VoxEvent::Error { error, recoverable }
}

fn not_audio() -> VoxError {
    VoxError::Decoder("not audio".to_string())
}

#[test]
fn play_on_idle_engine_announces_only_the_start() {
    let mut e = Engine::new();
    e.play("a.wav");
    assert_eq!(e.take_events(), [started("a.wav", StartReason::Play)]);
    assert!(e.state.is_active() && !e.state.is_seeking());
    assert_eq!(e.state.get_duration_micros(), 30_000_000);
    // 40 ms of audio were put into the ring first: two packets of 1024 frames.
    assert_eq!(e.packets, 998);
}

#[test]
fn play_interrupts_the_old_track_first() {
    let mut e = Engine::new();
    e.play("a.wav");
    e.take_events();
    e.play("b.wav");
    assert_eq!(
        e.take_events(),
        [
            ended("a.wav", EndReason::Interrupted),
            started("b.wav", StartReason::Play)
        ]
    );
    assert_eq!(e.state.get_samples(), 0);
}

#[test]
fn play_resumes_a_paused_engine() {
    let mut e = Engine::new();
    e.give(VoxCommand::Pause);
    e.play("a.wav");
    assert_eq!(
        e.take_events(),
        [
            VoxEvent::StateChanged { paused: true },
            VoxEvent::StateChanged { paused: false },
            started("a.wav", StartReason::Play)
        ]
    );
}

#[test]
fn undecodable_file_is_a_recoverable_error() {
    let mut e = Engine::new();
    e.play("notes.txt");
    assert_eq!(e.take_events(), [error(not_audio(), true), VoxEvent::Stopped]);
    assert!(!e.state.is_active() && !e.state.is_seeking());
    // The engine goes on.
    e.play("a.wav");
    assert_eq!(e.take_events(), [started("a.wav", StartReason::Play)]);
}

#[test]
fn unresamplable_file_fails_for_good() {
    let mut e = Engine::new();
    e.play("unresampled-cd.wav");
    assert_eq!(
        e.take_events(),
        [
            error(VoxError::Resampler("odd rate".to_string()), false),
            VoxEvent::Stopped
        ]
    );
    assert!(!e.state.is_active() && !e.state.is_seeking());
}

#[test]
fn decode_failure_ends_the_track() {
    let mut e = Engine::new();
    e.play("a.wav");
    e.take_events();
    e.decode_fails = true;
    e.answer(Reply::Packet(Err(VoxError::Decoder("broken".to_string()))));
    assert_eq!(
        e.take_events(),
        [
            error(VoxError::Decoder("broken".to_string()), false),
            ended("a.wav", EndReason::Failed),
            VoxEvent::Stopped
        ]
    );
    assert!(matches!(e.worker.deck.stage, Stage::Idle));
}

#[test]
fn failure_while_filling_the_ring_is_announced_without_a_start() {
    let mut e = Engine::new();
    e.decode_fails = true;
    e.play("a.wav");
    assert_eq!(
        e.take_events(),
        [
            error(VoxError::Decoder("broken".to_string()), false),
            ended("a.wav", EndReason::Failed),
            VoxEvent::Stopped
        ]
    );
}

#[test]
fn pause_and_resume_announce_changes_only() {
    let mut e = Engine::new();
    e.play("a.wav");
    e.take_events();
    e.give(VoxCommand::Pause);
    e.give(VoxCommand::Pause);
    assert!(e.state.is_paused());
    assert!(matches!(e.worker.deck.stage, Stage::Park));
    e.give(VoxCommand::Resume);
    e.give(VoxCommand::Resume);
    assert_eq!(
        e.take_events(),
        [
            VoxEvent::StateChanged { paused: true },
            VoxEvent::StateChanged { paused: false }
        ]
    );
}

#[test]
fn stop_announces_the_interruption_and_then_the_stop() {
    let mut e = Engine::new();
    e.play("a.wav");
    e.next("b.wav");
    e.take_events();
    e.effects.clear();
    e.give(VoxCommand::Stop);
    assert_eq!(
        e.take_events(),
        [ended("a.wav", EndReason::Interrupted), VoxEvent::Stopped]
    );
    let at = |wanted: &Effect| e.effects.iter().position(|effect| effect == wanted).unwrap();
    let end = Effect::Emit(ended("a.wav", EndReason::Interrupted));
    assert!(at(&end) < at(&Effect::SetActive(false)));
    assert!(e.worker.deck.current.is_none() && e.worker.deck.next.is_none());
    // Stopping an idle engine says so again, and nothing else.
    e.give(VoxCommand::Stop);
    assert_eq!(e.take_events(), [VoxEvent::Stopped]);
}

#[test]
fn primed_track_follows_without_a_gap() {
    let mut e = Engine::new();
    e.play("a.wav");
    e.next("b.wav");
    e.take_events();
    let epoch = e.state.track_epoch();
    e.worker.deck.seeked = true; // no reconciliation of the length
    e.play_out();
    assert_eq!(
        e.take_events(),
        [
            ended("a.wav", EndReason::EndOfStream),
            started("b.wav", StartReason::Gapless)
        ]
    );
    assert!(e.state.is_active());
    assert_eq!(e.state.track_epoch(), epoch + 1);
    assert!(e.worker.deck.next.is_none());
}

#[test]
fn rate_change_flushes_the_resampler() {
    let mut e = Engine::new();
    e.play("cd1.wav");
    e.next("a.wav");
    e.take_events();
    e.worker.deck.seeked = true;
    e.effects.clear();
    e.play_out();
    assert_eq!(
        e.take_events(),
        [
            ended("cd1.wav", EndReason::EndOfStream),
            started("a.wav", StartReason::Gapless)
        ]
    );
    assert!(e.worker.deck.resampler.is_none());
    assert!(e.effects.contains(&Effect::ClearPending));
}

#[test]
fn shared_rate_keeps_the_resampler_and_its_input() {
    let mut e = Engine::new();
    e.play("cd1.wav");
    e.next("cd2.wav");
    e.worker.deck.seeked = true;
    e.effects.clear();
    e.play_out();
    assert!(e.worker.deck.resampler.is_some());
    assert!(!e.effects.contains(&Effect::ClearPending));
}

#[test]
fn failed_flush_fails_the_track() {
    let mut e = Engine::new();
    e.play("cd1.wav");
    e.take_events();
    e.worker.deck.seeked = true;
    e.flush_fails = true;
    e.play_out();
    assert_eq!(
        e.take_events(),
        [
            error(VoxError::Resampler("stuck".to_string()), false),
            ended("cd1.wav", EndReason::Failed),
            VoxEvent::Stopped
        ]
    );
    assert!(!e.state.is_active());
}

#[test]
fn landing_before_the_start_is_made_up_for_by_what_is_skipped() {
    let mut e = Engine::new();
    e.play("cd1.mp3");
    e.state.set_output_format(44_100, 2);
    e.worker.deck.output_rate = 44_100;
    e.landing = Some(Landing { units: -800, per_second: 44_100, needs_warmup: true });
    e.seek(0);
    // 882 frames were skipped, 82 of them after the start.
    assert_eq!(e.skipped, [882]);
    assert_eq!(e.state.get_samples(), 164);
    // Where even that does not reach the start, playback is at the start.
    e.landing = Some(Landing { units: -883, per_second: 44_100, needs_warmup: true });
    e.seek(0);
    assert_eq!(e.state.get_samples(), 0);
}

#[test]
fn end_is_found_by_frames() {
    let mut e = Engine::new();
    e.play("a.wav");
    // One frame at 48 kHz lasts 20.83 microseconds.
    e.worker.deck.current.as_mut().unwrap().decoder.info.n_frames = Some(1);
    e.give(VoxCommand::Seek(SeekPosition::Absolute(20)));
    assert_eq!(e.sought, [20]);
    e.take_events();
    e.give(VoxCommand::Seek(SeekPosition::Absolute(21)));
    assert_eq!(
        e.take_events(),
        [ended("a.wav", EndReason::EndOfStream), VoxEvent::Stopped]
    );
}

#[test]
fn stopping_leaves_no_duration() {
    let mut e = Engine::new();
    e.play("a.wav");
    assert_eq!(e.state.duration_samples(), 2_880_000);
    e.give(VoxCommand::Stop);
    assert_eq!(e.state.duration_samples(), 0);
    assert_eq!(e.state.get_duration_micros(), 0);
}

#[test]
fn play_drops_the_seek_before_it() {
    let mut e = Engine::new();
    e.play("a.wav");
    e.commands.push_back(VoxCommand::Seek(SeekPosition::Absolute(10_000_000)));
    e.commands.push_back(VoxCommand::Play("b.wav".to_string()));
    e.run();
    assert!(e.sought.is_empty());
    assert_eq!(e.state.get_samples(), 0);
}

#[test]
fn burst_of_seeks_is_one_seek() {
    let mut e = Engine::new();
    e.play("a.wav");
    let epoch = e.state.seek_epoch();
    for to in [
        SeekPosition::Relative(3_000_000),
        SeekPosition::Absolute(9_000_000),
        SeekPosition::Relative(-2_000_000),
        SeekPosition::Relative(500_000),
    ] {
        e.commands.push_back(VoxCommand::Seek(to));
    }
    e.run();
    assert_eq!(e.sought, [7_500_000]);
    assert_eq!(e.state.seek_epoch(), epoch + 1);
}

#[test]
fn priming_overwrites_and_clearing_drops() {
    let mut e = Engine::new();
    e.play("a.wav");
    e.next("b.wav");
    e.next("c.wav");
    let primed = |e: &Engine| e.worker.deck.next.as_ref().map(|q| q.track.decoder.path.clone());
    assert_eq!(primed(&e), Some("c.wav".to_string()));
    e.take_events();
    // A bad file leaves what is primed alone.
    e.next("notes.txt");
    assert_eq!(e.take_events(), [error(not_audio(), true)]);
    assert_eq!(primed(&e), Some("c.wav".to_string()));
    e.give(VoxCommand::ClearNext);
    assert_eq!(primed(&e), None);
    assert!(e.take_events().is_empty());
    // A new play discards it as well.
    e.next("d.wav");
    e.play("a.wav");
    assert_eq!(primed(&e), None);
}

#[test]
fn priming_announces_the_track() {
    let mut e = Engine::new();
    e.play("a.wav");
    e.take_events();
    e.next("cd2.wav");
    assert_eq!(
        e.take_events(),
        [VoxEvent::NextReady {
            path: "cd2.wav".to_string(),
            duration: 30_000_000,
            sample_rate: 44_100,
            channels: 2
        }]
    );
}

#[test]
fn seek_moves_the_position() {
    let mut e = Engine::new();
    e.play("a.wav");
    e.seek(5);
    assert_eq!(e.sought, [5_000_000]);
    assert_eq!(e.state.position(), 5_000_000);
    assert!(!e.state.is_seeking());
    // Before the start means the start.
    e.seek(-5);
    assert_eq!(e.sought, [5_000_000, 0]);
    assert_eq!(e.state.get_samples(), 0);
}

#[test]
fn lossy_codecs_skip_one_packet_after_a_seek() {
    let mut e = Engine::new();
    e.play("a.mp3");
    e.landing = Some(at_micros(4_990_000));
    e.seek(5);
    // 20 ms at 48 kHz, which count as played.
    assert_eq!(e.skipped, [960]);
    assert_eq!(e.state.position(), 5_010_000);
    e.play("a.wav");
    e.seek(5);
    assert_eq!(e.skipped, [960, 0]);
}

#[test]
fn relative_seek_starts_from_the_position() {
    let mut e = Engine::new();
    e.play("a.wav");
    e.seek(12);
    e.give(VoxCommand::Seek(SeekPosition::Relative(-4_000_000)));
    assert_eq!(e.sought, [12_000_000, 8_000_000]);
    e.give(VoxCommand::Seek(SeekPosition::Relative(-10_000_000)));
    assert_eq!(e.sought.last(), Some(&0));
}

#[test]
fn seek_past_the_end_hands_over() {
    let mut e = Engine::new();
    e.play("a.wav");
    e.next("b.wav");
    e.take_events();
    e.seek(31);
    assert_eq!(
        e.take_events(),
        [
            ended("a.wav", EndReason::EndOfStream),
            started("b.wav", StartReason::Gapless)
        ]
    );
    assert!(e.sought.is_empty() && e.state.is_active() && !e.state.is_seeking());
}

#[test]
fn seek_past_the_end_without_a_next_track_stops() {
    let mut e = Engine::new();
    e.play("a.wav");
    e.next("b.wav");
    e.give(VoxCommand::ClearNext);
    e.take_events();
    e.seek(30); // the very end
    assert_eq!(
        e.take_events(),
        [ended("a.wav", EndReason::EndOfStream), VoxEvent::Stopped]
    );
    assert!(!e.state.is_active());
}

#[test]
fn unknown_duration_has_no_end_to_seek_past() {
    let mut e = Engine::new();
    e.play("endless.wav");
    e.seek(100_000);
    assert_eq!(e.sought, [100_000_000_000]);
}

#[test]
fn failed_seek_ends_the_track() {
    let mut e = Engine::new();
    e.play("a.wav");
    e.take_events();
    e.seek_fails = true;
    e.seek(3);
    assert_eq!(
        e.take_events(),
        [
            error(VoxError::Seek("lost".to_string()), true),
            ended("a.wav", EndReason::EndOfStream),
            VoxEvent::Stopped
        ]
    );
}

#[test]
fn commands_on_an_idle_engine_do_no_harm() {
    let mut e = Engine::new();
    e.seek(5);
    e.give(VoxCommand::Seek(SeekPosition::Relative(1)));
    e.give(VoxCommand::ClearNext);
    e.give(VoxCommand::ReplayGain(ReplayGainMode::Album));
    assert!(e.take_events().is_empty());
    assert!(!e.state.is_seeking() && !e.state.is_active());
    assert_eq!(e.state.seek_epoch(), 2);
    assert_eq!(e.worker.deck.rg_mode, ReplayGainMode::Album);
}

#[test]
fn burst_of_plays_and_seeks_is_coalesced() {
    let mut e = Engine::new();
    e.play("a.wav");
    e.take_events();
    e.opened.clear();
    for path in ["b.wav", "c.wav"] {
        e.commands.push_back(VoxCommand::QueueNext("x.wav".to_string()));
        e.commands.push_back(VoxCommand::Play(path.to_string()));
    }
    e.commands.push_back(VoxCommand::Seek(SeekPosition::Absolute(2_000_000)));
    e.commands.push_back(VoxCommand::Seek(SeekPosition::Relative(1_000_000)));
    e.commands.push_back(VoxCommand::QueueNext("d.wav".to_string()));
    let before = e.packets;
    e.run();
    // Only the last play is opened; what follows it is primed in the next round.
    assert_eq!(e.opened, ["c.wav"]);
    assert_eq!(e.sought, [3_000_000]);
    assert_eq!(e.worker.deck.deferred_next, Some("d.wav".to_string()));
    assert_eq!(
        e.take_events(),
        [
            ended("a.wav", EndReason::Interrupted),
            started("c.wav", StartReason::Play)
        ]
    );
    // A packet of the old track came before the burst was read. The ring was
    // filled once, at the target of the seek.
    assert_eq!(before - e.packets, 1 + 2);
    // The next round primes.
    e.answer(Reply::Packet(Ok(Some(vec![0; 2048]))));
    e.answer(Reply::Delivered(Ok(2048)));
    e.run();
    assert_eq!(e.opened, ["c.wav", "d.wav"]);
    assert!(matches!(e.take_events()[..], [VoxEvent::NextReady { .. }]));
}

#[test]
fn other_commands_cut_a_burst_in_place() {
    let mut e = Engine::new();
    e.play("a.wav");
    e.take_events();
    e.commands.push_back(VoxCommand::Play("b.wav".to_string()));
    e.commands.push_back(VoxCommand::QueueNext("c.wav".to_string()));
    e.commands.push_back(VoxCommand::Pause);
    e.commands.push_back(VoxCommand::Seek(SeekPosition::Absolute(1_000_000)));
    e.run();
    let events = e.take_events();
    assert_eq!(events[0], ended("a.wav", EndReason::Interrupted));
    assert_eq!(events[1], started("b.wav", StartReason::Play));
    assert!(matches!(events[2], VoxEvent::NextReady { .. }));
    assert_eq!(events[3], VoxEvent::StateChanged { paused: true });
    assert_eq!(events.len(), 4);
    assert_eq!(e.sought, [1_000_000]);
}

#[test]
fn new_output_resumes_at_the_old_position() {
    let mut e = Engine::new();
    e.play("a.wav");
    e.seek(10);
    e.state.set_output_format(96_000, 4);
    e.binding = Some((96_000, 4));
    e.run_until_bound();
    assert_eq!(e.sought, [10_000_000, 10_000_000]);
    assert_eq!(e.state.get_samples(), 3_840_000);
    assert_eq!(e.state.position(), 10_000_000);
}

impl Engine {
    /// Lets the worker come round to adopt a new output.
    fn run_until_bound(&mut self) {
        self.answer(Reply::Packet(Ok(Some(vec![0; 2048]))));
        self.answer(Reply::Delivered(Ok(2048)));
        self.run();
    }
}

#[test]
fn short_track_corrects_its_duration() {
    let mut e = Engine::new();
    e.play("a.wav");
    e.take_events();
    // Two packets decoded: 2048 frames.
    e.play_out();
    assert_eq!(
        e.take_events(),
        [
            VoxEvent::DurationResolved { path: "a.wav".to_string(), duration: 42_666 },
            ended("a.wav", EndReason::EndOfStream),
            VoxEvent::Stopped
        ]
    );
    // After a seek the count means nothing.
    e.play("b.wav");
    e.seek(1);
    e.take_events();
    e.play_out();
    assert_eq!(
        e.take_events(),
        [ended("b.wav", EndReason::EndOfStream), VoxEvent::Stopped]
    );
}

#[test]
fn estimated_track_is_scanned_for_its_epoch() {
    let mut e = Engine::new();
    e.play("estimated.wav");
    let scan = Effect::Scan { path: "estimated.wav".to_string(), epoch: 1 };
    assert!(e.effects.contains(&scan));
    assert_eq!(e.state.track_epoch(), 1);
    e.give(VoxCommand::Stop);
    assert_eq!(e.state.track_epoch(), 2);
}

#[test]
fn gain_follows_track_and_mode() {
    let mut e = Engine::new();
    let gain = |e: &Engine| {
        f32::from_bits(e.worker.update_gain(
            |db| 10f32.powf(f32::from_bits(db) / 20.0).to_bits(),
            |raw, _| raw,
        ))
    };
    assert_eq!(gain(&e), 1.0);
    e.give(VoxCommand::ReplayGain(ReplayGainMode::Track));
    assert_eq!(gain(&e), 1.0);
    e.play("a.wav");
    assert!((gain(&e) - 0.501).abs() < 0.001);
    e.effects.clear();
    e.give(VoxCommand::ReplayGain(ReplayGainMode::Off));
    assert!(e.effects.contains(&Effect::UpdateGain));
    assert_eq!(gain(&e), 1.0);
}

#[test]
fn shutdown_and_disconnect_halt_the_worker() {
    let mut e = Engine::new();
    e.play("a.wav");
    e.give(VoxCommand::Shutdown);
    assert!(matches!(e.worker.deck.stage, Stage::Halted));
    let mut e = Engine::new();
    e.answer(Reply::Disconnected);
    assert!(matches!(e.worker.deck.stage, Stage::Halted));
}

#[test]
fn rebuilding_parks_the_worker() {
    let mut e = Engine::new();
    e.play("a.wav");
    e.state.set_rebuilding(true);
    e.answer(Reply::Packet(Ok(Some(vec![0; 2048]))));
    e.answer(Reply::Delivered(Ok(2048)));
    e.run_to_park();
    assert!(matches!(e.worker.deck.stage, Stage::Park));
    e.state.set_rebuilding(false);
    e.answer(Reply::Woken);
    e.run();
    assert!(matches!(e.worker.deck.stage, Stage::Decode(Fill::Playback)));
}

impl Engine {
    fn run_to_park(&mut self) {
        self.answer(Reply::Bound(None));
        self.answer(Reply::Quiet);
    }
}

#[test]
fn commands_and_bindings_come_through_channels() {
    let (tx, mut rx) = crossbeam_channel::unbounded();
    let (binding_tx, mut bindings) = crossbeam_channel::unbounded();
    let (p0, _c0) = rtrb::RingBuffer::<u32>::new(4);
    let mut feed = voxio::feed::Feed::new(p0);
    feed.pending = vec![1, 2, 3];
    let mut e = Engine::new();
    e.play("a.wav");
    e.answer(Reply::Packet(Ok(Some(vec![0; 2048]))));
    e.answer(Reply::Delivered(Ok(2048)));
    // No binding has come: the old ring goes on.
    e.worker.apply_bindings(SharedState { ..e.state }, &mut feed, &mut bindings);
    assert_eq!(feed.pending, [1, 2, 3]);
    assert!(matches!(e.worker.deck.stage, Stage::Poll));
    tx.send(VoxCommand::Play("b.wav".to_string())).unwrap();
    e.worker.poll_commands(SharedState { ..e.state }, &mut rx);
    assert_eq!(e.worker.deck.batch.play, Some("b.wav".to_string()));
    assert!(rx.is_empty());
    e.worker.poll_commands(SharedState { ..e.state }, &mut rx);
    assert!(matches!(e.worker.deck.stage, Stage::Open { .. }));
    e.run();
    // Of two bindings the newer one counts.
    e.answer(Reply::Packet(Ok(Some(vec![0; 2048]))));
    e.answer(Reply::Delivered(Ok(2048)));
    for (rate, capacity) in [(44_100, 8), (96_000, 16)] {
        let (producer, _consumer) = rtrb::RingBuffer::<u32>::new(capacity);
        binding_tx
            .send(voxio::output::AudioBinding { producer, output_rate: rate, output_channels: 6 })
            .unwrap();
    }
    e.worker.apply_bindings(SharedState { ..e.state }, &mut feed, &mut bindings);
    assert_eq!((e.worker.deck.output_rate, e.worker.deck.output_channels), (96_000, 6));
    assert_eq!(feed.producer.buffer().capacity(), 16);
    assert!(feed.pending.is_empty());
    // A look at the channel is what the worker is told.
    e.worker.deck.stage = Stage::Poll;
    e.worker.polled_message(SharedState { ..e.state }, Received::Message(VoxCommand::Shutdown));
    assert!(matches!(e.worker.deck.stage, Stage::Halted));
    // Nobody left to command.
    drop(tx);
    e.worker.deck.stage = Stage::Poll;
    e.worker.poll_commands(SharedState { ..e.state }, &mut rx);
    assert!(matches!(e.worker.deck.stage, Stage::Halted));
}

#[test]
fn fresh_worker_knows_nothing() {
    let worker: VoxWorker<u32, u32> = VoxWorker::new(RATE, 2);
    assert!(!worker.state.is_active() && !worker.state.is_paused());
    assert!(!worker.state.is_seeking() && !worker.state.is_shutdown());
    assert_eq!(worker.state.get_samples(), 0);
    assert_eq!((worker.state.output_rate(), worker.state.output_channels()), (0, 0));
    assert!(worker.outbox.is_empty());
    assert!(matches!(worker.deck.stage, Stage::Idle));
}

// -- The engine as its caller sees it -------------------------

const LEGAL_FILE: &str = "tests/test_suite/Preludes, Op. 28 - No. 16 'Hades'.mp3";
const PART1: &str = "tests/test_suite/part1.mp3";
const PART2: &str = "tests/test_suite/part2.mp3";
const TEXT_FILE: &str = "tests/test_suite/invalid_filetype.txt";

/// The engine handle: checks a request, and lets the worker get on with it.
struct Handle {
    engine: Engine,
}

fn fresh() -> Handle {
    Handle { engine: Engine::new() }
}

fn is_file(path: &str) -> bool {
    [LEGAL_FILE, PART1, PART2, TEXT_FILE].contains(&path)
}

fn micros(secs: f64) -> i64 {
    (secs * 1_000_000.0) as i64
}

impl Handle {
    fn play(&mut self, path: &str) -> Result<(), VoxError> {
        let command = control::play(&mut self.engine.state, path, is_file(path))?;
        self.engine.give(command);
        Ok(())
    }

    fn set_next(&mut self, path: &str) -> Result<(), VoxError> {
        let command = control::set_next(&self.engine.state, path, is_file(path))?;
        self.engine.give(command);
        Ok(())
    }

    fn give(&mut self, command: VoxCommand) {
        self.engine.give(command);
    }

    fn seek_to(&mut self, secs: f64) {
        self.give(VoxCommand::Seek(SeekPosition::Absolute(micros(secs))));
    }

    fn seek_relative(&mut self, secs: f64) {
        self.give(VoxCommand::Seek(SeekPosition::Relative(micros(secs))));
    }

    fn event(&mut self) -> Option<VoxEvent> {
        if self.engine.events.is_empty() {
            None
        } else {
            Some(self.engine.events.remove(0))
        }
    }

    fn position(&self) -> f64 {
        self.engine.state.position() as f64 / 1_000_000.0
    }

    fn duration(&self) -> f64 {
        self.engine.state.get_duration_micros() as f64 / 1_000_000.0
    }

    fn is_active(&self) -> bool {
        self.engine.state.is_active()
    }
}

fn ended_with(event: &Option<VoxEvent>, why: EndReason) -> bool {
    matches!(event, Some(VoxEvent::TrackEnded { reason, .. }) if *reason == why)
}

fn started_by(event: &Option<VoxEvent>, why: StartReason) -> bool {
    matches!(event, Some(VoxEvent::TrackStarted { reason, .. }) if *reason == why)
}

fn is_decode_error(event: &Option<VoxEvent>) -> bool {
    matches!(
        event,
        Some(VoxEvent::Error { error: VoxError::Decoder(_), recoverable: true })
    )
}

#[test]
fn text_file() {
    let mut v = fresh();
    assert_eq!(v.play(TEXT_FILE), Ok(()));
    assert!(is_decode_error(&v.event()));
}

#[test]
fn legal_file() {
    let mut v = fresh();
    assert_eq!(v.play(LEGAL_FILE), Ok(()));
    assert!(matches!(v.event(), Some(VoxEvent::TrackStarted { .. })));
}

#[test]
fn pause_and_resume_events() {
    let mut v = fresh();
    v.play(LEGAL_FILE).unwrap();
    v.event();
    v.give(VoxCommand::Pause);
    assert!(matches!(v.event(), Some(VoxEvent::StateChanged { paused: true })));
    v.give(VoxCommand::Resume);
    assert!(matches!(v.event(), Some(VoxEvent::StateChanged { paused: false })));
}

#[test]
fn stop_emits_track_ended() {
    let mut v = fresh();
    v.play(LEGAL_FILE).unwrap();
    v.event();
    v.give(VoxCommand::Stop);
    assert!(ended_with(&v.event(), EndReason::Interrupted));
}

#[test]
fn set_next_valid_file() {
    let mut v = fresh();
    v.play(LEGAL_FILE).unwrap();
    v.event();
    v.set_next(LEGAL_FILE).unwrap();
    assert!(matches!(v.event(), Some(VoxEvent::NextReady { .. })));
}

#[test]
fn set_next_invalid_file() {
    let mut v = fresh();
    v.play(LEGAL_FILE).unwrap();
    v.event();
    v.set_next("tests/test_suite/invalid_filetype.txt").unwrap();
    assert!(is_decode_error(&v.event()));
}

#[test]
fn clear_next_suppresses_gapless() {
    let mut v = fresh();
    v.play(LEGAL_FILE).unwrap();
    v.event();
    v.set_next(LEGAL_FILE).unwrap();
    v.event();
    v.give(VoxCommand::ClearNext);
    let dur = v.duration();
    v.seek_to(dur + 1.0);
    assert!(ended_with(&v.event(), EndReason::EndOfStream));
    assert!(matches!(v.event(), Some(VoxEvent::Stopped)));
    assert_eq!(v.event(), None);
    assert!(!v.is_active())
}

#[test]
fn seek_past_end_triggers_gapless() {
    let mut v = fresh();
    v.play(LEGAL_FILE).unwrap();
    v.event();
    v.set_next(LEGAL_FILE).unwrap();
    v.event();
    let dur = v.duration();
    v.seek_to(dur + 1.0);
    assert!(ended_with(&v.event(), EndReason::EndOfStream));
    assert!(started_by(&v.event(), StartReason::Gapless));
}

#[test]
fn seek_forward_5s() {
    let mut v = fresh();
    v.play(LEGAL_FILE).unwrap();
    v.seek_to(5.0);
    assert!((4.9..5.1).contains(&v.position()));
}

#[test]
fn seek_negative_clamps_to_zero() {
    let mut v = fresh();
    v.play(LEGAL_FILE).unwrap();
    v.seek_to(-5.0);
    assert!((0.0..0.1).contains(&v.position()));
}

#[test]
fn seek_relative_negative() {
    let mut v = fresh();
    v.play(LEGAL_FILE).unwrap();
    v.seek_relative(-10.0);
    assert!((0.0..0.1).contains(&v.position()));
}

#[test]
fn seek_past_end_no_next() {
    let mut v = fresh();
    v.play(LEGAL_FILE).unwrap();
    v.event();
    let dur = v.duration();
    v.seek_to(dur + 10.0);
    assert!(ended_with(&v.event(), EndReason::EndOfStream));
    while let Some(event) = v.event() {
        assert!(!matches!(event, VoxEvent::TrackStarted { .. }));
    }
}

#[test]
fn monster_command_sequence() {
    let mut v = fresh();
    v.play(LEGAL_FILE).unwrap();
    assert!(matches!(v.event(), Some(VoxEvent::TrackStarted { .. })));
    v.give(VoxCommand::Pause);
    assert!(matches!(v.event(), Some(VoxEvent::StateChanged { paused: true })));
    v.seek_to(12.0);
    assert!((11.9..12.1).contains(&v.position()));
    v.set_next(LEGAL_FILE).unwrap();
    assert!(matches!(v.event(), Some(VoxEvent::NextReady { .. })));
    v.give(VoxCommand::Resume);
    assert!(matches!(v.event(), Some(VoxEvent::StateChanged { paused: false })));
    v.seek_relative(-4.0);
    assert!((7.9..8.2).contains(&v.position()));
}

#[test]
fn seek_to_very_large_value() {
    let mut v = fresh();
    v.play(LEGAL_FILE).unwrap();
    v.event();
    v.seek_to(f64::MAX / 2.0);
    assert!(ended_with(&v.event(), EndReason::EndOfStream));
}

#[test]
fn gapless_chain_two_tracks() {
    let mut v = fresh();
    v.play(PART1).unwrap();
    assert!(started_by(&v.event(), StartReason::Play));
    v.set_next(PART2).unwrap();
    assert!(matches!(v.event(), Some(VoxEvent::NextReady { .. })));
    let dur = v.duration();
    v.seek_to(dur + 1.0);
    assert!(ended_with(&v.event(), EndReason::EndOfStream));
    assert!(started_by(&v.event(), StartReason::Gapless));
}

#[test]
fn gapless_set_next_overwrites_previous() {
    let mut v = fresh();
    v.play(LEGAL_FILE).unwrap();
    v.event();
    v.set_next(PART1).unwrap();
    v.event();
    v.set_next(PART2).unwrap();
    assert!(matches!(v.event(), Some(VoxEvent::NextReady { .. })));
}

#[test]
fn gapless_clear_and_re_set() {
    let mut v = fresh();
    v.play(PART1).unwrap();
    v.event();
    v.set_next(PART2).unwrap();
    v.event();
    v.give(VoxCommand::ClearNext);
    v.set_next(LEGAL_FILE).unwrap();
    assert!(matches!(v.event(), Some(VoxEvent::NextReady { .. })));
}

#[test]
fn set_next_same_file_as_current() {
    let mut v = fresh();
    v.play(LEGAL_FILE).unwrap();
    v.event();
    v.set_next(LEGAL_FILE).unwrap();
    assert!(matches!(v.event(), Some(VoxEvent::NextReady { .. })));
    let dur = v.duration();
    v.seek_to(dur + 1.0);
    assert!(matches!(v.event(), Some(VoxEvent::TrackEnded { .. })));
    assert!(started_by(&v.event(), StartReason::Gapless));
}

#[test]
fn double_pause_is_idempotent() {
    let mut v = fresh();
    v.play(LEGAL_FILE).unwrap();
    v.event();
    v.give(VoxCommand::Pause);
    assert!(matches!(v.event(), Some(VoxEvent::StateChanged { paused: true })));
    v.give(VoxCommand::Pause);
    assert_eq!(v.event(), None);
    v.give(VoxCommand::Resume);
}

#[test]
fn double_resume_is_idempotent() {
    let mut v = fresh();
    v.play(LEGAL_FILE).unwrap();
    v.event();
    v.give(VoxCommand::Resume);
    assert_eq!(v.event(), None);
}

#[test]
fn multiple_engines_simultaneously() {
    let mut engines: Vec<Handle> = (0..5).map(|_| fresh()).collect();
    for v in &engines {
        assert!(!v.is_active());
    }
    engines[0].play(LEGAL_FILE).unwrap();
    assert!(engines[0].is_active());
    for v in &engines[1..] {
        assert!(!v.is_active());
    }
}

#[test]
fn duration_updates_on_track_change() {
    let mut v = fresh();
    v.play(LEGAL_FILE).unwrap();
    let dur1 = v.duration();
    v.play(PART1).unwrap();
    let dur2 = v.duration();
    assert!(dur1 > 0.0);
    assert!(dur2 > 0.0);
}

#[test]
fn set_next_on_idle_engine() {
    let mut v = fresh();
    assert_eq!(v.set_next(LEGAL_FILE), Err(VoxError::NotActive));
}

#[test]
fn clear_next_on_idle_engine() {
    let mut v = fresh();
    v.give(VoxCommand::ClearNext);
    assert_eq!(v.event(), None);
}

#[test]
fn set_replaygain_on_idle_engine() {
    let mut v = fresh();
    v.give(VoxCommand::ReplayGain(ReplayGainMode::Track));
    v.give(VoxCommand::ReplayGain(ReplayGainMode::Album));
    v.give(VoxCommand::ReplayGain(ReplayGainMode::Off));
    assert_eq!(v.event(), None);
}

#[test]
fn recover_from_bad_file_then_play_good() {
    let mut v = fresh();
    let res = v.play("nonexistent.mp3");
    assert_eq!(res, Err(VoxError::FileOpen("nonexistent.mp3".to_string())));
    v.play(LEGAL_FILE).unwrap();
    assert!(matches!(v.event(), Some(VoxEvent::TrackStarted { .. })));
}

#[test]
fn recover_from_text_file_then_play_good() {
    let mut v = fresh();
    v.play(TEXT_FILE).unwrap();
    assert!(matches!(v.event(), Some(VoxEvent::Error { recoverable: true, .. })));
    assert!(matches!(v.event(), Some(VoxEvent::Stopped)));
    v.play(LEGAL_FILE).unwrap();
    assert!(matches!(v.event(), Some(VoxEvent::TrackStarted { .. })));
}

#[test]
fn set_next_bad_file_does_not_corrupt_engine() {
    let mut v = fresh();
    v.play(LEGAL_FILE).unwrap();
    v.event();
    v.set_next("nonexistent.mp3").unwrap_err();
    v.set_next(PART2).unwrap();
    assert!(matches!(v.event(), Some(VoxEvent::NextReady { .. })));
}

#[test]
fn path_with_spaces_and_special_chars() {
    let mut v = fresh();
    v.play(LEGAL_FILE).unwrap();
    assert!(matches!(v.event(), Some(VoxEvent::TrackStarted { .. })));
}

#[test]
fn empty_string_path() {
    let mut v = fresh();
    assert_eq!(v.play(""), Err(VoxError::FileOpen("".to_string())));
}

#[test]
fn directory_as_path() {
    let mut v = fresh();
    let res = v.play("tests/test_suite/");
    assert_eq!(res, Err(VoxError::FileOpen("tests/test_suite/".to_string())));
}

#[test]
fn nonexistent_path() {
    let mut v = fresh();
    let res = v.play("tests/test_suite/does_not_exist.mp3");
    assert_eq!(
        res,
        Err(VoxError::FileOpen("tests/test_suite/does_not_exist.mp3".to_string()))
    );
}
