use voxio::channel::Received;
use voxio::command::{Batch, SeekPosition, VoxCommand};
use voxio::config::VoxConfig;
use voxio::control::{init, play, send, set_next};
use voxio::effect::Effect;
use voxio::error::VoxError;
use voxio::event::{VoxEvent, VoxEvents, Waited};
use voxio::scan::{publish_correction, DurationScan};
use voxio::state::SharedState;
use voxio::timing::{frames_to_micros, micros_to_samples, samples_to_micros};
use voxio::watchdog::default_signature;
use voxio::waveform::{downsample, window, BinMetric, Bucket, FineBuckets, Waveform};

const BAD_PATH: &str = "tests/test_suite/";
const NONEXISTENT_FILE: &str = "tests/test_suite/nonexistant.flac";
const LEGAL_FILE: &str = "tests/test_suite/Preludes, Op. 28 - No. 16 'Hades'.mp3";

// -- Requests -------------------------------------------------

#[test]
fn passed_directory() {
    let mut state = SharedState::default();
    let res = play(&mut state, BAD_PATH, false);
    assert_eq!(res, Err(VoxError::FileOpen(BAD_PATH.to_string())));
}

#[test]
fn nonexistent_file() {
    let mut state = SharedState::default();
    let res = play(&mut state, NONEXISTENT_FILE, false);
    assert_eq!(res, Err(VoxError::FileOpen(NONEXISTENT_FILE.to_string())));
    assert!(!state.is_active());
}

#[test]
fn empty_path() {
    let mut state = SharedState::default();
    let res = play(&mut state, "", false);
    assert_eq!(res, Err(VoxError::FileOpen("".to_string())));
}

#[test]
fn set_next_when_idle_errors() {
    let state = SharedState::default();
    // Nothing playing: set_next has no track to queue after.
    assert_eq!(set_next(&state, LEGAL_FILE, true), Err(VoxError::NotActive));
}

#[test]
fn accepted_play_makes_the_engine_active() {
    let mut state = SharedState::default();
    let res = play(&mut state, LEGAL_FILE, true);
    assert_eq!(res, Ok(VoxCommand::Play(LEGAL_FILE.to_string())));
    assert!(state.is_active());
    assert_eq!(
        set_next(&state, LEGAL_FILE, true),
        Ok(VoxCommand::QueueNext(LEGAL_FILE.to_string()))
    );
    assert_eq!(
        set_next(&state, BAD_PATH, false),
        Err(VoxError::FileOpen(BAD_PATH.to_string()))
    );
}

#[test]
fn dead_engine_is_reported() {
    assert_eq!(send(true), Ok(()));
    assert_eq!(send(false), Err(VoxError::ChannelClosed));
}

#[test]
fn start_needs_a_stream_and_a_tap() {
    let failed = || Err(VoxError::Device("output supervisor failed".to_string()));
    assert_eq!(init(Some(Ok(())), true), Ok(()));
    assert_eq!(init(Some(Ok(())), false), failed());
    assert_eq!(init(None, true), failed());
    assert_eq!(
        init(Some(Err(VoxError::Device("none".to_string()))), true),
        Err(VoxError::Device("none".to_string()))
    );
}

#[test]
fn defaults_are_as_documented() {
    let config = VoxConfig::default();
    assert_eq!(
        (config.buffer_ms, config.tap_capacity, config.watchdog_tick, config.zombie_ticks),
        (150, 4096, 200, 3)
    );
}

#[test]
fn errors_have_their_messages() {
    let text = |error: VoxError| error.message();
    assert_eq!(text(VoxError::FileOpen("x".into())), "Failed to open file: x");
    assert_eq!(text(VoxError::Device("x".into())), "output error: x");
    assert_eq!(text(VoxError::Decoder("x".into())), "decoder error: x");
    assert_eq!(text(VoxError::Resampler("x".into())), "resampler error: x");
    assert_eq!(text(VoxError::Seek("x".into())), "seek error: x");
    assert_eq!(text(VoxError::NotActive), "no active track to queue after");
    assert_eq!(text(VoxError::ChannelClosed), "Vox channel closed");
}

// -- Bursts of commands ---------------------------------------

#[test]
fn batch_merges_what_can_be_merged() {
    let mut batch = Batch::new();
    let relative = |by| VoxCommand::Seek(SeekPosition::Relative(by));
    assert_eq!(batch.merge(relative(5), 100), None);
    assert_eq!(batch.merge(relative(-20), 999), None);
    assert_eq!(batch.seek, Some(85));
    assert_eq!(batch.merge(VoxCommand::QueueNext("n".into()), 0), None);
    assert_eq!(batch.merge(VoxCommand::Play("p".into()), 0), None);
    assert_eq!((&batch.next, batch.seek), (&None, None));
    // After a play, seeks count from the start of the new track.
    assert_eq!(batch.merge(relative(7), 100), None);
    assert_eq!(batch.seek, Some(7));
    assert_eq!(batch.merge(VoxCommand::Play("p".into()), 0), None);
    assert_eq!(batch.merge(VoxCommand::Stop, 0), Some(VoxCommand::Stop));
    assert_eq!(batch.play, Some("p".to_string()));
    // Seeks stop at the ends of the range.
    assert_eq!(batch.merge(relative(i64::MAX), 0), None);
    assert_eq!(batch.merge(relative(i64::MAX), 0), None);
    assert_eq!(batch.seek, Some(i64::MAX));
    assert_eq!(SeekPosition::Relative(-5).target(i64::MIN), i64::MIN);
}

// -- Events ---------------------------------------------------

#[test]
fn events_are_received_in_order() {
    let (tx, rx) = crossbeam_channel::unbounded();
    let mut events = VoxEvents::new(rx);
    assert_eq!(events.try_recv(), None);
    tx.send(VoxEvent::Stopped).unwrap();
    tx.send(VoxEvent::StateChanged { paused: true }).unwrap();
    assert_eq!(events.receiver().len(), 2);
    assert_eq!(events.try_recv(), Some(VoxEvent::Stopped));
    assert_eq!(events.try_recv(), Some(VoxEvent::StateChanged { paused: true }));
    drop(tx);
    assert_eq!(events.try_recv(), None);
}

#[test]
fn only_a_message_is_handed_on() {
    assert_eq!(Received::Message(7).ok(), Some(7));
    assert_eq!(Received::<u32>::Empty.ok(), None);
    assert_eq!(Received::<u32>::Disconnected.ok(), None);
}

#[test]
fn active_wait_gives_up_once_playback_is_over() {
    let (tx, rx) = crossbeam_channel::unbounded();
    let mut events = VoxEvents::new(rx);
    let mut state = SharedState::default();
    state.set_active(true);
    assert_eq!(events.recv_active(Waited::TimedOut, &state), None);
    assert_eq!(
        events.recv_active(Waited::Event(VoxEvent::Stopped), &state),
        Some(Some(VoxEvent::Stopped))
    );
    state.set_active(false);
    assert_eq!(events.recv_active(Waited::TimedOut, &state), Some(None));
    // One last look finds what came in meanwhile.
    tx.send(VoxEvent::Stopped).unwrap();
    assert_eq!(
        events.recv_active(Waited::TimedOut, &state),
        Some(Some(VoxEvent::Stopped))
    );
    drop(tx);
    assert_eq!(events.recv_active(Waited::Disconnected, &state), Some(None));
    assert_eq!(
        VoxEvents::last_look(Received::Message(VoxEvent::Stopped)),
        Some(Some(VoxEvent::Stopped))
    );
    assert_eq!(VoxEvents::last_look(Received::Empty), Some(None));
    assert_eq!(VoxEvents::last_look(Received::Disconnected), Some(None));
}

#[test]
fn signature_prefers_the_id() {
    let text = |s: &str| Some(s.to_string());
    assert_eq!(default_signature(text("id"), text("name")), text("id"));
    assert_eq!(default_signature(None, text("name")), text("name"));
    assert_eq!(default_signature(None, None), None);
}

// -- Units of time --------------------------------------------

#[test]
fn times_convert_exactly_and_clip() {
    assert_eq!(samples_to_micros(96_000, 48_000, 2), 1_000_000);
    assert_eq!(samples_to_micros(1, 44_100, 2), 11);
    assert_eq!(samples_to_micros(5, 0, 2), 0);
    assert_eq!(samples_to_micros(u64::MAX, 1, 1), u64::MAX);
    assert_eq!(micros_to_samples(1_500_000, 44_100, 2), 132_300);
    assert_eq!(micros_to_samples(u64::MAX, u32::MAX, usize::MAX), u64::MAX);
    assert_eq!(frames_to_micros(44_100, 44_100), 1_000_000);
    assert_eq!(frames_to_micros(3, 0), 3_000_000);
}

// -- Duration scans -------------------------------------------

fn resolved(duration: u64) -> Vec<Effect> {
    vec![
        Effect::SetDuration(duration),
        Effect::Emit(VoxEvent::DurationResolved { path: "a".to_string(), duration }),
    ]
}

#[test]
fn only_real_corrections_are_published() {
    let mut state = SharedState::default();
    state.set_duration_micros(10_000_000);
    assert!(publish_correction(&state, "a".to_string(), 10_499_999).is_empty());
    assert!(publish_correction(&state, "a".to_string(), 9_500_001).is_empty());
    assert_eq!(publish_correction(&state, "a".to_string(), 10_500_000), resolved(10_500_000));
    assert_eq!(publish_correction(&state, "a".to_string(), 9_500_000), resolved(9_500_000));
}

#[test]
fn scan_counts_frames_and_checks_the_epoch() {
    let mut state = SharedState::default();
    let epoch = state.bump_track_epoch();
    let mut scan = DurationScan::new(epoch);
    for _ in 0..512 {
        assert!(scan.keep_going(&state));
        scan.count(960, 2);
    }
    assert!(scan.keep_going(&state));
    scan.count(961, 2);
    assert_eq!((scan.frames, scan.since_check), (513 * 480, 1));
    assert_eq!(scan.resolve_duration(48_000), Some(5_130_000));
    assert_eq!(scan.run(&state, "a".to_string(), 48_000), resolved(5_130_000));
    // Once the track has changed, the next look stops the scan, and its result
    // is discarded.
    state.bump_track_epoch();
    assert!(scan.run(&state, "a".to_string(), 48_000).is_empty());
    for _ in 1..512 {
        assert!(scan.keep_going(&state));
        scan.count(2, 2);
    }
    assert!(!scan.keep_going(&state));
}

#[test]
fn empty_or_late_scan_changes_nothing() {
    let mut state = SharedState::default();
    let scan = DurationScan::new(0);
    assert_eq!(scan.resolve_duration(48_000), None);
    assert!(scan.run(&state, "a".to_string(), 48_000).is_empty());
    let mut scan = DurationScan::new(0);
    scan.count(96_000 * 10, 2);
    state.set_shutdown();
    assert!(scan.run(&state, "a".to_string(), 48_000).is_empty());
}

// -- Waveforms ------------------------------------------------

fn sum(acc: u64, value: u64) -> u64 {
    acc + value
}

/// The sum of a slice of buckets.
fn pool(part: &Vec<Bucket>) -> u32 {
    part.iter().map(|b| b.acc as u32).sum()
}

fn fine(values: &[u64]) -> Vec<Bucket> {
    values.iter().map(|v| Bucket { acc: *v, count: 1 }).collect()
}

#[test]
fn frames_are_folded_into_fixed_buckets() {
    let mut buckets = FineBuckets::new();
    assert!(buckets.is_empty());
    buckets.push_all(&vec![1; 1000], sum);
    buckets.push_all(&vec![2; 30], sum);
    assert!(!buckets.is_empty());
    assert_eq!(
        buckets.fine,
        [Bucket { acc: 512, count: 512 }, Bucket { acc: 488 + 48, count: 512 }]
    );
    assert_eq!(buckets.open, Bucket { acc: 12, count: 6 });
    let wave = Waveform::generate(buckets, None, 3, 1000, pool).unwrap();
    assert_eq!(wave, Waveform { bins: vec![512, 536, 12], duration: 1_030_000 });
}

#[test]
fn downsampling_partitions_and_upsampling_repeats() {
    assert_eq!(downsample(&fine(&[1, 2, 3, 4, 5]), 2, pool), [3, 12]);
    assert_eq!(downsample(&fine(&[1, 2, 3, 4, 5]), 5, pool), [1, 2, 3, 4, 5]);
    assert_eq!(downsample(&fine(&[1, 2]), 5, pool), [1, 1, 1, 2, 2]);
    assert_eq!(downsample(&fine(&[]), 2, pool), [0, 0]);
    assert!(downsample(&fine(&[1]), 0, pool).is_empty());
}

#[test]
fn damaged_file_keeps_its_prefix() {
    let broken = || Some(VoxError::Decoder("broken".to_string()));
    let mut buckets = FineBuckets::new();
    buckets.push(7, &sum);
    let wave = Waveform::generate(buckets, broken(), 1, 10, pool).unwrap();
    assert_eq!(wave, Waveform { bins: vec![7], duration: 100_000 });
    // Nothing usable: the error itself, or that there is no audio.
    assert_eq!(
        Waveform::generate(FineBuckets::new(), broken(), 1, 10, pool).err(),
        broken()
    );
    assert_eq!(
        Waveform::generate(FineBuckets::new(), None, 1, 10, pool).err(),
        Some(VoxError::Decoder("no decodable audio in stream".to_string()))
    );
    // No bins asked for: nothing to fail.
    assert_eq!(
        Waveform::generate(FineBuckets::new(), broken(), 0, 10, pool),
        Ok(Waveform { bins: vec![], duration: 0 })
    );
}

#[test]
fn metrics_accumulate_in_their_way() {
    assert_eq!(BinMetric::default(), BinMetric::Rms);
    let energy = |acc: u64, value: u64| acc + value * value;
    let peak = |acc: u64, value: u64| acc.max(value);
    assert_eq!(BinMetric::Rms.accumulate(5, 3, energy, peak), 14);
    assert_eq!(BinMetric::Peak.accumulate(5, 3, energy, peak), 5);
}

#[test]
fn windows_stay_inside() {
    assert_eq!(window(0, 3, 10), (0, 4));
    assert_eq!(window(5, 3, 10), (2, 9));
    assert_eq!(window(9, 3, 10), (6, 10));
    assert_eq!(window(4, usize::MAX, 10), (0, 10));
    assert_eq!(window(0, 0, 1), (0, 1));
}
