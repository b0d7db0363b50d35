use rtrb::RingBuffer;
use voxio::error::VoxError;
use voxio::event::{RebindReason, VoxEvent};
use voxio::feed::{wait_for_seek_drain, Feed};
use voxio::output::{
    buffer_size, default_output_concrete, hard_clip, install_panicked, no_output_device, output_ring,
    CallbackOutcome, OutputControl, Playhead, Report, StreamInfo, Supervisor, Upkeep, Vigil,
};
use voxio::replaygain::UNITY;
use voxio::resampler::VoxResampler;
use voxio::state::SharedState;

fn playing() -> SharedState {
    let mut state = SharedState::default();
    state.set_active(true);
    state
}

fn fade(sample: u32, left: usize, total: usize) -> u32 {
    let progress = 1.0 - left as f32 / total as f32;
    (f32::from_bits(sample) * progress).to_bits()
}

/// Goes half of the way.
fn ramp(gain: u32, target: u32) -> u32 {
    let gain = f32::from_bits(gain);
    (gain + (f32::from_bits(target) - gain) * 0.5).to_bits()
}

fn scale(sample: u32, gain: u32) -> u32 {
    (f32::from_bits(sample) * f32::from_bits(gain)).to_bits()
}

fn bits(samples: &[f32]) -> Vec<u32> {
    samples.iter().map(|s| s.to_bits()).collect()
}

#[test]
fn sizes_follow_the_format() {
    assert_eq!(buffer_size(48_000, 2, 150), 14_400);
    assert_eq!(buffer_size(44_100, 1, 0), 0);
    assert_eq!(Playhead::new(48_000, 2, UNITY).fade_total, 2_880);
}

#[test]
fn callback_plays_what_waits_and_pads_with_silence() {
    let (mut p, mut c) = RingBuffer::<u32>::new(8);
    for sample in [1, 2, 3] {
        p.push(sample).unwrap();
    }
    let mut head = Playhead::new(48_000, 2, UNITY);
    let mut data = vec![9; 2];
    let outcome = head.callback(&playing(), &mut c, 5, &mut data, fade, ramp, scale);
    assert_eq!(data, [1, 2, 3, 0, 0]);
    assert_eq!(outcome, CallbackOutcome { ack: None, played: 3, heard: true });
    let mut state = playing();
    state.record_callback(outcome);
    assert_eq!((state.callback_count(), state.get_samples()), (1, 3));
}

#[test]
fn loud_peaks_are_cut_off() {
    for (sample, out) in [
        (2.0f32, 1.0f32),
        (-2.0, -1.0),
        (1.0, 1.0),
        (-1.0, -1.0),
        (0.25, 0.25),
        (-0.0, -0.0),
        (f32::INFINITY, 1.0),
        (f32::NEG_INFINITY, -1.0),
        (1.000_000_1, 1.0),
    ] {
        assert_eq!(hard_clip(sample.to_bits()), out.to_bits());
    }
    assert_eq!(hard_clip(f32::NAN.to_bits() & 0x7fff_ffff), 1.0f32.to_bits());
    let (mut p, mut c) = RingBuffer::<u32>::new(8);
    for sample in bits(&[2.0, -3.0, 0.5]) {
        p.push(sample).unwrap();
    }
    let mut data = Vec::new();
    let mut head = Playhead::new(48_000, 2, UNITY);
    head.callback(&playing(), &mut c, 4, &mut data, fade, ramp, scale);
    assert_eq!(data, bits(&[1.0, -1.0, 0.5, 0.0]));
}

#[test]
fn gain_moves_step_by_step() {
    let (mut p, mut c) = RingBuffer::<u32>::new(8);
    for sample in bits(&[1.0, 1.0, 0.5]) {
        p.push(sample).unwrap();
    }
    let mut data = Vec::new();
    let mut head = Playhead::new(48_000, 2, UNITY);
    let state = SharedState { volume_gain: 0.0f32.to_bits(), ..playing() };
    head.callback(&state, &mut c, 2, &mut data, fade, ramp, scale);
    assert_eq!(data, bits(&[0.5, 0.25]));
    assert_eq!(head.gain, 0.25f32.to_bits());
    // Silence leaves the gain where it is.
    let held = SharedState { paused: true, ..playing() };
    head.callback(&held, &mut c, 2, &mut data, fade, ramp, scale);
    assert_eq!(head.gain, 0.25f32.to_bits());
    let loud = SharedState { volume_gain: 7.75f32.to_bits(), ..playing() };
    head.callback(&loud, &mut c, 1, &mut data, fade, ramp, scale);
    assert_eq!(head.gain, 4.0f32.to_bits());
    assert_eq!(data, bits(&[1.0]));
}

#[test]
fn audio_is_played_in_the_order_it_was_written() {
    // 4 samples.
    let (p, mut c) = output_ring(1_000, 2, 2);
    assert_eq!(p.buffer().capacity(), 4);
    let mut feed = Feed::new(p);
    let mut head = Playhead::new(1_000, 2, UNITY);
    let mut data = Vec::new();
    let mut written = Vec::new();
    let mut played = Vec::new();
    for round in 0..5u32 {
        let block: Vec<u32> = (round * 4..round * 4 + 4).collect();
        let fits = feed.push_now(&vec![block.clone()], 2, 2, |s| s);
        written.extend_from_slice(&block[..fits]);
        let outcome = head.callback(&playing(), &mut c, 3, &mut data, fade, ramp, scale);
        // All that was wanted came, or nothing waits.
        assert!(outcome.played == 3 || c.slots() == 0);
        played.extend_from_slice(&data[..outcome.played]);
    }
    assert_eq!(written, [0, 1, 2, 3, 4, 5, 6, 8, 9, 10, 12, 13, 14, 16, 17, 18]);
    assert_eq!(played, written[..15]);
}

#[test]
fn paused_callback_is_silent_and_keeps_the_ring() {
    let (mut p, mut c) = RingBuffer::<u32>::new(8);
    p.push(1).unwrap();
    let mut state = playing();
    state.set_paused(true);
    let mut head = Playhead::new(48_000, 2, UNITY);
    let mut data = Vec::new();
    let outcome = head.callback(&state, &mut c, 3, &mut data, fade, ramp, scale);
    assert_eq!(data, [0, 0, 0]);
    assert_eq!(outcome, CallbackOutcome { ack: None, played: 0, heard: false });
    assert_eq!(c.slots(), 1);
}

#[test]
fn stopped_or_rebuilding_callback_drains() {
    for rebuilding in [false, true] {
        let (mut p, mut c) = RingBuffer::<u32>::new(8);
        p.push(1).unwrap();
        let mut state = playing();
        state.set_active(rebuilding);
        state.set_rebuilding(rebuilding);
        let mut head = Playhead::new(48_000, 2, UNITY);
        let mut data = Vec::new();
        let outcome = head.callback(&state, &mut c, 1, &mut data, fade, ramp, scale);
        assert_eq!(outcome, CallbackOutcome { ack: Some(0), played: 0, heard: false });
        assert_eq!(c.slots(), 0);
    }
}

#[test]
fn seek_is_drained_once_and_faded_in() {
    let (mut p, mut c) = RingBuffer::<u32>::new(8);
    let mut head = Playhead { was_seeking: false, fade_total: 2, fade_remaining: 0, gain: UNITY };
    let mut data = Vec::new();
    let mut state = playing();
    p.push(77).unwrap();
    state.start_seek();
    assert!(wait_for_seek_drain(&state, false));
    assert!(!wait_for_seek_drain(&state, true));
    // The first callback drops the stale audio and acknowledges.
    let outcome = head.callback(&state, &mut c, 2, &mut data, fade, ramp, scale);
    assert_eq!((outcome.ack, c.slots()), (Some(1), 0));
    state.record_callback(outcome);
    assert!(state.seek_acked() && !wait_for_seek_drain(&state, false));
    // What comes from the new position is left alone.
    for sample in bits(&[1.0, 1.0, 1.0]) {
        p.push(sample).unwrap();
    }
    let outcome = head.callback(&state, &mut c, 2, &mut data, fade, ramp, scale);
    assert_eq!((outcome.ack, c.slots(), data.clone()), (Some(1), 3, vec![0, 0]));
    state.record_callback(outcome);
    // Then it fades in.
    state.finish_seek();
    head.callback(&state, &mut c, 1, &mut data, fade, ramp, scale);
    assert_eq!(data, bits(&[0.0]));
    assert_eq!(head.fade_remaining, 1);
    head.callback(&state, &mut c, 3, &mut data, fade, ramp, scale);
    assert_eq!(data, bits(&[0.5, 1.0, 0.0]));
    assert_eq!(head.fade_remaining, 0);
}

#[test]
fn waiting_for_a_drain_ends_on_shutdown() {
    let mut state = playing();
    state.start_seek();
    state.set_shutdown();
    assert!(!wait_for_seek_drain(&state, false));
}

#[test]
fn feed_counts_what_fits() {
    let (p, mut c) = RingBuffer::<u32>::new(6);
    let mut feed = Feed::new(p);
    assert!(!feed.must_drain());
    let none: Option<VoxResampler<()>> = None;
    let direct = feed.process_samples(vec![1, 2, 3, 4], &none);
    assert_eq!(direct, Some(vec![1, 2, 3, 4]));
    assert!(feed.pending.is_empty());
    let blocks = vec![direct.unwrap()];
    // Two stereo frames to three channels.
    assert_eq!(feed.push_now(&blocks, 2, 3, |s| s * 10), 6);
    assert!(feed.must_drain());
    assert_eq!(feed.push_now(&blocks, 2, 3, |s| s), 0);
    let mut heard = Vec::new();
    while let Ok(sample) = c.pop() {
        heard.push(sample);
    }
    assert_eq!(heard, [10, 20, 0, 30, 40, 0]);
    // Through a resampler, whole chunks only.
    let doubling = Some(VoxResampler { resampler: (), input_rate: 1, channels: 1 });
    assert_eq!(feed.process_samples(vec![1, 2], &doubling), None);
    assert_eq!(feed.process_samples(vec![3, 4, 5], &doubling), None);
    let doubling = doubling.unwrap();
    let mut blocks = Vec::new();
    while let Some(chunk) = doubling.process(&feed.pending, 2) {
        let doubled = chunk.iter().flat_map(|s| [*s, *s]).collect();
        blocks.push(doubling.processed(&mut feed.pending, 2, Ok(doubled)).unwrap());
    }
    assert_eq!(blocks, [vec![1, 1, 2, 2], vec![3, 3, 4, 4]]);
    assert_eq!(feed.pending, [5]);
    feed.clear();
    assert!(feed.pending.is_empty());
    // Six slots for eight samples.
    assert_eq!(feed.push_now(&blocks, 1, 1, |s| s), 6);
}

fn info(name: &str) -> StreamInfo {
    StreamInfo { name: name.to_string(), sample_rate: 48_000, channels: 2 }
}

fn lost(error: &str) -> Report {
    Report::Built(Err(VoxError::Device(error.to_string())))
}

fn lost_event(error: &str) -> Upkeep {
    Upkeep::Emit(VoxEvent::DeviceLost {
        name: "speakers".to_string(),
        error: format!("output error: {error}"),
    })
}

#[test]
fn supervisor_rebuilds_and_announces() {
    let mut s = Supervisor::new("speakers".to_string());
    let (tx, mut rx) = crossbeam_channel::unbounded();
    let rebuild = OutputControl::Rebuild(RebindReason::DefaultChanged);
    assert_eq!(
        s.resume(Report::Control(rebuild)),
        [Upkeep::SetRebuilding(true), Upkeep::DropStream]
    );
    // Duplicates are dropped.
    tx.send(OutputControl::Rebuild(RebindReason::HardLoss)).unwrap();
    assert!(s.sweep(&mut rx).is_empty());
    assert_eq!(s.vigil, Vigil::Build);
    assert!(rx.is_empty());
    assert_eq!(
        s.resume(Report::Built(Ok(info("headphones")))),
        [
            Upkeep::SetRebuilding(false),
            Upkeep::Emit(VoxEvent::DeviceChanged {
                name: "headphones".to_string(),
                sample_rate: 48_000,
                channels: 2,
                reason: RebindReason::DefaultChanged
            })
        ]
    );
    assert_eq!((s.vigil, s.name.as_str()), (Vigil::Listen, "headphones"));
}

#[test]
fn supervisor_backs_off_and_announces_each_failure_once() {
    let mut s = Supervisor::new("speakers".to_string());
    s.resume(Report::Control(OutputControl::Rebuild(RebindReason::HardLoss)));
    s.resume(Report::Swept(vec![]));
    let mut waits = Vec::new();
    let mut announced = Vec::new();
    for error in ["gone", "gone", "busy", "gone", "gone"] {
        announced.extend(s.resume(lost(error)));
        match s.vigil {
            Vigil::Wait(ms) => waits.push(ms),
            other => panic!("{other:?}"),
        }
        // Another request to rebuild changes nothing.
        s.resume(Report::Control(OutputControl::Rebuild(RebindReason::HardLoss)));
        assert_eq!(s.vigil, Vigil::Build);
    }
    assert_eq!(waits, [50, 100, 200, 300, 300]);
    assert_eq!(announced, [lost_event("gone"), lost_event("busy"), lost_event("gone")]);
}

#[test]
fn supervisor_shuts_down_from_everywhere() {
    let mut s = Supervisor::new("speakers".to_string());
    assert_eq!(s.resume(Report::Control(OutputControl::Shutdown)), [Upkeep::DropStream]);
    assert_eq!(s.vigil, Vigil::Done);

    let mut s = Supervisor::new("speakers".to_string());
    assert_eq!(s.resume(Report::Silent), [Upkeep::DropStream]);
    assert_eq!(s.vigil, Vigil::Done);

    let mut s = Supervisor::new("speakers".to_string());
    s.resume(Report::Control(OutputControl::Rebuild(RebindReason::HardLoss)));
    let queued = vec![
        OutputControl::Rebuild(RebindReason::HardLoss),
        OutputControl::Shutdown,
    ];
    assert!(s.resume(Report::Swept(queued)).is_empty());
    assert_eq!(s.vigil, Vigil::Done);

    let mut s = Supervisor::new("speakers".to_string());
    s.resume(Report::Control(OutputControl::Rebuild(RebindReason::HardLoss)));
    let (tx, mut rx) = crossbeam_channel::unbounded();
    tx.send(OutputControl::Shutdown).unwrap();
    tx.send(OutputControl::Rebuild(RebindReason::HardLoss)).unwrap();
    assert!(s.sweep(&mut rx).is_empty());
    assert_eq!(s.vigil, Vigil::Done);

    let mut s = Supervisor::new("speakers".to_string());
    s.resume(Report::Control(OutputControl::Rebuild(RebindReason::HardLoss)));
    s.resume(Report::Swept(vec![]));
    s.resume(lost("gone"));
    assert!(s.resume(Report::Control(OutputControl::Shutdown)).is_empty());
    assert_eq!(s.vigil, Vigil::Done);
}

#[test]
fn default_device_is_found_by_identity() {
    let id = |s: &str| Some(s.to_string());
    let ids = vec![None, id("a"), id("b"), id("b")];
    assert_eq!(default_output_concrete(&id("b"), &ids), Some(2));
    assert_eq!(default_output_concrete(&id("c"), &ids), None);
    assert_eq!(default_output_concrete(&None, &ids), None);
}

#[test]
fn device_errors_have_their_texts() {
    assert_eq!(
        install_panicked(),
        VoxError::Device("stream setup panicked (device lost)".to_string())
    );
    assert_eq!(no_output_device(), VoxError::Device("no output device".to_string()));
}
