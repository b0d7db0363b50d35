use rtrb::{Consumer, RingBuffer};
use voxio::command::{seek_prefill, Prefill};
use voxio::mapping::{
    get_mapped_sample, push_samples_mapped, push_samples_mapped_count, ring_is_drained, PushStep,
};
use voxio::state::SharedState;

fn bits(samples: &[f32]) -> Vec<u32> {
    samples.iter().map(|s| s.to_bits()).collect()
}

fn amplify(gain: f32) -> impl Fn(u32) -> u32 {
    move |s| (f32::from_bits(s) * gain).to_bits()
}

/// Read everything currently in the ring into a Vec.
fn drain(consumer: &mut Consumer<u32>) -> Vec<f32> {
    let n = consumer.slots();
    let mut out = Vec::with_capacity(n);
    if let Ok(chunk) = consumer.read_chunk(n) {
        let (a, b) = chunk.as_slices();
        out.extend(a.iter().map(|s| f32::from_bits(*s)));
        out.extend(b.iter().map(|s| f32::from_bits(*s)));
        chunk.commit_all();
    }
    out
}

fn mapped(samples: &[f32], frame: usize, out_ch: usize, in_ch: usize) -> f32 {
    f32::from_bits(get_mapped_sample(&bits(samples), frame, out_ch, in_ch))
}

/// Writes all of `samples` as a caller does that naps while the ring is full.
fn push_all(
    p: &mut rtrb::Producer<u32>,
    state: &SharedState,
    samples: &[f32],
    in_ch: usize,
    out_ch: usize,
    gain: f32,
) -> PushStep {
    let samples = bits(samples);
    let mut done = 0;
    loop {
        match push_samples_mapped(p, state, &samples, in_ch, out_ch, amplify(gain), done) {
            PushStep::Advanced(reached) => done = reached,
            step => return step,
        }
    }
}

// -- Channel mapping (get_mapped_sample) -----------------------

#[test]
fn maps_stereo_down_to_mono_left() {
    // out_ch < in_ch picks channel `out_c` of each frame: left for mono.
    let stereo = [1.0, 2.0, 3.0, 4.0]; // (L0,R0, L1,R1)
    assert_eq!(mapped(&stereo, 0, 0, 2), 1.0);
    assert_eq!(mapped(&stereo, 1, 0, 2), 3.0);
}

#[test]
fn maps_mono_up_to_stereo_duplicates() {
    // in_ch == 1: same sample on every output channel.
    let mono = [5.0, 6.0];
    assert_eq!(mapped(&mono, 0, 0, 1), 5.0);
    assert_eq!(mapped(&mono, 0, 1, 1), 5.0);
    assert_eq!(mapped(&mono, 1, 1, 1), 6.0);
}

#[test]
fn maps_missing_upper_channel_to_silence() {
    // out_ch >= in_ch with multichannel input: silence the extra channel.
    assert_eq!(mapped(&[1.0, 2.0], 0, 2, 2), 0.0);
}

// -- push_samples_mapped_count (best-effort, returns count) ----

#[test]
fn push_count_downmixes_and_applies_gain() {
    let (mut p, mut c) = RingBuffer::<u32>::new(16);
    // stereo [L,R, L,R] to mono [L0,L1], scaled by gain 0.5.
    let n =
        push_samples_mapped_count(&mut p, &bits(&[1.0, 9.0, 2.0, 9.0]), 2, 1, amplify(0.5));
    assert_eq!(n, 2);
    assert_eq!(drain(&mut c), [0.5, 1.0]);
}

#[test]
fn push_count_upmixes_mono_to_stereo() {
    let (mut p, mut c) = RingBuffer::<u32>::new(16);
    let n = push_samples_mapped_count(&mut p, &bits(&[3.0, 4.0]), 1, 2, amplify(1.0));
    assert_eq!(n, 4);
    assert_eq!(drain(&mut c), [3.0, 3.0, 4.0, 4.0]);
}

#[test]
fn push_count_writes_only_what_fits_and_drops_rest() {
    let (mut p, mut c) = RingBuffer::<u32>::new(2);
    // 3 mono frames: 3 out samples but only 2 slots: best-effort, count == 2.
    let n = push_samples_mapped_count(&mut p, &bits(&[1.0, 2.0, 3.0]), 1, 1, amplify(1.0));
    assert_eq!(n, 2);
    assert_eq!(drain(&mut c), [1.0, 2.0]);
}

#[test]
fn push_count_returns_zero_when_full() {
    let (mut p, _c) = RingBuffer::<u32>::new(1);
    assert_eq!(push_samples_mapped_count(&mut p, &bits(&[9.0]), 1, 1, amplify(1.0)), 1);
    assert_eq!(push_samples_mapped_count(&mut p, &bits(&[1.0]), 1, 1, amplify(1.0)), 0);
}

// -- push_samples_mapped (blocking write-all) ------------------

#[test]
fn push_blocking_writes_all_when_capacity_suffices() {
    let (mut p, mut c) = RingBuffer::<u32>::new(8);
    let state = SharedState::default();
    push_all(&mut p, &state, &[1.0, 2.0, 3.0, 4.0], 1, 1, 2.0);
    assert_eq!(drain(&mut c), [2.0, 4.0, 6.0, 8.0]);
}

#[test]
fn push_blocking_bails_on_shutdown_instead_of_hanging() {
    let (mut p, _c) = RingBuffer::<u32>::new(1);
    assert!(p.push(0.0f32.to_bits()).is_ok()); // fill the only slot
    let mut state = SharedState::default();
    state.set_shutdown();
    // No consumer drains; must return promptly via the shutdown check.
    assert_eq!(push_all(&mut p, &state, &[1.0, 2.0], 1, 1, 1.0), PushStep::Halted);
}

#[test]
fn push_blocking_bails_on_rebuild() {
    let (mut p, _c) = RingBuffer::<u32>::new(4);
    let mut state = SharedState::default();
    state.set_rebuilding(true);
    assert_eq!(push_all(&mut p, &state, &[1.0, 2.0], 1, 1, 1.0), PushStep::Halted);
}

#[test]
fn push_blocking_waits_and_resumes_where_it_stopped() {
    let (mut p, mut c) = RingBuffer::<u32>::new(3);
    let state = SharedState::default();
    let samples = bits(&[1.0, 2.0, 3.0, 4.0]);
    let one = amplify(1.0);
    assert_eq!(
        push_samples_mapped(&mut p, &state, &samples, 1, 1, &one, 0),
        PushStep::Advanced(3)
    );
    assert_eq!(push_samples_mapped(&mut p, &state, &samples, 1, 1, &one, 3), PushStep::Full);
    assert_eq!(drain(&mut c), [1.0, 2.0, 3.0]);
    assert_eq!(
        push_samples_mapped(&mut p, &state, &samples, 1, 1, &one, 3),
        PushStep::Advanced(4)
    );
    assert_eq!(push_samples_mapped(&mut p, &state, &samples, 1, 1, &one, 4), PushStep::Done);
    assert_eq!(drain(&mut c), [4.0]);
}

#[test]
fn drained_ring_is_recognized() {
    let (mut p, mut c) = RingBuffer::<u32>::new(2);
    assert!(ring_is_drained(&mut p));
    assert!(p.push(7).is_ok());
    assert!(!ring_is_drained(&mut p));
    assert_eq!(c.pop(), Ok(7));
    assert!(ring_is_drained(&mut p));
}

// -- Play+seek coalescing decision -----------------------------

#[test]
fn seek_prefill_defers_only_when_seek_pending() {
    assert!(matches!(seek_prefill(&Some(3_000_000)), Prefill::Defer));
    assert!(matches!(seek_prefill(&None), Prefill::Now));
}

#[test]
fn input_without_channels_has_no_output() {
    let (mut p, mut c) = RingBuffer::<u32>::new(8);
    let samples = bits(&[1.0, 2.0]);
    assert_eq!(push_samples_mapped_count(&mut p, &samples, 0, 2, amplify(1.0)), 0);
    let state = SharedState::default();
    assert_eq!(push_all(&mut p, &state, &[1.0, 2.0], 0, 2, 1.0), PushStep::Done);
    assert!(drain(&mut c).is_empty());
}
