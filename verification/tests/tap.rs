use voxio::state::SharedState;
use voxio::tap::{new_tap, TapHandle, TapReader, TapWriter};

const CAPACITY: usize = 10;

fn fresh_tap() -> (TapWriter, TapReader) {
    new_tap(CAPACITY)
}

fn bits(samples: &[f32]) -> Vec<u32> {
    samples.iter().map(|s| s.to_bits()).collect()
}

fn floats(samples: &[u32]) -> Vec<f32> {
    samples.iter().map(|s| f32::from_bits(*s)).collect()
}

#[test]
fn basic_write_and_read() {
    let (mut w, mut r) = fresh_tap();
    w.push(&bits(&[1.0, 2.0, 3.0]));
    let mut buf = Vec::new();
    r.fill_latest(3, &mut buf);
    assert_eq!(floats(&buf), [1.0, 2.0, 3.0]);
}

#[test]
fn drops_oldest_when_overflow() {
    let (mut w, mut r) = fresh_tap();
    let mut buf = Vec::new();

    let samples: Vec<f32> = (0..CAPACITY + 3).map(|i| i as f32).collect();
    w.push(&bits(&samples));
    r.fill_latest(CAPACITY, &mut buf);
    let expected: Vec<f32> = (3..CAPACITY + 3).map(|i| i as f32).collect();
    assert_eq!(floats(&buf), expected);
}

#[test]
fn read_less_than_available() {
    let (mut w, mut r) = fresh_tap();
    let mut buf = Vec::new();

    w.push(&bits(&[1.0, 2.0, 3.0, 4.0, 5.0]));
    r.fill_latest(2, &mut buf);
    assert_eq!(floats(&buf), [4.0, 5.0]);
}

#[test]
fn read_empty_buffer() {
    let (_, mut r) = fresh_tap();
    let mut buf = Vec::new();

    r.fill_latest(5, &mut buf);
    assert!(buf.is_empty());
}

#[test]
fn read_amount_greater_than_capacity() {
    let (mut w, mut r) = fresh_tap();
    let mut buf = Vec::new();

    let samples: Vec<f32> = (0..CAPACITY).map(|i| i as f32).collect();
    w.push(&bits(&samples));
    r.fill_latest(CAPACITY * 2, &mut buf);
    assert_eq!(floats(&buf), samples);
    assert!(buf.len() <= CAPACITY);
}

#[test]
fn multiple_push_and_read_cycles() {
    let (mut w, mut r) = fresh_tap();
    let mut buf = Vec::new();

    w.push(&bits(&[1.0, 2.0, 3.0]));
    r.fill_latest(2, &mut buf);
    assert_eq!(floats(&buf), [2.0, 3.0]);

    w.push(&bits(&[4.0, 5.0]));
    r.fill_latest(3, &mut buf);
    assert_eq!(floats(&buf), [4.0, 5.0]);

    w.push(&bits(&[6.0, 7.0, 8.0]));
    r.fill_latest(10, &mut buf);
    assert_eq!(floats(&buf), [6.0, 7.0, 8.0]);
}

#[test]
fn fill_latest_clears_output() {
    let (mut w, mut r) = fresh_tap();
    let mut buf = bits(&vec![99.0; 5]);

    w.push(&bits(&[1.0, 2.0]));
    r.fill_latest(2, &mut buf);
    assert_eq!(floats(&buf), [1.0, 2.0]);
}

#[test]
fn push_when_full_noop() {
    let small: usize = 3;
    let (mut w, mut r) = new_tap(small);

    w.push(&bits(&[1.0, 2.0, 3.0]));
    w.push(&bits(&[4.0, 5.0, 6.0]));
    w.push(&bits(&[7.0, 8.0, 9.0]));

    let mut buf = Vec::new();
    r.fill_latest(small, &mut buf);
    assert_eq!(floats(&buf), [1.0, 2.0, 3.0]);
}

fn fresh_handle() -> (TapWriter, TapHandle, SharedState) {
    let mut state = SharedState::default();
    state.set_output_format(44100, 2);

    let (w, r) = new_tap(CAPACITY);
    let (_tx, swap) = crossbeam_channel::unbounded();
    let handle = TapHandle::new(r, swap);
    (w, handle, state)
}

#[test]
fn handle_drains_swap_channel() {
    let mut state = SharedState::default();
    state.set_output_format(48000, 1);
    let (_w1, r1) = new_tap(CAPACITY);
    let (tx, swap) = crossbeam_channel::unbounded();

    let (mut w2, r2) = new_tap(CAPACITY);
    w2.push(&bits(&[42.0]));
    tx.send(r2).unwrap();

    let mut h = TapHandle::new(r1, swap);
    let result = h.latest(1);
    assert_eq!(floats(result), [42.0]);
}

#[test]
fn handle_sample_rate_and_channels() {
    let (_, h, state) = fresh_handle();
    assert_eq!(h.sample_rate(&state), 44100);
    assert_eq!(h.channels(&state), 2);
}

#[test]
fn handle_multiple_swaps_uses_newest() {
    let mut state = SharedState::default();
    state.set_output_format(48000, 2);
    let (_w0, r0) = new_tap(CAPACITY);
    let (tx, swap) = crossbeam_channel::unbounded();

    let (mut w1, r1) = new_tap(CAPACITY);
    w1.push(&bits(&[10.0]));
    tx.send(r1).unwrap();

    let (mut w2, r2) = new_tap(CAPACITY);
    w2.push(&bits(&[20.0, 30.0]));
    tx.send(r2).unwrap();

    let mut h = TapHandle::new(r0, swap);
    let result = h.latest(2);
    assert_eq!(floats(result), [20.0, 30.0]);
}

#[test]
fn handle_keeps_its_tap_without_a_swap() {
    let (mut w, mut h, _state) = fresh_handle();
    w.push(&bits(&[1.0, 2.0, 3.0]));
    assert_eq!(floats(h.latest(2)), [2.0, 3.0]);
    // What was passed over is gone.
    assert!(h.latest(2).is_empty());
}

#[test]
fn wrapped_ring_is_read_in_order() {
    let (mut w, mut r) = new_tap(4);
    let mut buf = Vec::new();
    w.push(&[1, 2, 3]);
    r.fill_latest(4, &mut buf);
    // The next run of samples lies across the end of the ring.
    w.push(&[4, 5, 6, 7]);
    r.fill_latest(4, &mut buf);
    assert_eq!(buf, [4, 5, 6, 7]);
}

#[test]
fn tap_handle_reports_correct_format() {
    let (_, r) = fresh_tap();
    let (_tx, rx) = crossbeam_channel::unbounded();
    let tap = TapHandle::new(r, rx);
    let mut state = SharedState::default();
    state.set_output_format(48_000, 2);
    assert_eq!(tap.sample_rate(&state), state.output_rate());
    assert_eq!(tap.channels(&state), state.output_channels());
    assert_eq!((tap.sample_rate(&state), tap.channels(&state)), (48_000, 2));
}

#[test]
fn config_huge_tap_capacity() {
    let (mut w, r) = new_tap(1_000_000);
    let (_tx, rx) = crossbeam_channel::unbounded();
    let mut tap = TapHandle::new(r, rx);
    w.push(&(0..20_000).collect::<Vec<u32>>());
    let samples = tap.latest(10_000);
    assert_eq!(*samples, (10_000..20_000).collect::<Vec<u32>>());
}
