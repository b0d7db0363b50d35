use voxio::state::SharedState;

#[test]
fn seek_unstarted_is_acked() {
    assert!(SharedState::default().seek_acked()); // epoch 0 == ack 0
}

#[test]
fn start_seek_bumps_epoch_and_unacks() {
    let mut s = SharedState::default();
    let before = s.seek_epoch();
    s.start_seek();
    assert_eq!(s.seek_epoch(), before + 1);
    assert!(s.is_seeking());
    assert!(!s.seek_acked());
}

#[test]
fn ack_must_match_current_epoch() {
    let mut s = SharedState::default();
    s.start_seek();
    let epoch = s.seek_epoch();
    s.ack_seek(epoch - 1); // stale ack from a prior seek
    assert!(!s.seek_acked());
    s.ack_seek(epoch);
    assert!(s.seek_acked());
}

#[test]
fn restarted_seek_invalidates_prior_ack() {
    // A new seek before the callback acks must re-arm the drain wait, or the
    // wait would skip draining stale audio.
    let mut s = SharedState::default();
    s.start_seek();
    s.ack_seek(s.seek_epoch());
    assert!(s.seek_acked());
    s.start_seek();
    assert!(!s.seek_acked());
}

#[test]
fn finish_seek_clears_pending() {
    let mut s = SharedState::default();
    s.start_seek();
    s.finish_seek();
    assert!(!s.is_seeking());
}

#[test]
fn samples_set_add_reset() {
    let mut s = SharedState::default();
    s.set_samples(100);
    assert_eq!(s.get_samples(), 100);
    s.add_samples(50);
    assert_eq!(s.get_samples(), 150);
    s.reset_samples();
    assert_eq!(s.get_samples(), 0);
}

#[test]
fn flags_and_counters_are_kept_apart() {
    let mut s = SharedState::default();
    assert!(!s.is_active() && !s.is_paused() && !s.is_rebuilding() && !s.is_shutdown());
    s.set_active(true);
    s.set_paused(true);
    s.set_rebuilding(true);
    assert!(s.is_active() && s.is_paused() && s.is_rebuilding() && !s.is_shutdown());
    s.set_shutdown();
    assert!(s.is_shutdown());
    s.bump_callback();
    s.bump_callback();
    s.bump_rebuild_generation();
    assert_eq!(s.bump_track_epoch(), 1);
    assert_eq!((s.callback_count(), s.rebuild_generation(), s.track_epoch()), (2, 1, 1));
}

#[test]
fn counters_wrap() {
    let mut s = SharedState::default();
    s.set_samples(u64::MAX);
    s.add_samples(3);
    assert_eq!(s.get_samples(), 2);
}

#[test]
fn position_and_duration_follow_the_output_format() {
    let mut s = SharedState::default();
    s.set_samples(96_000);
    s.set_duration_micros(2_500_000);
    // No output yet: no position, no length.
    assert_eq!((s.position(), s.duration_samples()), (0, 0));
    s.set_output_format(48_000, 2);
    assert_eq!((s.output_rate(), s.output_channels()), (48_000, 2));
    assert_eq!(s.position(), 1_000_000);
    assert_eq!(s.duration_samples(), 240_000);
    assert_eq!(s.get_duration_micros(), 2_500_000);
}

#[test]
fn shutdown_is_final() {
    let mut state = SharedState::default();
    state.set_shutdown();
    state.set_active(true);
    state.start_seek();
    state.finish_seek();
    state.set_rebuilding(true);
    state.set_rebuilding(false);
    state.set_output_format(1, 1);
    state.bump_track_epoch();
    assert!(state.is_shutdown());
}
