use voxio::event::RebindReason;
use voxio::state::SharedState;
use voxio::watchdog::WatchdogBrain;

const ZOMBIE_TICKS: u32 = 3;

fn active_state() -> SharedState {
    let mut state = SharedState::default();
    state.set_active(true);
    state
}

#[test]
fn zombie_after_stale_ticks() {
    let state = active_state();
    let mut brain = WatchdogBrain::new(state.callback_count(), None, 0);

    for _ in 0..ZOMBIE_TICKS - 1 {
        assert_eq!(brain.tick(&state, None, ZOMBIE_TICKS), None);
    }
    assert_eq!(
        brain.tick(&state, None, ZOMBIE_TICKS),
        Some(RebindReason::StreamZombie)
    );
}

#[test]
fn no_zombie_while_callbacks_flow() {
    let mut state = active_state();
    let mut brain = WatchdogBrain::new(state.callback_count(), None, 0);

    for _ in 0..ZOMBIE_TICKS * 2 {
        state.bump_callback();
        assert_eq!(brain.tick(&state, None, ZOMBIE_TICKS), None);
    }
}

#[test]
fn no_zombie_while_paused_or_idle() {
    let mut state = active_state();
    state.set_paused(true);
    let mut brain = WatchdogBrain::new(state.callback_count(), None, 0);

    for _ in 0..ZOMBIE_TICKS * 2 {
        assert_eq!(brain.tick(&state, None, ZOMBIE_TICKS), None);
    }
}

#[test]
fn default_change_is_debounced() {
    let state = SharedState::default();
    let mut brain = WatchdogBrain::new(0, Some("A".into()), 0);

    // First observation arms the debounce; second confirms it
    assert_eq!(brain.tick(&state, Some("B".into()), ZOMBIE_TICKS), None);
    assert_eq!(
        brain.tick(&state, Some("B".into()), ZOMBIE_TICKS),
        Some(RebindReason::DefaultChanged)
    );
}

#[test]
fn default_flapping_does_not_trigger() {
    let state = SharedState::default();
    let mut brain = WatchdogBrain::new(0, Some("A".into()), 0);

    assert_eq!(brain.tick(&state, Some("B".into()), ZOMBIE_TICKS), None);
    assert_eq!(brain.tick(&state, Some("A".into()), ZOMBIE_TICKS), None);
    assert_eq!(brain.tick(&state, Some("A".into()), ZOMBIE_TICKS), None);
}

#[test]
fn quiet_then_rebaselines_while_rebuilding() {
    let mut state = active_state();
    let mut brain = WatchdogBrain::new(state.callback_count(), Some("A".into()), 0);

    state.set_rebuilding(true);
    assert_eq!(brain.tick(&state, Some("B".into()), ZOMBIE_TICKS), None);

    // First post-rebuild tick adopts the new device silently
    state.set_rebuilding(false);
    assert_eq!(brain.tick(&state, Some("B".into()), ZOMBIE_TICKS), None);
    assert_eq!(brain.tick(&state, Some("B".into()), ZOMBIE_TICKS), None);
}

#[test]
fn completed_rebuild_rebaselines_without_observing_inflight() {
    // The supervisor rebuilt onto device "B" and finished between ticks, so the
    // watchdog never sees the rebuild, only the bumped generation. It must
    // still adopt "B" silently rather than fire a redundant DefaultChanged.
    let mut state = SharedState::default();
    let mut brain = WatchdogBrain::new(0, Some("A".into()), state.rebuild_generation());

    state.bump_rebuild_generation(); // rebuild already completed
    // Sees the generation advance: arms re-baseline, stays quiet.
    assert_eq!(brain.tick(&state, Some("B".into()), ZOMBIE_TICKS), None);
    // Re-baselines to "B".
    assert_eq!(brain.tick(&state, Some("B".into()), ZOMBIE_TICKS), None);
    // "B" is now the baseline: no drift, no fire.
    assert_eq!(brain.tick(&state, Some("B".into()), ZOMBIE_TICKS), None);
}

#[test]
fn disappearing_default_counts_as_a_change() {
    let state = SharedState::default();
    let mut brain = WatchdogBrain::new(0, Some("A".into()), 0);
    assert_eq!(brain.tick(&state, None, ZOMBIE_TICKS), None);
    assert_eq!(
        brain.tick(&state, None, ZOMBIE_TICKS),
        Some(RebindReason::DefaultChanged)
    );
}

#[test]
fn zombie_report_is_followed_by_a_quiet_tick() {
    let state = active_state();
    let mut brain = WatchdogBrain::new(0, None, 0);
    assert_eq!(
        brain.tick(&state, None, 1),
        Some(RebindReason::StreamZombie)
    );
    assert_eq!(brain.tick(&state, None, 1), None);
    assert_eq!(
        brain.tick(&state, None, 1),
        Some(RebindReason::StreamZombie)
    );
}
