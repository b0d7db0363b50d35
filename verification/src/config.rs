use vstd::prelude::*;

verus! {

/// Output ring-buffer size, in milliseconds of audio.
pub const BUFFER_MS: usize = 150;

/// Samples held by the visualization tap.
pub const SAMPLE_TAP_CAPACITY: usize = 4096;

/// Milliseconds between two watchdog polls.
pub const WATCHDOG_TICK_MS: u64 = 200;

/// Stalled watchdog polls before the stream counts as dead.
pub const ZOMBIE_TICKS: u32 = 3;

/// Tuning knobs for the engine.
///
/// Use [`VoxConfig::default`] for sensible defaults and override only the
/// fields you care about.
pub struct VoxConfig {
    /// Output ring-buffer size, in milliseconds of audio. Larger values are
    /// more robust to scheduling jitter; smaller values reduce latency.
    pub buffer_ms: usize,
    /// Capacity, in samples, of the visualization tap's ring buffer.
    pub tap_capacity: usize,
    /// How often the watchdog polls for device loss and stream stalls, in
    /// milliseconds.
    pub watchdog_tick: u64,
    /// Number of consecutive idle watchdog ticks before the stream is treated
    /// as a zombie and rebuilt.
    pub zombie_ticks: u32,
}

impl Default for VoxConfig {
    fn default() -> (config: Self)
        ensures
            config.buffer_ms == 150,
            config.tap_capacity == 4096,
            config.watchdog_tick == 200,
            config.zombie_ticks == 3,
    {
        VoxConfig {
            buffer_ms: BUFFER_MS,
            tap_capacity: SAMPLE_TAP_CAPACITY,
            watchdog_tick: WATCHDOG_TICK_MS,
            zombie_ticks: ZOMBIE_TICKS,
        }
    }
}

} // verus!
