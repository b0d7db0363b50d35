//! The watchdog's per-tick decision: when to ask for a rebuild of the output
//! stream.

use crate::event::RebindReason;
use crate::state::SharedState;
use vstd::prelude::*;

verus! {

/// How often the watchdog looks at the shutdown flag between ticks, in
/// milliseconds.
pub const TICK_SLICE: u64 = 50;

/// The identity of an output device, where there is one.
pub type Signature = Option<Seq<char>>;

/// The characters of a device identity.
pub open spec fn signature(sig: Option<String>) -> Signature {
    match sig {
        Some(id) => Some(id@),
        None => None,
    }
}

/// What a [`WatchdogBrain`] remembers.
pub struct BrainView {
    /// Callback count at the last look.
    pub last_cb: u64,
    /// The device taken to be the default.
    pub last_sig: Signature,
    /// A different default seen once.
    pub pending: Option<Signature>,
    /// Ticks in a row without a callback.
    pub stale_ticks: u32,
    /// The next tick takes what it sees as the new normal.
    pub resync: bool,
    /// Rebuilds completed at the last look.
    pub last_gen: u64,
}

impl BrainView {
    /// A rebuild is under way, or one has completed since the last look.
    pub open spec fn rebuild_seen(self, state: SharedState) -> bool {
        state.rebuilding || state.rebuild_generation != self.last_gen
    }

    /// No callback ran since the last look although audio should be playing.
    pub open spec fn stalled(self, state: SharedState) -> bool {
        state.callback_count == self.last_cb && state.active && !state.paused
    }

    /// This tick completes a run of `zombie_tick` stalled ones.
    pub open spec fn zombie(self, state: SharedState, zombie_tick: u32) -> bool {
        self.stalled(state) && self.stale_ticks + 1 >= zombie_tick
    }

    /// The default device is a new one for the second tick in a row.
    pub open spec fn drift_confirmed(self, sig: Signature) -> bool {
        sig != self.last_sig && self.pending == Some(sig)
    }

    /// What a tick reports.
    pub open spec fn verdict(
        self,
        state: SharedState,
        sig: Signature,
        zombie_tick: u32,
    ) -> Option<RebindReason> {
        if self.rebuild_seen(state) || self.resync {
            None
        } else if self.zombie(state, zombie_tick) {
            Some(RebindReason::StreamZombie)
        } else if self.drift_confirmed(sig) {
            Some(RebindReason::DefaultChanged)
        } else {
            None
        }
    }

    /// What is remembered after a tick.
    pub open spec fn after(self, state: SharedState, sig: Signature, zombie_tick: u32) -> BrainView {
        let seen = BrainView { last_gen: state.rebuild_generation, ..self };
        let beat = BrainView { last_cb: state.callback_count, ..seen };
        if self.rebuild_seen(state) {
            BrainView { stale_ticks: 0, resync: true, ..seen }
        } else if self.resync {
            BrainView { last_sig: sig, pending: None, stale_ticks: 0, resync: false, ..beat }
        } else if self.zombie(state, zombie_tick) {
            BrainView { stale_ticks: 0, resync: true, ..beat }
        } else {
            let stale = if self.stalled(state) {
                (self.stale_ticks + 1) as u32
            } else {
                0
            };
            if self.drift_confirmed(sig) {
                BrainView { last_sig: sig, pending: None, stale_ticks: stale, resync: true, ..beat }
            } else {
                let pending = if sig != self.last_sig {
                    Some(sig)
                } else {
                    None
                };
                BrainView { pending, stale_ticks: stale, ..beat }
            }
        }
    }
}

/// The identity of the default output device: its id when available (display
/// names can collide across distinct devices), falling back to the name.
pub fn default_signature(id: Option<String>, name: Option<String>) -> (sig: Option<String>)
    ensures
        sig == if id is Some {
            id
        } else {
            name
        },
{
    if id.is_some() {
        id
    } else {
        name
    }
}

/// Per-tick rebuild decision, separated from the timing loop.
pub struct WatchdogBrain {
    last_cb: u64,
    last_sig: Option<String>,
    /// Awaits debounce confirmation.
    pending: Option<Option<String>>,
    stale_ticks: u32,
    resync: bool,
    last_gen: u64,
}

impl View for WatchdogBrain {
    type V = BrainView;

    closed spec fn view(&self) -> BrainView {
        BrainView {
            last_cb: self.last_cb,
            last_sig: signature(self.last_sig),
            pending: match self.pending {
                Some(sig) => Some(signature(sig)),
                None => None,
            },
            stale_ticks: self.stale_ticks,
            resync: self.resync,
            last_gen: self.last_gen,
        }
    }
}

/// Whether two device identities are the same.
fn same_signature(a: &Option<String>, b: &Option<String>) -> (same: bool)
    ensures
        same == (signature(*a) == signature(*b)),
{
    match (a, b) {
        (Some(x), Some(y)) => *x == *y,
        (None, None) => true,
        _ => false,
    }
}

impl WatchdogBrain {
    /// A run of stalled ticks is reported before it can overflow its counter.
    #[verifier::type_invariant]
    closed spec fn counter_in_range(self) -> bool {
        self.stale_ticks < u32::MAX
    }

    /// Starts from what is the case now.
    pub fn new(last_cb: u64, last_sig: Option<String>, last_gen: u64) -> (brain: Self)
        ensures
            brain@ == (BrainView {
                last_cb,
                last_sig: signature(last_sig),
                pending: None,
                stale_ticks: 0,
                resync: false,
                last_gen,
            }),
    {
        WatchdogBrain { last_cb, last_sig, pending: None, stale_ticks: 0, resync: false, last_gen }
    }

    /// Looks at the engine and at the default device, and says whether the
    /// stream has to be rebuilt, and why.
    ///
    /// A rebuild in flight, or one finished since the last tick, keeps the
    /// watchdog quiet; the tick after that adopts what it sees. A stream is a
    /// zombie after `zombie_tick` ticks in a row without a callback while audio
    /// should be playing. A changed default device has to be seen twice in a
    /// row.
    pub fn tick(
        &mut self,
        state: &SharedState,
        sig: Option<String>,
        zombie_tick: u32,
    ) -> (reason: Option<RebindReason>)
        ensures
            reason == old(self)@.verdict(*state, signature(sig), zombie_tick),
            final(self)@ == old(self)@.after(*state, signature(sig), zombie_tick),
    {
        proof {
            use_type_invariant(&*self);
        }
        let cur_gen: u64 = state.rebuild_generation();
        let rebuilt: bool = cur_gen != self.last_gen;
        self.last_gen = cur_gen;
        if state.is_rebuilding() || rebuilt {
            self.stale_ticks = 0;
            self.resync = true;
            return None;
        }
        if self.resync {
            self.resync = false;
            self.last_cb = state.callback_count();
            self.last_sig = sig;
            self.pending = None;
            self.stale_ticks = 0;
            return None;
        }
        let cb: u64 = state.callback_count();
        let stalled: bool = cb == self.last_cb && state.is_active() && !state.is_paused();
        self.last_cb = cb;
        if stalled {
            let stale: u32 = self.stale_ticks + 1;
            if stale >= zombie_tick {
                self.stale_ticks = 0;
                self.resync = true;
                return Some(RebindReason::StreamZombie);
            }
            self.stale_ticks = stale;
        } else {
            self.stale_ticks = 0;
        }
        if !same_signature(&sig, &self.last_sig) {
            let confirmed: bool = match &self.pending {
                Some(seen) => same_signature(seen, &sig),
                None => false,
            };
            if confirmed {
                self.last_sig = sig;
                self.pending = None;
                self.resync = true;
                return Some(RebindReason::DefaultChanged);
            }
            self.pending = Some(sig);
        } else {
            self.pending = None;
        }
        None
    }
}

/// One tick of the watchdog's inputs.
pub struct Tick {
    pub state: SharedState,
    pub sig: Signature,
}

/// What the watchdog remembers after `ticks`.
pub open spec fn after_ticks(brain: BrainView, ticks: Seq<Tick>, zombie_tick: u32) -> BrainView
    decreases ticks.len(),
{
    if ticks.len() == 0 {
        brain
    } else {
        let before = after_ticks(brain, ticks.drop_last(), zombie_tick);
        before.after(ticks.last().state, ticks.last().sig, zombie_tick)
    }
}

/// A changed default device is never reported on the tick that first sees it:
/// flapping for a single tick goes unnoticed.
pub proof fn default_change_is_confirmed_twice(
    brain: BrainView,
    first: Tick,
    second: Tick,
    zombie_tick: u32,
)
    requires
        brain.after(first.state, first.sig, zombie_tick).verdict(
            second.state,
            second.sig,
            zombie_tick,
        ) == Some(RebindReason::DefaultChanged),
        brain.pending is None,
    ensures
        first.sig == second.sig,
        first.sig != brain.last_sig,
{
}

/// A completed or running rebuild silences the tick that sees it and the next
/// one, whatever else those see, and the device of the second becomes the
/// expected default.
pub proof fn rebuild_rebaselines_quietly(
    brain: BrainView,
    first: Tick,
    second: Tick,
    zombie_tick: u32,
)
    requires
        brain.rebuild_seen(first.state),
        second.state.rebuild_generation == first.state.rebuild_generation,
        !second.state.rebuilding,
    ensures
        ({
            let middle = brain.after(first.state, first.sig, zombie_tick);
            let after = middle.after(second.state, second.sig, zombie_tick);
            &&& brain.verdict(first.state, first.sig, zombie_tick) is None
            &&& middle.verdict(second.state, second.sig, zombie_tick) is None
            &&& after.last_sig == second.sig
            &&& after.pending is None
            &&& after.stale_ticks == 0
            &&& !after.resync
        }),
{
}

/// While callbacks keep coming, or playback is paused or idle, a tick never
/// reports a zombie and clears the count.
pub proof fn no_zombie_while_alive(brain: BrainView, tick: Tick, zombie_tick: u32)
    requires
        tick.state.callback_count != brain.last_cb || tick.state.paused || !tick.state.active,
    ensures
        brain.verdict(tick.state, tick.sig, zombie_tick) != Some(RebindReason::StreamZombie),
        brain.after(tick.state, tick.sig, zombie_tick).stale_ticks == 0,
{
}

/// A stream that stops calling back while audio should be playing is reported
/// after exactly `zombie_tick` ticks, and not before.
pub proof fn zombie_after_exactly_stale_ticks(brain: BrainView, ticks: Seq<Tick>, zombie_tick: u32)
    requires
        !brain.resync,
        brain.stale_ticks == 0,
        brain.pending is None,
        0 < ticks.len() <= zombie_tick,
        forall|i: int|
            0 <= i < ticks.len() ==> {
                let tick = #[trigger] ticks[i];
                &&& tick.state.active
                &&& !tick.state.paused
                &&& !tick.state.rebuilding
                &&& tick.state.rebuild_generation == brain.last_gen
                &&& tick.state.callback_count == brain.last_cb
                &&& tick.sig == brain.last_sig
            },
    ensures
        after_ticks(brain, ticks.drop_last(), zombie_tick).verdict(
            ticks.last().state,
            ticks.last().sig,
            zombie_tick,
        ) == (if ticks.len() == zombie_tick {
            Some(RebindReason::StreamZombie)
        } else {
            None
        }),
        ticks.len() < zombie_tick ==> after_ticks(brain, ticks, zombie_tick) == (BrainView {
            stale_ticks: ticks.len() as u32,
            ..brain
        }),
    decreases ticks.len(),
{
    let earlier = ticks.drop_last();
    if earlier.len() > 0 {
        assert forall|i: int| 0 <= i < earlier.len() implies #[trigger] earlier[i] == ticks[i] by {}
        zombie_after_exactly_stale_ticks(brain, earlier, zombie_tick);
    }
    assert(ticks.last() == ticks[ticks.len() - 1]);
}

/// A new default device that is still there on the next tick is reported on that
/// tick, as long as callbacks keep coming and nothing is being rebuilt; and it is
/// then taken to be the default.
pub proof fn lasting_default_change_is_reported(
    brain: BrainView,
    first: Tick,
    second: Tick,
    zombie_tick: u32,
)
    requires
        !brain.resync,
        brain.pending is None,
        !first.state.rebuilding,
        !second.state.rebuilding,
        first.state.rebuild_generation == brain.last_gen,
        second.state.rebuild_generation == brain.last_gen,
        first.state.callback_count != brain.last_cb,
        second.state.callback_count != first.state.callback_count,
        first.sig != brain.last_sig,
        second.sig == first.sig,
    ensures
        ({
            let middle = brain.after(first.state, first.sig, zombie_tick);
            let after = middle.after(second.state, second.sig, zombie_tick);
            &&& brain.verdict(first.state, first.sig, zombie_tick) is None
            &&& middle.verdict(second.state, second.sig, zombie_tick) == Some(
                RebindReason::DefaultChanged,
            )
            &&& after.last_sig == second.sig
            &&& after.pending is None
        }),
{
}

/// A default device that is back on the next tick is never reported, and neither
/// is one that never changed.
pub proof fn unchanged_default_is_not_reported(brain: BrainView, tick: Tick, zombie_tick: u32)
    requires
        tick.sig == brain.last_sig,
    ensures
        brain.verdict(tick.state, tick.sig, zombie_tick) != Some(RebindReason::DefaultChanged),
        !brain.rebuild_seen(tick.state) && !brain.resync && !brain.zombie(tick.state, zombie_tick)
            ==> brain.after(tick.state, tick.sig, zombie_tick).pending is None,
{
}

/// After a report the next tick is quiet, whatever it sees: the rebuild that was
/// asked for is given that time, and what the tick sees is the new normal.
pub proof fn report_is_followed_by_a_quiet_tick(
    brain: BrainView,
    first: Tick,
    second: Tick,
    zombie_tick: u32,
)
    requires
        brain.verdict(first.state, first.sig, zombie_tick) is Some,
    ensures
        brain.after(first.state, first.sig, zombie_tick).verdict(
            second.state,
            second.sig,
            zombie_tick,
        ) is None,
        !second.state.rebuilding && second.state.rebuild_generation
            == first.state.rebuild_generation ==> {
            let after = brain.after(first.state, first.sig, zombie_tick).after(
                second.state,
                second.sig,
                zombie_tick,
            );
            &&& after.last_sig == second.sig
            &&& after.last_cb == second.state.callback_count
            &&& after.stale_ticks == 0
            &&& !after.resync
        },
{
}

/// While the stream is being rebuilt, and on the tick after a rebuild, nothing is
/// reported.
pub proof fn rebuilds_are_left_alone(brain: BrainView, tick: Tick, zombie_tick: u32)
    ensures
        tick.state.rebuilding ==> brain.verdict(tick.state, tick.sig, zombie_tick) is None,
        tick.state.rebuild_generation != brain.last_gen ==> brain.verdict(
            tick.state,
            tick.sig,
            zombie_tick,
        ) is None,
{
}

} // verus!
