//! The output side: what the audio callback plays, and how the supervisor
//! rebuilds a lost stream.

use crate::channel::{arrived_requests, heard_requests};
use crate::effect::Effect;
use crate::error::VoxError;
use crate::event::{RebindReason, VoxEvent};
use crate::mapping::SILENCE;
use crate::replaygain::UNITY;
use crate::ring::{depth, inflow, outflow, ready, room, taken, vacant, written};
use crate::ring::{new_ring, take_samples, waiting_samples};
use crate::state::SharedState;
use crate::tap::least;
use crossbeam_channel::Receiver;
use rtrb::{Consumer, Producer};
use vstd::prelude::*;
use vstd::string::StringExecFns;

verus! {

/// How long playback fades in after a seek, in milliseconds.
pub const SEEK_FADE_MS: u64 = 30;

/// Retry backoff while the device is lost, in milliseconds: start fast (a changed
/// device usually settles in a few hundred milliseconds).
pub const REBUILD_RETRY_MIN: u64 = 50;

/// The backoff doubles up to this gentle cap, in milliseconds (don't hammer
/// enumeration when the device is truly gone).
pub const REBUILD_RETRY_MAX: u64 = 300;

/// A request to the supervisor.
#[derive(Clone, Copy, Debug, PartialEq, Eq, Structural)]
pub enum OutputControl {
    Rebuild(RebindReason),
    Shutdown,
}

/// Handoff from supervisor to worker when the stream is (re)built.
pub struct AudioBinding {
    pub producer: Producer<u32>,
    pub output_rate: u32,
    pub output_channels: usize,
}

/// The stream that was built.
#[derive(Debug, PartialEq)]
pub struct StreamInfo {
    pub name: String,
    pub sample_rate: u32,
    pub channels: usize,
}

/// Output samples in `ms` milliseconds.
pub open spec fn samples_in(rate: u32, channels: usize, ms: nat) -> nat {
    (rate * channels * ms / 1000) as nat
}

/// The size of the ring between worker and callback.
pub fn buffer_size(rate: u32, channels: usize, buffer_ms: usize) -> (samples: usize)
    requires
        rate * channels * buffer_ms <= usize::MAX,
    ensures
        samples == samples_in(rate, channels, buffer_ms as nat),
{
    let ghost frame_rate = rate * channels;
    assert(0 <= frame_rate <= u128::MAX) by (nonlinear_arith)
        requires
            frame_rate == rate * channels,
            0 <= rate <= u32::MAX,
            0 <= channels <= u64::MAX,
    ;
    assert(0 <= frame_rate * buffer_ms) by (nonlinear_arith)
        requires
            0 <= frame_rate,
            0 <= buffer_ms,
    ;
    let samples: u128 = rate as u128 * channels as u128 * buffer_ms as u128 / 1000;
    samples as usize
}

/// The ring between worker and callback: two halves of one empty ring, to be
/// written in order by the one and read in order by the other.
pub fn output_ring(rate: u32, channels: usize, buffer_ms: usize) -> (ring: (
    Producer<u32>,
    Consumer<u32>,
))
    requires
        rate * channels * buffer_ms <= usize::MAX,
        samples_in(rate, channels, buffer_ms as nat) * 4 <= isize::MAX,
    ensures
        written(ring.0) == Seq::<u32>::empty(),
        room(ring.0) == samples_in(rate, channels, buffer_ms as nat),
        vacant(ring.0) == room(ring.0),
        taken(ring.1) == Seq::<u32>::empty(),
        depth(ring.1) == samples_in(rate, channels, buffer_ms as nat),
        ready(ring.1) == 0,
        inflow(ring.0) == outflow(ring.1),
        written(ring.0).is_prefix_of(inflow(ring.0)),
        taken(ring.1).is_prefix_of(outflow(ring.1)),
{
    new_ring(buffer_size(rate, channels, buffer_ms))
}

/// Audio is played in the order it was written, none lost in between and none
/// made up: what the callback has taken is the beginning of what the worker has
/// written.
pub proof fn playback_preserves_order(producer: Producer<u32>, consumer: Consumer<u32>)
    requires
        inflow(producer) == outflow(consumer),
        written(producer).is_prefix_of(inflow(producer)),
        taken(consumer).is_prefix_of(outflow(consumer)),
        taken(consumer).len() <= written(producer).len(),
    ensures
        taken(consumer).is_prefix_of(written(producer)),
{
}

/// What one run of the callback did to the shared state.
#[derive(Clone, Copy, Debug, PartialEq, Eq, Structural)]
pub struct CallbackOutcome {
    /// The seek epoch for which the ring was drained.
    pub ack: Option<u64>,
    /// Samples played.
    pub played: usize,
    /// What was written is the sound of a track, for the visualization tap to
    /// show.
    pub heard: bool,
}

impl SharedState {
    /// The callback plays audio.
    pub open spec fn audible(self) -> bool {
        self.active && !self.paused && !self.seek_pending && !self.rebuilding
    }

    /// The ring holds audio that must not be heard any more.
    pub open spec fn sweeping(self) -> bool {
        self.seek_pending || self.rebuilding || !self.active
    }

    /// The callback removes what is in the ring: during a seek only until it has
    /// acknowledged it.
    pub open spec fn drains(self) -> bool {
        self.sweeping() && (!self.seek_pending || self.seek_ack != self.seek_epoch)
    }

    /// What a run of the callback that plays nothing reports.
    pub open spec fn silent_outcome(self) -> CallbackOutcome {
        CallbackOutcome {
            ack: if self.sweeping() {
                Some(self.seek_epoch)
            } else {
                None
            },
            played: 0,
            heard: false,
        }
    }

    /// The state after a run of the callback.
    pub open spec fn after_callback(self, outcome: CallbackOutcome) -> SharedState {
        SharedState {
            callback_count: self.callback_count.wrapping_add(1),
            seek_ack: match outcome.ack {
                Some(epoch) => epoch,
                None => self.seek_ack,
            },
            samples_played: self.samples_played.wrapping_add(outcome.played as u64),
            ..self
        }
    }

    /// Records a run of the callback.
    pub fn record_callback(&mut self, outcome: CallbackOutcome)
        ensures
            *final(self) == old(self).after_callback(outcome),
    {
        self.bump_callback();
        if let Some(epoch) = outcome.ack {
            self.ack_seek(epoch);
        }
        self.add_samples(outcome.played as u64);
    }
}

/// What the audio callback remembers from one run to the next.
#[derive(Clone, Copy, Debug, PartialEq, Eq, Structural)]
pub struct Playhead {
    pub was_seeking: bool,
    /// Samples that playback takes to fade in.
    pub fade_total: usize,
    /// Samples left to fade in.
    pub fade_remaining: usize,
    /// The gain of the last sample played, on its way to what the listener has
    /// set.
    pub gain: u32,
}

/// The bit pattern of a full-scale sample below zero.
pub const NEGATIVE_UNITY: u32 = 0xbf80_0000;

/// Bit patterns from here on are those of values below zero.
pub const SIGN: u32 = 0x8000_0000;

/// The bit pattern of a sample without its sign. The order of magnitudes is that
/// of their bit patterns.
pub open spec fn magnitude(sample: u32) -> u32 {
    if sample >= SIGN {
        (sample - SIGN) as u32
    } else {
        sample
    }
}

/// The sample, cut off at full scale. What is no number counts as too large.
pub open spec fn clipped(sample: u32) -> u32 {
    if magnitude(sample) <= UNITY {
        sample
    } else if sample >= SIGN {
        NEGATIVE_UNITY
    } else {
        UNITY
    }
}

/// See [`clipped`].
pub fn hard_clip(sample: u32) -> (out: u32)
    ensures
        out == clipped(sample),
        magnitude(out) <= UNITY,
{
    let size: u32 = if sample >= SIGN {
        sample - SIGN
    } else {
        sample
    };
    if size <= UNITY {
        sample
    } else if sample >= SIGN {
        NEGATIVE_UNITY
    } else {
        UNITY
    }
}

/// `gains` is how the gain moves from `from` towards `target`, one step for each
/// sample.
pub open spec fn is_ramp<V: Fn(u32, u32) -> u32>(
    gains: Seq<u32>,
    from: u32,
    target: u32,
    ramp: V,
) -> bool {
    forall|i: int|
        0 <= i < gains.len() ==> call_ensures(
            ramp,
            (ramp_at(gains, from, i), target),
            #[trigger] gains[i],
        )
}

/// The gain before step `i` of a ramp.
pub open spec fn ramp_at(gains: Seq<u32>, from: u32, i: int) -> u32 {
    if i == 0 {
        from
    } else {
        gains[i - 1]
    }
}

/// `out` is how `sample` sounds: fading in where there is anything `left` to
/// fade, scaled by the gain, and cut off at full scale.
pub open spec fn sounds<S: Fn(u32, usize, usize) -> u32, A: Fn(u32, u32) -> u32>(
    sample: u32,
    left: usize,
    total: usize,
    fade: S,
    gain: u32,
    scale: A,
    out: u32,
) -> bool {
    exists|faded: u32, loud: u32|
        (if left > 0 {
            call_ensures(fade, (sample, left, total), faded)
        } else {
            faded == sample
        }) && #[trigger] call_ensures(scale, (faded, gain), loud) && out == clipped(loud)
}

/// What is left to fade at sample `i`, `left` being left at the first.
pub open spec fn left_at(left: usize, i: int) -> usize {
    if i < left {
        (left - i) as usize
    } else {
        0
    }
}

/// `data` is what the callback plays of `samples`: each as it sounds with its
/// gain, the first `left` of them fading in, and silence where they run out.
pub open spec fn is_played<S: Fn(u32, usize, usize) -> u32, A: Fn(u32, u32) -> u32>(
    samples: Seq<u32>,
    left: usize,
    total: usize,
    fade: S,
    gains: Seq<u32>,
    scale: A,
    data: Seq<u32>,
) -> bool {
    forall|i: int|
        0 <= i < data.len() ==> {
            let out = #[trigger] data[i];
            if i >= samples.len() {
                out == SILENCE
            } else {
                sounds(samples[i], left_at(left, i), total, fade, gains[i], scale, out)
            }
        }
}

/// Whatever is in the ring and whatever the gain, what the callback writes, and
/// the tap shows, lies within full scale.
pub proof fn output_stays_in_range<S: Fn(u32, usize, usize) -> u32, A: Fn(u32, u32) -> u32>(
    samples: Seq<u32>,
    left: usize,
    total: usize,
    fade: S,
    gains: Seq<u32>,
    scale: A,
    data: Seq<u32>,
    i: int,
)
    requires
        is_played(samples, left, total, fade, gains, scale, data),
        0 <= i < data.len(),
    ensures
        magnitude(data[i]) <= UNITY,
{
    let out = data[i];
    if i < samples.len() {
        assert(sounds(samples[i], left_at(left, i), total, fade, gains[i], scale, out));
    }
}

/// Removes everything that waits in the ring.
fn drain(consumer: &mut Consumer<u32>)
    ensures
        ({
            let gone = taken(*final(consumer)).skip(taken(*old(consumer)).len() as int);
            &&& taken(*final(consumer)) == taken(*old(consumer)) + gone
            &&& gone.len() >= ready(*old(consumer))
        }),
        ready(*final(consumer)) == 0,
        taken(*final(consumer)).is_prefix_of(outflow(*final(consumer))),
        depth(*final(consumer)) == depth(*old(consumer)),
        outflow(*final(consumer)) == outflow(*old(consumer)),
{
    let ghost before = taken(*consumer);
    let available: usize = waiting_samples(consumer);
    if available > 0 {
        let dropped = take_samples(consumer, available);
        assert(taken(*consumer).skip(before.len() as int) =~= dropped->0@);
    } else {
        assert(before =~= before + before.skip(before.len() as int));
    }
}

impl Playhead {
    /// For a stream of this format, before its first callback. A fade too long to
    /// be counted is cut off. The gain starts at what the listener has set, so
    /// that a new stream does not rise from silence.
    pub fn new(rate: u32, channels: usize, gain: u32) -> (playhead: Self)
        ensures
            !playhead.was_seeking,
            playhead.fade_total == least(
                samples_in(rate, channels, SEEK_FADE_MS as nat),
                usize::MAX as nat,
            ),
            playhead.fade_remaining == 0,
            playhead.gain == gain,
    {
        assert(0 <= rate * channels <= 0xffff_ffff * 0xffff_ffff_ffff_ffff) by (nonlinear_arith)
            requires
                0 <= rate <= 0xffff_ffff,
                0 <= channels <= 0xffff_ffff_ffff_ffff,
        ;
        let samples: u128 = rate as u128 * channels as u128 * SEEK_FADE_MS as u128 / 1000;
        let fade_total: usize = if samples > usize::MAX as u128 {
            usize::MAX
        } else {
            samples as usize
        };
        Playhead { was_seeking: false, fade_total, fade_remaining: 0, gain }
    }

    /// Samples still to fade in when the callback starts to play: the first run
    /// after a seek starts the fade over.
    pub open spec fn fade_left(self) -> usize {
        if self.was_seeking {
            self.fade_total
        } else {
            self.fade_remaining
        }
    }

    /// One run of the audio callback: fills `data` with `want` samples. `fade`
    /// scales a sample for so many samples left to fade of so many in all; `ramp`
    /// moves the gain one step towards what the listener has set, and `scale`
    /// applies it; what is too loud then is cut off.
    ///
    /// While playback is paused, stopped, seeking or rebuilding there is
    /// silence. Where the audio in the ring must not be heard any more, it is
    /// removed, and the current seek epoch acknowledged; during a seek that has
    /// been acknowledged already the ring is left alone, as it holds audio from
    /// after the seek.
    pub fn callback<
        S: Fn(u32, usize, usize) -> u32,
        V: Fn(u32, u32) -> u32,
        A: Fn(u32, u32) -> u32,
    >(
        &mut self,
        state: &SharedState,
        consumer: &mut Consumer<u32>,
        want: usize,
        data: &mut Vec<u32>,
        fade: S,
        ramp: V,
        scale: A,
    ) -> (outcome: CallbackOutcome)
        requires
            forall|sample: u32, left: usize, total: usize| #[trigger]
                call_requires(fade, (sample, left, total)),
            forall|gain: u32, target: u32| #[trigger] call_requires(ramp, (gain, target)),
            forall|sample: u32, gain: u32| #[trigger] call_requires(scale, (sample, gain)),
        ensures
            final(data)@.len() == want,
            ({
                let before = taken(*old(consumer));
                let gone = taken(*final(consumer)).skip(before.len() as int);
                &&& taken(*final(consumer)) == before + gone
                &&& if state.audible() {
                    let left = old(self).fade_left();
                    &&& outcome == (CallbackOutcome {
                        ack: None,
                        played: gone.len() as usize,
                        heard: true,
                    })
                    &&& least(want as nat, ready(*old(consumer))) <= gone.len() <= want
                    &&& gone.len() == want || ready(*final(consumer)) == 0
                    &&& exists|gains: Seq<u32>|
                        #![trigger is_ramp(gains, old(self).gain, state.volume_gain, ramp)]
                        {
                            &&& is_ramp(gains, old(self).gain, state.volume_gain, ramp)
                            &&& gains.len() == gone.len()
                            &&& final(self).gain == ramp_at(
                                gains,
                                old(self).gain,
                                gains.len() as int,
                            )
                            &&& is_played(
                                gone,
                                left,
                                old(self).fade_total,
                                fade,
                                gains,
                                scale,
                                final(data)@,
                            )
                        }
                    &&& final(self).fade_remaining == left_at(left, gone.len() as int)
                } else {
                    &&& outcome == state.silent_outcome()
                    &&& if state.drains() {
                        gone.len() >= ready(*old(consumer)) && ready(*final(consumer)) == 0
                    } else {
                        *final(consumer) == *old(consumer)
                    }
                    &&& final(data)@ == Seq::new(want as nat, |i: int| SILENCE)
                    &&& final(self).fade_remaining == old(self).fade_remaining
                    &&& final(self).gain == old(self).gain
                }
            }),
            final(self).was_seeking == state.seek_pending,
            final(self).fade_total == old(self).fade_total,
            depth(*final(consumer)) == depth(*old(consumer)),
            outflow(*final(consumer)) == outflow(*old(consumer)),
            state.audible() || state.drains() || taken(*old(consumer)).is_prefix_of(
                outflow(*old(consumer)),
            ) ==> taken(*final(consumer)).is_prefix_of(outflow(*final(consumer))),
    {
        let ghost before = taken(*consumer);
        assert(before =~= before + before.skip(before.len() as int));
        data.clear();
        let is_seeking: bool = state.is_seeking();
        let is_rebuilding: bool = state.is_rebuilding();
        let stopped: bool = !state.is_active();
        if state.is_paused() || stopped || is_seeking || is_rebuilding {
            let mut ack: Option<u64> = None;
            if is_seeking || is_rebuilding || stopped {
                let epoch: u64 = state.seek_epoch();
                if !is_seeking || !state.seek_acked() {
                    drain(consumer);
                }
                ack = Some(epoch);
            }
            data.resize(want, SILENCE);
            assert(data@ =~= Seq::new(want as nat, |i: int| SILENCE));
            self.was_seeking = is_seeking;
            return CallbackOutcome { ack, played: 0, heard: false };
        }
        if self.was_seeking {
            self.fade_remaining = self.fade_total;
        }
        self.was_seeking = is_seeking;
        let ghost left = self.fade_remaining;
        let ghost from = self.gain;
        let target: u32 = state.volume_gain();
        let available: usize = waiting_samples(consumer);
        let to_read: usize = if available < want {
            available
        } else {
            want
        };
        let ghost mut gone: Seq<u32> = Seq::empty();
        let ghost mut gains: Seq<u32> = Seq::empty();
        if to_read > 0 {
            if let Some(samples) = take_samples(consumer, to_read) {
                let fade_total: usize = self.fade_total;
                let mut i: usize = 0;
                while i < to_read
                    invariant
                        i <= to_read,
                        to_read == samples@.len(),
                        data@.len() == i,
                        gains.len() == i,
                        fade_total == self.fade_total,
                        self.fade_remaining == left_at(left, i as int),
                        self.was_seeking == is_seeking,
                        self.gain == ramp_at(gains, from, i as int),
                        is_ramp(gains, from, target, ramp),
                        is_played(samples@, left, fade_total, fade, gains, scale, data@),
                        forall|sample: u32, left: usize, total: usize| #[trigger]
                            call_requires(fade, (sample, left, total)),
                        forall|gain: u32, target: u32| #[trigger]
                            call_requires(ramp, (gain, target)),
                        forall|sample: u32, gain: u32| #[trigger]
                            call_requires(scale, (sample, gain)),
                    decreases to_read - i,
                {
                    let ghost earlier = gains;
                    let ghost written = data@;
                    let mut sample: u32 = samples[i];
                    if self.fade_remaining > 0 {
                        sample = fade(sample, self.fade_remaining, fade_total);
                        self.fade_remaining = self.fade_remaining - 1;
                    }
                    self.gain = ramp(self.gain, target);
                    let loud: u32 = scale(sample, self.gain);
                    data.push(hard_clip(loud));
                    proof {
                        gains = gains.push(self.gain);
                        assert(sounds(
                            samples@[i as int],
                            left_at(left, i as int),
                            fade_total,
                            fade,
                            gains[i as int],
                            scale,
                            data@[i as int],
                        ));
                        assert forall|k: int| 0 <= k < gains.len() implies call_ensures(
                            ramp,
                            (ramp_at(gains, from, k), target),
                            #[trigger] gains[k],
                        ) by {
                            if k < i {
                                assert(gains[k] == earlier[k]);
                                assert(ramp_at(gains, from, k) == ramp_at(earlier, from, k));
                            }
                        }
                        assert forall|k: int| 0 <= k < data@.len() implies sounds(
                            samples@[k],
                            left_at(left, k),
                            fade_total,
                            fade,
                            gains[k],
                            scale,
                            #[trigger] data@[k],
                        ) by {
                            if k < i {
                                assert(data@[k] == written[k]);
                                assert(gains[k] == earlier[k]);
                            }
                        }
                    }
                    i = i + 1;
                }
                proof {
                    gone = samples@;
                }
            }
        }
        assert(taken(*consumer) =~= before + gone);
        assert(taken(*consumer).skip(before.len() as int) =~= gone);
        let ghost played = data@;
        assert(is_played(gone, left, self.fade_total, fade, gains, scale, played));
        data.resize(want, SILENCE);
        assert forall|i: int| 0 <= i < played.len() implies data@[i] == played[i] by {
            assert(data@.subrange(0, played.len() as int)[i] == played[i]);
        }
        assert forall|i: int| played.len() <= i < data@.len() implies data@[i] == SILENCE by {
            assert(cloned::<u32>(SILENCE, data@[i]));
        }
        assert(played.len() == gone.len());
        assert forall|i: int| 0 <= i < data@.len() implies {
            let out = #[trigger] data@[i];
            if i >= gone.len() {
                out == SILENCE
            } else {
                sounds(gone[i], left_at(left, i), self.fade_total, fade, gains[i], scale, out)
            }
        } by {
            if i < played.len() {
                assert(data@[i] == played[i]);
            }
        }
        assert(is_ramp(gains, old(self).gain, state.volume_gain, ramp));
        CallbackOutcome { ack: None, played: to_read, heard: true }
    }
}

/// The seek handshake: after a seek has started, the first callback removes what
/// is in the ring from before and acknowledges the seek, without a sound and
/// without moving the position; the callbacks after it leave alone what is put
/// into the ring from then on.
pub proof fn first_callback_acknowledges_seek(state: SharedState)
    requires
        state.seek_ack != state.seek_epoch.wrapping_add(1),
    ensures
        ({
            let started = state.after(Effect::StartSeek);
            let after = started.after_callback(started.silent_outcome());
            &&& !started.audible()
            &&& started.drains()
            &&& after.seek_ack == after.seek_epoch
            &&& after.samples_played == state.samples_played
            &&& !after.audible()
            &&& !after.drains()
        }),
{
}

/// Each callback beats once for the watchdog, whatever it does besides.
pub proof fn callback_beats(state: SharedState, outcome: CallbackOutcome)
    ensures
        state.after_callback(outcome).callback_count == state.callback_count.wrapping_add(1),
        state.after_callback(outcome).callback_count != state.callback_count,
        state.after_callback(outcome).seek_epoch == state.seek_epoch,
        state.after_callback(outcome).active == state.active,
        state.after_callback(outcome).paused == state.paused,
{
}

/// What the supervisor waits for.
#[derive(Clone, Copy, Debug, PartialEq, Eq, Structural)]
pub enum Vigil {
    /// A request.
    Listen,
    /// The requests that are queued already.
    Sweep,
    /// A stream to be built.
    Build,
    /// A request, for at most this many milliseconds.
    Wait(u64),
    /// Nothing more.
    Done,
}

/// The answer to a [`Vigil`].
pub enum Report {
    /// To `Listen` and `Wait`: a request.
    Control(OutputControl),
    /// To `Listen` and `Wait`: none, for all senders are gone or the time is up.
    Silent,
    /// To `Sweep`.
    Swept(Vec<OutputControl>),
    /// To `Build`.
    Built(Result<StreamInfo, VoxError>),
}

/// Whether a report is an answer to what the supervisor waits for.
pub open spec fn fits(vigil: Vigil, report: Report) -> bool {
    match vigil {
        Vigil::Listen => report is Control || report is Silent,
        Vigil::Sweep => report is Swept,
        Vigil::Build => report is Built,
        Vigil::Wait(_) => report is Control || report is Silent,
        Vigil::Done => false,
    }
}

/// What the supervisor wants done.
#[derive(Debug, PartialEq)]
pub enum Upkeep {
    /// [`SharedState::set_rebuilding`].
    SetRebuilding(bool),
    /// Let go of the current stream.
    DropStream,
    /// Offer the event to the caller.
    Emit(VoxEvent),
}

/// Keeps the output stream alive.
pub struct Supervisor {
    pub vigil: Vigil,
    /// The device of the last stream that worked.
    pub name: String,
    /// Why the stream is being rebuilt.
    pub reason: RebindReason,
    /// The failure announced last during this rebuild.
    pub last_err: Option<String>,
    /// How long to wait after the next failure, in milliseconds.
    pub backoff: u64,
}

/// The wait after the one of `backoff`.
pub open spec fn next_backoff(backoff: u64) -> u64 {
    if backoff * 2 < REBUILD_RETRY_MAX {
        (backoff * 2) as u64
    } else {
        REBUILD_RETRY_MAX
    }
}

/// Whether a request to shut down is among those queued.
pub open spec fn shuts_down(messages: Seq<OutputControl>) -> bool {
    exists|i: int| 0 <= i < messages.len() && #[trigger] messages[i] == OutputControl::Shutdown
}

/// See [`shuts_down`].
fn any_shutdown(messages: &Vec<OutputControl>) -> (any: bool)
    ensures
        any == shuts_down(messages@),
{
    let mut i: usize = 0;
    while i < messages.len()
        invariant
            i <= messages@.len(),
            forall|k: int| 0 <= k < i ==> #[trigger] messages@[k] != OutputControl::Shutdown,
        decreases messages@.len() - i,
    {
        if messages[i] == OutputControl::Shutdown {
            return true;
        }
        i = i + 1;
    }
    false
}

impl Supervisor {
    /// Keeps the stream on the device `name`, which has just been built.
    pub fn new(name: String) -> (supervisor: Self)
        ensures
            supervisor.vigil == Vigil::Listen,
            supervisor.name == name,
            supervisor.last_err is None,
            supervisor.backoff == REBUILD_RETRY_MIN,
    {
        Supervisor {
            vigil: Vigil::Listen,
            name,
            reason: RebindReason::HardLoss,
            last_err: None,
            backoff: REBUILD_RETRY_MIN,
        }
    }

    /// A failure that has not been announced yet during this rebuild.
    pub open spec fn is_news(self, error: VoxError) -> bool {
        match self.last_err {
            Some(known) => known@ != error.text(),
            None => true,
        }
    }

    /// Once the queued requests are swept: it is done where one of them asks for
    /// that, and else it rebuilds from scratch.
    pub open spec fn swept(self, messages: Seq<OutputControl>) -> Supervisor {
        if shuts_down(messages) {
            Supervisor { vigil: Vigil::Done, ..self }
        } else {
            Supervisor {
                vigil: Vigil::Build,
                last_err: None,
                backoff: REBUILD_RETRY_MIN,
                ..self
            }
        }
    }

    /// What the supervisor does with a report, and what it waits for next.
    ///
    /// A request to rebuild gates the engine and lets go of the old stream; the
    /// requests that the old stream queued meanwhile are dropped, but never one
    /// to shut down. Building is retried, after a growing wait, until it
    /// succeeds. Of the failures only those are announced that differ from the
    /// last one announced.
    pub open spec fn handles(self, report: Report, after: Supervisor, work: Seq<Upkeep>) -> bool {
        match (self.vigil, report) {
            (Vigil::Listen, Report::Control(OutputControl::Rebuild(reason))) => {
                &&& after == (Supervisor { vigil: Vigil::Sweep, reason, ..self })
                &&& work == seq![Upkeep::SetRebuilding(true), Upkeep::DropStream]
            },
            (Vigil::Listen, _) => {
                &&& after == (Supervisor { vigil: Vigil::Done, ..self })
                &&& work == seq![Upkeep::DropStream]
            },
            (Vigil::Sweep, Report::Swept(messages)) => {
                &&& work.len() == 0
                &&& after == self.swept(messages@)
            },
            (Vigil::Build, Report::Built(Ok(info))) => {
                &&& after == (Supervisor { vigil: Vigil::Listen, name: info.name, ..self })
                &&& work == seq![
                    Upkeep::SetRebuilding(false),
                    Upkeep::Emit(
                        VoxEvent::DeviceChanged {
                            name: info.name,
                            sample_rate: info.sample_rate,
                            channels: info.channels,
                            reason: self.reason,
                        },
                    ),
                ]
            },
            (Vigil::Build, Report::Built(Err(error))) => {
                &&& after == (Supervisor {
                    vigil: Vigil::Wait(self.backoff),
                    last_err: after.last_err,
                    backoff: next_backoff(self.backoff),
                    ..self
                })
                &&& if self.is_news(error) {
                    &&& after.last_err is Some
                    &&& after.last_err->0@ == error.text()
                    &&& work == seq![
                        Upkeep::Emit(
                            VoxEvent::DeviceLost { name: self.name, error: after.last_err->0 },
                        ),
                    ]
                } else {
                    &&& after.last_err == self.last_err
                    &&& work.len() == 0
                }
            },
            (Vigil::Wait(_), Report::Control(OutputControl::Shutdown)) => {
                &&& after == (Supervisor { vigil: Vigil::Done, ..self })
                &&& work.len() == 0
            },
            (Vigil::Wait(_), _) => {
                &&& after == (Supervisor { vigil: Vigil::Build, ..self })
                &&& work.len() == 0
            },
            _ => false,
        }
    }

    /// Takes the report on what the supervisor waits for, and returns what is to
    /// be done, in order.
    pub fn resume(&mut self, report: Report) -> (work: Vec<Upkeep>)
        requires
            fits(old(self).vigil, report),
            old(self).backoff <= REBUILD_RETRY_MAX,
        ensures
            old(self).handles(report, *final(self), work@),
            final(self).backoff <= REBUILD_RETRY_MAX,
    {
        let mut work: Vec<Upkeep> = Vec::new();
        match self.vigil {
            Vigil::Listen => match report {
                Report::Control(OutputControl::Rebuild(reason)) => {
                    self.vigil = Vigil::Sweep;
                    self.reason = reason;
                    work.push(Upkeep::SetRebuilding(true));
                    work.push(Upkeep::DropStream);
                    assert(work@ =~= seq![Upkeep::SetRebuilding(true), Upkeep::DropStream]);
                },
                _ => {
                    self.vigil = Vigil::Done;
                    work.push(Upkeep::DropStream);
                    assert(work@ =~= seq![Upkeep::DropStream]);
                },
            },
            Vigil::Sweep => if let Report::Swept(messages) = report {
                if any_shutdown(&messages) {
                    self.vigil = Vigil::Done;
                } else {
                    self.vigil = Vigil::Build;
                    self.last_err = None;
                    self.backoff = REBUILD_RETRY_MIN;
                }
            },
            Vigil::Build => match report {
                Report::Built(Ok(info)) => {
                    self.vigil = Vigil::Listen;
                    work.push(Upkeep::SetRebuilding(false));
                    work.push(
                        Upkeep::Emit(
                            VoxEvent::DeviceChanged {
                                name: info.name.clone(),
                                sample_rate: info.sample_rate,
                                channels: info.channels,
                                reason: self.reason,
                            },
                        ),
                    );
                    assert(work@ =~= seq![work@[0], work@[1]]);
                    self.name = info.name;
                },
                Report::Built(Err(error)) => {
                    let text: String = error.message();
                    let known: bool = match &self.last_err {
                        Some(last) => *last == text,
                        None => false,
                    };
                    if !known {
                        work.push(
                            Upkeep::Emit(
                                VoxEvent::DeviceLost {
                                    name: self.name.clone(),
                                    error: text.clone(),
                                },
                            ),
                        );
                        assert(work@ =~= seq![work@[0]]);
                        self.last_err = Some(text);
                    }
                    self.vigil = Vigil::Wait(self.backoff);
                    self.backoff = if self.backoff * 2 < REBUILD_RETRY_MAX {
                        self.backoff * 2
                    } else {
                        REBUILD_RETRY_MAX
                    };
                },
                _ => {},
            },
            Vigil::Wait(_) => match report {
                Report::Control(OutputControl::Shutdown) => {
                    self.vigil = Vigil::Done;
                },
                _ => {
                    self.vigil = Vigil::Build;
                },
            },
            Vigil::Done => {},
        }
        work
    }
}

impl Supervisor {
    /// Drops the requests that are queued for the supervisor, looking out for one
    /// to shut down.
    pub fn sweep(&mut self, requests: &mut Receiver<OutputControl>) -> (work: Vec<Upkeep>)
        requires
            old(self).vigil == Vigil::Sweep,
            old(self).backoff <= REBUILD_RETRY_MAX,
        ensures
            heard_requests(*old(requests)).is_prefix_of(heard_requests(*final(requests))),
            *final(self) == old(self).swept(
                heard_requests(*final(requests)).skip(
                    heard_requests(*old(requests)).len() as int,
                ),
            ),
            work@.len() == 0,
            final(self).backoff <= REBUILD_RETRY_MAX,
    {
        let ghost before = heard_requests(*requests);
        let messages: Vec<OutputControl> = arrived_requests(requests);
        assert(heard_requests(*requests).skip(before.len() as int) =~= messages@);
        self.resume(Report::Swept(messages))
    }
}

/// A failure that keeps coming back is announced once: right after it was
/// announced, the same failure has no effect but the next wait.
pub proof fn repeated_failure_is_announced_once(
    before: Supervisor,
    error: VoxError,
    middle: Supervisor,
    first: Seq<Upkeep>,
    after: Supervisor,
    second: Seq<Upkeep>,
)
    requires
        before.vigil == Vigil::Build,
        before.handles(Report::Built(Err(error)), middle, first),
        (Supervisor { vigil: Vigil::Build, ..middle }).handles(
            Report::Built(Err(error)),
            after,
            second,
        ),
    ensures
        second.len() == 0,
        after.last_err == middle.last_err,
{
}

/// The waits between attempts start short, never shrink and never exceed the
/// cap.
pub proof fn backoff_grows_to_the_cap(backoff: u64)
    requires
        REBUILD_RETRY_MIN <= backoff <= REBUILD_RETRY_MAX,
    ensures
        backoff <= next_backoff(backoff) <= REBUILD_RETRY_MAX,
        backoff == REBUILD_RETRY_MAX || backoff < next_backoff(backoff),
{
}

/// The listed device that is the default one, by identity: the first with the
/// default's own. Without one the default has to do itself.
pub fn default_output_concrete(default_id: &Option<String>, ids: &Vec<Option<String>>) -> (found:
    Option<usize>)
    ensures
        match found {
            Some(at) => {
                &&& at < ids@.len()
                &&& default_id is Some
                &&& is_device(ids@[at as int], default_id->0@)
                &&& forall|k: int| 0 <= k < at ==> !is_device(#[trigger] ids@[k], default_id->0@)
            },
            None => default_id is None || forall|k: int|
                0 <= k < ids@.len() ==> !is_device(#[trigger] ids@[k], default_id->0@),
        },
{
    if let Some(wanted) = default_id {
        let mut i: usize = 0;
        while i < ids.len()
            invariant
                i <= ids@.len(),
                default_id matches Some(id) && id@ == wanted@,
                forall|k: int| 0 <= k < i ==> !is_device(#[trigger] ids@[k], wanted@),
            decreases ids@.len() - i,
        {
            if let Some(id) = &ids[i] {
                if *id == *wanted {
                    return Some(i);
                }
            }
            i = i + 1;
        }
    }
    None
}

/// A device has this identity.
pub open spec fn is_device(id: Option<String>, wanted: Seq<char>) -> bool {
    id matches Some(own) && own@ == wanted
}

/// The error that a panic while setting up a stream is reported as.
pub fn install_panicked() -> (error: VoxError)
    ensures
        error matches VoxError::Device(text) && text@ == "stream setup panicked (device lost)"@,
{
    VoxError::Device(String::from_str("stream setup panicked (device lost)"))
}

/// The error that the lack of an output device is reported as.
pub fn no_output_device() -> (error: VoxError)
    ensures
        error matches VoxError::Device(text) && text@ == "no output device"@,
{
    VoxError::Device(String::from_str("no output device"))
}

/// The output is heard exactly while a track plays: held, stopped, seeking or
/// rebuilding, it is silent. A pause alone leaves the ring as it is and
/// acknowledges nothing; a stop and a rebuild drop what is in it, and so does a
/// seek until it is acknowledged, and all three acknowledge the current seek.
pub proof fn output_is_heard_only_while_playing(state: SharedState)
    ensures
        state.paused ==> !state.audible(),
        !state.active ==> !state.audible(),
        state.seek_pending ==> !state.audible(),
        state.rebuilding ==> !state.audible(),
        state.active && !state.paused && !state.seek_pending && !state.rebuilding
            ==> state.audible() && !state.drains(),
        state.active && state.paused && !state.seek_pending && !state.rebuilding
            ==> !state.drains() && state.silent_outcome().ack is None,
        !state.active && !state.seek_pending ==> state.drains(),
        state.rebuilding && !state.seek_pending ==> state.drains(),
        state.seek_pending ==> (state.drains() <==> state.seek_ack != state.seek_epoch),
        !state.active || state.seek_pending || state.rebuilding ==> state.silent_outcome().ack
            == Some(state.seek_epoch),
        state.silent_outcome().played == 0,
        !state.silent_outcome().heard,
{
}

/// A run of the callback moves the position by as many samples as it played, and
/// takes over an acknowledgement where it gave one; nothing else changes but the
/// count of the runs.
pub proof fn position_counts_what_was_played(state: SharedState, outcome: CallbackOutcome)
    requires
        state.samples_played + outcome.played <= u64::MAX,
        state.callback_count < u64::MAX,
    ensures
        state.after_callback(outcome) == (SharedState {
            samples_played: (state.samples_played + outcome.played) as u64,
            callback_count: (state.callback_count + 1) as u64,
            seek_ack: if outcome.ack is Some {
                outcome.ack->0
            } else {
                state.seek_ack
            },
            ..state
        }),
{
}

/// The samples in a number of milliseconds are those that end within it.
pub proof fn samples_in_a_time_end_within_it(rate: u32, channels: usize, ms: nat, samples: nat)
    requires
        samples * 1000 <= rate * channels * ms,
        rate * channels * ms < (samples + 1) * 1000,
    ensures
        samples_in(rate, channels, ms) == samples,
{
    crate::timing::lemma_quotient(rate * channels * ms, 1000, samples as int);
}

/// After a seek, playback fades in over thirty milliseconds.
pub proof fn fade_lasts_thirty_milliseconds(rate: u32, channels: usize, samples: nat)
    requires
        samples * 1000 <= rate * channels * 30,
        rate * channels * 30 < (samples + 1) * 1000,
    ensures
        samples_in(rate, channels, SEEK_FADE_MS as nat) == samples,
{
    samples_in_a_time_end_within_it(rate, channels, 30, samples);
}

/// The first sample after a seek is faded with all of the fade left, each one after
/// it with one sample less, and from the end of the fade on none is faded at all.
/// Every sample is scaled by its own gain and then cut off; where the ring runs
/// out there is silence.
pub proof fn fade_runs_down_sample_by_sample<
    S: Fn(u32, usize, usize) -> u32,
    A: Fn(u32, u32) -> u32,
>(
    samples: Seq<u32>,
    left: usize,
    total: usize,
    fade: S,
    gains: Seq<u32>,
    scale: A,
    data: Seq<u32>,
    i: int,
)
    requires
        is_played(samples, left, total, fade, gains, scale, data),
        0 <= i < data.len(),
    ensures
        i >= samples.len() ==> data[i] == 0,
        i < samples.len() && i >= left ==> exists|loud: u32| #[trigger]
            call_ensures(scale, (samples[i], gains[i]), loud) && data[i] == clipped(loud),
        i < samples.len() && i < left ==> exists|faded: u32, loud: u32|
            call_ensures(fade, (samples[i], (left - i) as usize, total), faded)
                && #[trigger] call_ensures(scale, (faded, gains[i]), loud) && data[i] == clipped(
                loud,
            ),
        left_at(left, i) == (if i < left {
            left - i
        } else {
            0
        }),
{
    let out = data[i];
    if i < samples.len() {
        assert(sounds(samples[i], left_at(left, i), total, fade, gains[i], scale, out));
    }
}

/// A seek that is over makes the fade start from the beginning; otherwise it goes
/// on where it was.
pub proof fn fade_starts_over_after_a_seek(playhead: Playhead)
    ensures
        playhead.was_seeking ==> playhead.fade_left() == playhead.fade_total,
        !playhead.was_seeking ==> playhead.fade_left() == playhead.fade_remaining,
{
}

/// The gain of each sample is one step on from that of the sample before it, the
/// first from where the gain was, and always towards what the listener has set.
pub proof fn gain_moves_one_step_a_sample<V: Fn(u32, u32) -> u32>(
    gains: Seq<u32>,
    from: u32,
    target: u32,
    ramp: V,
    i: int,
)
    requires
        is_ramp(gains, from, target, ramp),
        0 <= i < gains.len(),
    ensures
        i == 0 ==> call_ensures(ramp, (from, target), gains[0]),
        i > 0 ==> call_ensures(ramp, (gains[i - 1], target), gains[i]),
        ramp_at(gains, from, 0) == from,
        ramp_at(gains, from, gains.len() as int) == gains[gains.len() - 1],
{
    assert(call_ensures(ramp, (ramp_at(gains, from, i), target), gains[i]));
}

/// Cutting off leaves every sample within full scale as it is, of either sign, and
/// keeps the sign of all others at full scale. The bit patterns are those of 1.0
/// and -1.0.
pub proof fn clipping_keeps_sign_and_what_fits(sample: u32)
    ensures
        sample <= 0x3f80_0000 ==> clipped(sample) == sample,
        0x3f80_0000 < sample < 0x8000_0000 ==> clipped(sample) == 0x3f80_0000,
        0x8000_0000 <= sample <= 0xbf80_0000 ==> clipped(sample) == sample,
        sample > 0xbf80_0000 ==> clipped(sample) == 0xbf80_0000,
        clipped(clipped(sample)) == clipped(sample),
{
}

/// A rebuild that was asked for mutes the engine before the stream is let go, and
/// the reason it was asked for is the one announced with the new stream. The
/// engine is let go on before the new device is announced, under the name and
/// format it has.
pub proof fn rebuild_mutes_and_then_says_why(
    before: Supervisor,
    reason: RebindReason,
    middle: Supervisor,
    first: Seq<Upkeep>,
    info: StreamInfo,
    after: Supervisor,
    second: Seq<Upkeep>,
)
    requires
        before.vigil == Vigil::Listen,
        before.handles(Report::Control(OutputControl::Rebuild(reason)), middle, first),
        (Supervisor { vigil: Vigil::Build, ..middle }).handles(
            Report::Built(Ok(info)),
            after,
            second,
        ),
    ensures
        first == seq![Upkeep::SetRebuilding(true), Upkeep::DropStream],
        middle.vigil == Vigil::Sweep,
        second == seq![
            Upkeep::SetRebuilding(false),
            Upkeep::Emit(
                VoxEvent::DeviceChanged {
                    name: info.name,
                    sample_rate: info.sample_rate,
                    channels: info.channels,
                    reason,
                },
            ),
        ],
        after.vigil == Vigil::Listen,
        after.name == info.name,
{
}

/// A stream that cannot be built is tried again after the wait that is due, for as
/// long as it takes. The first such failure is announced, under the name of the
/// device that was lost.
pub proof fn lost_device_is_announced_and_tried_again(
    before: Supervisor,
    error: VoxError,
    middle: Supervisor,
    work: Seq<Upkeep>,
    after: Supervisor,
    rest: Seq<Upkeep>,
)
    requires
        before.vigil == Vigil::Build,
        before.last_err is None,
        before.handles(Report::Built(Err(error)), middle, work),
        middle.handles(Report::Silent, after, rest),
    ensures
        middle.vigil == Vigil::Wait(before.backoff),
        work.len() == 1,
        work[0] matches Upkeep::Emit(VoxEvent::DeviceLost { name, error: said }) && name
            == before.name && said@ == error.text(),
        after.vigil == Vigil::Build,
        after.name == before.name,
        after.reason == before.reason,
        rest.len() == 0,
{
}

/// A request to shut down ends the supervisor's work wherever it is waiting: while
/// it listens, among requests that are queued, and between two attempts. Nothing
/// else but the loss of all who could ask ends it.
pub proof fn shutdown_is_heard_wherever_it_waits(
    before: Supervisor,
    after: Supervisor,
    work: Seq<Upkeep>,
    messages: Vec<OutputControl>,
    ms: u64,
    i: int,
)
    ensures
        before.vigil == Vigil::Listen && before.handles(
            Report::Control(OutputControl::Shutdown),
            after,
            work,
        ) ==> after.vigil == Vigil::Done && work == seq![Upkeep::DropStream],
        before.vigil == Vigil::Wait(ms) && before.handles(
            Report::Control(OutputControl::Shutdown),
            after,
            work,
        ) ==> after.vigil == Vigil::Done,
        before.vigil == Vigil::Sweep && before.handles(Report::Swept(messages), after, work)
            && 0 <= i < messages@.len() && messages@[i] == OutputControl::Shutdown ==> after.vigil
            == Vigil::Done,
        before.vigil == Vigil::Sweep && before.handles(Report::Swept(messages), after, work) && (
        forall|k: int|
            0 <= k < messages@.len() ==> #[trigger] messages@[k] != OutputControl::Shutdown)
            ==> after.vigil == Vigil::Build && after.last_err is None && after.backoff == 50,
        before.vigil == Vigil::Wait(ms) && before.handles(Report::Silent, after, work)
            ==> after.vigil == Vigil::Build,
{
}

/// The waits double from fifty milliseconds on, up to three hundred.
pub proof fn waits_double_up_to_three_hundred(backoff: u64)
    requires
        50 <= backoff <= 300,
    ensures
        backoff <= 150 ==> next_backoff(backoff) == 2 * backoff,
        backoff > 150 ==> next_backoff(backoff) == 300,
        REBUILD_RETRY_MIN == 50,
{
}

/// A failure with another text than the last one announced is news, and one with
/// the same text is not.
pub proof fn other_failures_are_news(supervisor: Supervisor, error: VoxError, last: String)
    requires
        supervisor.last_err == Some(last),
    ensures
        last@ != error.text() ==> supervisor.is_news(error),
        last@ == error.text() ==> !supervisor.is_news(error),
{
}

/// A device is told by its own identity, and one without identity is no device
/// that could be looked for.
pub proof fn devices_are_told_by_identity(id: String, other: String)
    ensures
        is_device(Some(id), id@),
        id@ != other@ ==> !is_device(Some(other), id@),
        !is_device(None, id@),
{
}

} // verus!
