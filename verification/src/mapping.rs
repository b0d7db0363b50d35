//! Channel mapping between a decoded track and the output, and the writes of
//! mapped samples into the output ring.

use crate::ring::{capacity, free_slots, write_all};
use crate::ring::{inflow, room, vacant, written};
use crate::state::SharedState;
use crate::tap::least;
use rtrb::Producer;
use vstd::prelude::*;

verus! {

/// The bit pattern of a silent sample.
pub const SILENCE: u32 = 0;

/// The sample that output channel `out_c` plays in `frame` of an interleaved
/// input with `in_ch` channels: that channel's own, the only channel's where
/// the input is mono, else silence.
pub open spec fn mapped(samples: Seq<u32>, frame: int, out_c: int, in_ch: int) -> u32 {
    if out_c < in_ch {
        samples[frame * in_ch + out_c]
    } else if in_ch == 1 {
        samples[frame]
    } else {
        SILENCE
    }
}

/// The whole frames in an interleaved run of `len` samples: none where a frame
/// has no channels.
pub open spec fn frame_count(len: nat, in_ch: nat) -> nat {
    if in_ch == 0 {
        0
    } else {
        len / in_ch
    }
}

/// How many output samples `len` input samples become.
pub open spec fn mapped_len(len: nat, in_ch: nat, out_ch: nat) -> nat {
    frame_count(len, in_ch) * out_ch
}

/// Sample `idx` of the mapped output.
pub open spec fn mapped_at(samples: Seq<u32>, idx: int, in_ch: int, out_ch: int) -> u32 {
    mapped(samples, idx / out_ch, idx % out_ch, in_ch)
}

/// `out` is the mapped output from `start` on, each sample put through
/// `amplify`.
pub open spec fn is_mapped_run<F: Fn(u32) -> u32>(
    samples: Seq<u32>,
    in_ch: int,
    out_ch: int,
    amplify: F,
    start: int,
    out: Seq<u32>,
) -> bool {
    forall|i: int|
        0 <= i < out.len() ==> call_ensures(
            amplify,
            (mapped_at(samples, start + i, in_ch, out_ch),),
            #[trigger] out[i],
        )
}

/// Where a sample of the mapped output is found in the input.
proof fn lemma_mapped_index(len: nat, in_ch: nat, out_ch: nat, idx: int)
    requires
        0 <= idx < mapped_len(len, in_ch, out_ch),
    ensures
        in_ch > 0,
        out_ch > 0,
        0 <= idx / (out_ch as int) < frame_count(len, in_ch),
        0 <= idx % (out_ch as int) < out_ch,
        (idx / (out_ch as int)) * in_ch + in_ch <= len,
{
    let frames = frame_count(len, in_ch) as int;
    assert(frames > 0 && out_ch > 0) by (nonlinear_arith)
        requires
            0 <= idx < frames * out_ch,
            frames >= 0,
            out_ch >= 0,
    ;
    let frame = idx / (out_ch as int);
    assert(0 <= frame < frames) by (nonlinear_arith)
        requires
            0 <= idx < frames * out_ch,
            out_ch > 0,
            frame == idx / (out_ch as int),
    ;
    vstd::arithmetic::div_mod::lemma_fundamental_div_mod(len as int, in_ch as int);
    assert(frame * in_ch + in_ch <= len) by (nonlinear_arith)
        requires
            frame < frames,
            in_ch > 0,
            frames * in_ch <= len,
    ;
}

/// See [`mapped`].
pub fn get_mapped_sample(samples: &[u32], frame: usize, out_ch: usize, in_ch: usize) -> (sample: u32)
    requires
        out_ch < in_ch ==> frame * in_ch + out_ch < samples@.len(),
        in_ch <= out_ch && in_ch == 1 ==> frame < samples@.len(),
    ensures
        sample == mapped(samples@, frame as int, out_ch as int, in_ch as int),
{
    if out_ch < in_ch {
        assert(samples@.len() == samples.len());
        assert(0 <= frame * in_ch) by (nonlinear_arith)
            requires
                0 <= frame,
                0 <= in_ch,
        ;
        samples[frame * in_ch + out_ch]
    } else if in_ch == 1 {
        samples[frame]
    } else {
        SILENCE
    }
}

/// Renders `n` samples of the mapped output from `start` on.
fn mapped_run<F: Fn(u32) -> u32>(
    samples: &[u32],
    in_ch: usize,
    out_ch: usize,
    amplify: &F,
    start: usize,
    n: usize,
) -> (out: Vec<u32>)
    requires
        start + n <= mapped_len(samples@.len(), in_ch as nat, out_ch as nat) <= usize::MAX,
        forall|s: u32| #[trigger] call_requires(*amplify, (s,)),
    ensures
        out@.len() == n,
        is_mapped_run(samples@, in_ch as int, out_ch as int, *amplify, start as int, out@),
{
    let mut out: Vec<u32> = Vec::new();
    let mut i: usize = 0;
    while i < n
        invariant
            i <= n,
            start + n <= mapped_len(samples@.len(), in_ch as nat, out_ch as nat) <= usize::MAX,
            forall|s: u32| #[trigger] call_requires(*amplify, (s,)),
            out@.len() == i,
            is_mapped_run(samples@, in_ch as int, out_ch as int, *amplify, start as int, out@),
        decreases n - i,
    {
        let idx: usize = start + i;
        proof {
            lemma_mapped_index(samples@.len(), in_ch as nat, out_ch as nat, idx as int);
        }
        let frame: usize = idx / out_ch;
        proof {
            assert(frame <= frame * in_ch) by (nonlinear_arith)
                requires
                    0 <= frame,
                    in_ch > 0,
            ;
        }
        let sample: u32 = get_mapped_sample(samples, frame, idx % out_ch, in_ch);
        out.push(amplify(sample));
        i = i + 1;
    }
    out
}

/// The mapped output's length, computed.
fn total_output(len: usize, in_ch: usize, out_ch: usize) -> (total: usize)
    requires
        mapped_len(len as nat, in_ch as nat, out_ch as nat) <= usize::MAX,
    ensures
        total == mapped_len(len as nat, in_ch as nat, out_ch as nat),
{
    if in_ch == 0 {
        return 0;
    }
    let frames: usize = len / in_ch;
    frames * out_ch
}

/// See [`push_samples_mapped_count`].
pub(crate) fn push_mapped<F: Fn(u32) -> u32>(
    producer: &mut Producer<u32>,
    samples: &[u32],
    in_ch: usize,
    out_ch: usize,
    amplify: &F,
) -> (count: usize)
    requires
        mapped_len(samples@.len(), in_ch as nat, out_ch as nat) <= usize::MAX,
        forall|s: u32| #[trigger] call_requires(*amplify, (s,)),
    ensures
        ({
            let total = mapped_len(samples@.len(), in_ch as nat, out_ch as nat);
            let pushed = written(*final(producer)).skip(written(*old(producer)).len() as int);
            &&& written(*final(producer)) == written(*old(producer)) + pushed
            &&& pushed.len() == count
            &&& is_mapped_run(samples@, in_ch as int, out_ch as int, *amplify, 0, pushed)
            &&& least(total, vacant(*old(producer))) <= count <= least(total, room(*old(producer)))
            &&& count == total || vacant(*final(producer)) == 0
            &&& vacant(*old(producer)) <= vacant(*final(producer)) + count
        }),
        written(*final(producer)).is_prefix_of(inflow(*final(producer))),
        room(*final(producer)) == room(*old(producer)),
        inflow(*final(producer)) == inflow(*old(producer)),
{
    let total_out: usize = total_output(samples.len(), in_ch, out_ch);
    let available: usize = free_slots(producer);
    if available == 0 {
        assert(written(*producer).skip(written(*old(producer)).len() as int) =~= Seq::empty());
        assert(written(*producer) =~= written(*old(producer)) + Seq::<u32>::empty());
        return 0;
    }
    let to_write: usize = if total_out < available {
        total_out
    } else {
        available
    };
    let out = mapped_run(samples, in_ch, out_ch, amplify, 0, to_write);
    write_all(producer, &out);
    assert(written(*producer).skip(written(*old(producer)).len() as int) =~= out@);
    to_write
}

/// Writes the mapped and amplified form of `samples` as far as it fits, dropping
/// the rest, and returns how many output samples were written. Input without
/// channels has no output.
pub fn push_samples_mapped_count<F: Fn(u32) -> u32>(
    producer: &mut Producer<u32>,
    samples: &[u32],
    in_ch: usize,
    out_ch: usize,
    amplify: F,
) -> (count: usize)
    requires
        mapped_len(samples@.len(), in_ch as nat, out_ch as nat) <= usize::MAX,
        forall|s: u32| #[trigger] call_requires(amplify, (s,)),
    ensures
        ({
            let total = mapped_len(samples@.len(), in_ch as nat, out_ch as nat);
            let pushed = written(*final(producer)).skip(written(*old(producer)).len() as int);
            &&& written(*final(producer)) == written(*old(producer)) + pushed
            &&& pushed.len() == count
            &&& is_mapped_run(samples@, in_ch as int, out_ch as int, amplify, 0, pushed)
            &&& least(total, vacant(*old(producer))) <= count <= least(total, room(*old(producer)))
            &&& count == total || vacant(*final(producer)) == 0
            &&& vacant(*old(producer)) <= vacant(*final(producer)) + count
        }),
        written(*final(producer)).is_prefix_of(inflow(*final(producer))),
        room(*final(producer)) == room(*old(producer)),
        inflow(*final(producer)) == inflow(*old(producer)),
{
    push_mapped(producer, samples, in_ch, out_ch, &amplify)
}

/// What one turn of a blocking write achieved.
#[derive(Clone, Copy, Debug, PartialEq, Eq, Structural)]
pub enum PushStep {
    /// Everything is in the ring.
    Done,
    /// Nobody drains the ring (shutdown or rebuild); give up.
    Halted,
    /// The ring is full; wait and try again.
    Full,
    /// The ring now holds the output up to this sample.
    Advanced(usize),
}

/// One turn of the loop that writes all of the mapped and amplified form of
/// `samples`, `done` output samples being in the ring already. Input without
/// channels has no output.
pub fn push_samples_mapped<F: Fn(u32) -> u32>(
    producer: &mut Producer<u32>,
    state: &SharedState,
    samples: &[u32],
    in_ch: usize,
    out_ch: usize,
    amplify: F,
    done: usize,
) -> (step: PushStep)
    requires
        done <= mapped_len(samples@.len(), in_ch as nat, out_ch as nat) <= usize::MAX,
        forall|s: u32| #[trigger] call_requires(amplify, (s,)),
    ensures
        ({
            let total = mapped_len(samples@.len(), in_ch as nat, out_ch as nat);
            let pushed = written(*final(producer)).skip(written(*old(producer)).len() as int);
            let halted = state.shutdown || state.rebuilding;
            &&& written(*final(producer)) == written(*old(producer)) + pushed
            &&& step == PushStep::Done <==> done == total
            &&& step == PushStep::Halted <==> done < total && halted
            &&& step is Full || step is Advanced <==> done < total && !halted
            &&& step !is Advanced ==> pushed.len() == 0
            &&& step is Full ==> vacant(*old(producer)) == 0 && vacant(*final(producer)) == 0
            &&& step matches PushStep::Advanced(reached) ==> {
                &&& done < reached <= total
                &&& pushed.len() == reached - done
                &&& is_mapped_run(
                    samples@,
                    in_ch as int,
                    out_ch as int,
                    amplify,
                    done as int,
                    pushed,
                )
                &&& pushed.len() >= least((total - done) as nat, vacant(*old(producer)))
                &&& reached == total || vacant(*final(producer)) == 0
            }
        }),
        step is Done || step is Halted ==> *final(producer) == *old(producer),
        step is Full || step is Advanced ==> written(*final(producer)).is_prefix_of(
            inflow(*final(producer)),
        ),
        room(*final(producer)) == room(*old(producer)),
        inflow(*final(producer)) == inflow(*old(producer)),
{
    let total_out: usize = total_output(samples.len(), in_ch, out_ch);
    let ghost before = written(*producer);
    assert(before.skip(before.len() as int) =~= Seq::empty());
    assert(before =~= before + Seq::<u32>::empty());
    if done == total_out {
        return PushStep::Done;
    }
    if state.is_shutdown() || state.is_rebuilding() {
        return PushStep::Halted;
    }
    let available: usize = free_slots(producer);
    if available == 0 {
        return PushStep::Full;
    }
    let left: usize = total_out - done;
    let n: usize = if left < available {
        left
    } else {
        available
    };
    let out = mapped_run(samples, in_ch, out_ch, &amplify, done, n);
    write_all(producer, &out);
    assert(written(*producer).skip(before.len() as int) =~= out@);
    PushStep::Advanced(done + n)
}

/// Whether the ring holds no audio from before a seek: every slot is free.
pub fn ring_is_drained(producer: &mut Producer<u32>) -> (drained: bool)
    ensures
        drained == (vacant(*final(producer)) == room(*final(producer))),
        vacant(*old(producer)) == room(*old(producer)) ==> drained,
        vacant(*old(producer)) <= vacant(*final(producer)),
        written(*final(producer)) == written(*old(producer)),
        written(*final(producer)).is_prefix_of(inflow(*final(producer))),
        room(*final(producer)) == room(*old(producer)),
        inflow(*final(producer)) == inflow(*old(producer)),
{
    let slots: usize = free_slots(producer);
    slots == capacity(producer)
}

/// Sample `out_c` of output frame `frame` is found where interleaving puts it.
proof fn lemma_interleaved(frame: int, out_c: int, out_ch: int)
    requires
        0 <= out_c < out_ch,
    ensures
        (frame * out_ch + out_c) / out_ch == frame,
        (frame * out_ch + out_c) % out_ch == out_c,
{
    vstd::arithmetic::div_mod::lemma_fundamental_div_mod_converse(
        frame * out_ch + out_c,
        out_ch,
        frame,
        out_c,
    );
}

/// Each frame of the output is made of the same frame of the input: a channel that
/// the input has comes out as it is, mono is heard on every channel, and the
/// channels that any other input lacks are silent. Channels that the output lacks
/// are not heard.
pub proof fn channels_keep_their_frame_and_place(
    samples: Seq<u32>,
    frame: int,
    out_c: int,
    in_ch: int,
    out_ch: int,
)
    requires
        0 <= out_c < out_ch,
        0 <= frame,
        0 < in_ch,
    ensures
        out_c < in_ch ==> mapped_at(samples, frame * out_ch + out_c, in_ch, out_ch)
            == samples[frame * in_ch + out_c],
        in_ch == 1 ==> mapped_at(samples, frame * out_ch + out_c, in_ch, out_ch) == samples[frame],
        1 < in_ch <= out_c ==> mapped_at(samples, frame * out_ch + out_c, in_ch, out_ch) == 0,
{
    lemma_interleaved(frame, out_c, out_ch);
    assert(frame * 1 == frame);
}

/// The output has as many frames as the input has whole ones, each with one sample
/// for every output channel.
pub proof fn every_whole_frame_is_mapped(frames: nat, rest: nat, in_ch: nat, out_ch: nat)
    requires
        rest < in_ch,
    ensures
        mapped_len(frames * in_ch + rest, in_ch, out_ch) == frames * out_ch,
        mapped_len(frames, 0, out_ch) == 0,
{
    vstd::arithmetic::div_mod::lemma_fundamental_div_mod_converse(
        (frames * in_ch + rest) as int,
        in_ch as int,
        frames as int,
        rest as int,
    );
    assert(0 * out_ch == 0) by (nonlinear_arith);
}

/// Where input and output have the same channels, and nothing is amplified, what
/// comes out is what went in.
pub proof fn same_channels_pass_unchanged<F: Fn(u32) -> u32>(
    samples: Seq<u32>,
    channels: int,
    amplify: F,
    out: Seq<u32>,
)
    requires
        channels > 0,
        out.len() <= samples.len(),
        is_mapped_run(samples, channels, channels, amplify, 0, out),
        forall|s: u32, t: u32| #[trigger] call_ensures(amplify, (s,), t) ==> t == s,
    ensures
        out == samples.take(out.len() as int),
{
    assert forall|i: int| 0 <= i < out.len() implies out[i] == samples[i] by {
        let frame = i / channels;
        let c = i % channels;
        vstd::arithmetic::div_mod::lemma_fundamental_div_mod(i, channels);
        assert(frame * channels == channels * frame) by (nonlinear_arith);
        assert(call_ensures(amplify, (mapped_at(samples, 0 + i, channels, channels),), out[i]));
    }
    assert(out =~= samples.take(out.len() as int));
}

/// Each sample that is written is an input sample of the same frame, put through
/// the amplifier once: the run goes on where it starts.
pub proof fn written_samples_are_the_inputs_own<F: Fn(u32) -> u32>(
    samples: Seq<u32>,
    in_ch: int,
    out_ch: int,
    amplify: F,
    start: int,
    out: Seq<u32>,
    frame: int,
    out_c: int,
)
    requires
        is_mapped_run(samples, in_ch, out_ch, amplify, start, out),
        0 <= out_c < out_ch,
        0 <= frame,
        0 < in_ch,
        start <= frame * out_ch + out_c < start + out.len(),
    ensures
        ({
            let at = frame * out_ch + out_c - start;
            &&& out_c < in_ch ==> call_ensures(
                amplify,
                (samples[frame * in_ch + out_c],),
                out[at],
            )
            &&& in_ch == 1 ==> call_ensures(amplify, (samples[frame],), out[at])
            &&& 1 < in_ch <= out_c ==> call_ensures(amplify, (0u32,), out[at])
        }),
{
    let at = frame * out_ch + out_c - start;
    channels_keep_their_frame_and_place(samples, frame, out_c, in_ch, out_ch);
    assert(call_ensures(amplify, (mapped_at(samples, start + at, in_ch, out_ch),), out[at]));
}

/// Written in parts, the output is the same as written at once: a part that starts
/// where the one before it ended goes on without a sample lost or repeated.
pub proof fn parts_join_into_one_run<F: Fn(u32) -> u32>(
    samples: Seq<u32>,
    in_ch: int,
    out_ch: int,
    amplify: F,
    start: int,
    first: Seq<u32>,
    second: Seq<u32>,
)
    requires
        is_mapped_run(samples, in_ch, out_ch, amplify, start, first),
        is_mapped_run(samples, in_ch, out_ch, amplify, start + first.len(), second),
    ensures
        is_mapped_run(samples, in_ch, out_ch, amplify, start, first + second),
{
    let both = first + second;
    assert forall|i: int| 0 <= i < both.len() implies call_ensures(
        amplify,
        (mapped_at(samples, start + i, in_ch, out_ch),),
        #[trigger] both[i],
    ) by {
        if i < first.len() {
            assert(both[i] == first[i]);
        } else {
            assert(both[i] == second[i - first.len()]);
        }
    }
}

} // verus!
