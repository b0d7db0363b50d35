//! The worker's way to the output: input that waits for the resampler, and the
//! ring the audio callback plays from.

use crate::mapping::{is_mapped_run, mapped_len, push_mapped, ring_is_drained};
use crate::resampler::VoxResampler;
use crate::ring::{inflow, room, vacant, written};
use crate::state::SharedState;
use crate::tap::least;
use rtrb::Producer;
use vstd::prelude::*;

verus! {

/// Samples made room for up front.
pub const PENDING_CAPACITY: usize = 8192;

/// The worker's end of the output path.
pub struct Feed {
    pub producer: Producer<u32>,
    /// Decoded input that makes no whole resampler chunk yet.
    pub pending: Vec<u32>,
}

/// The output samples that `blocks` amount to.
pub open spec fn output_len(blocks: Seq<Vec<u32>>, in_ch: nat, out_ch: nat) -> nat
    decreases blocks.len(),
{
    if blocks.len() == 0 {
        0
    } else {
        output_len(blocks.drop_last(), in_ch, out_ch) + mapped_len(
            blocks.last()@.len(),
            in_ch,
            out_ch,
        )
    }
}

/// `added` is made of the fronts of the mapped and amplified `blocks`, in order.
/// Where `free` slots are known to be free at first, no block is cut before they
/// are used up.
pub open spec fn is_best_effort<F: Fn(u32) -> u32>(
    blocks: Seq<Vec<u32>>,
    in_ch: int,
    out_ch: int,
    amplify: F,
    free: nat,
    added: Seq<u32>,
) -> bool
    decreases blocks.len(),
{
    if blocks.len() == 0 {
        added.len() == 0
    } else {
        &&& added.len() >= least(output_len(blocks, in_ch as nat, out_ch as nat), free)
        &&& exists|cut: int|
            #![trigger added.take(cut)]
            0 <= cut <= added.len() && is_best_effort(
                blocks.drop_last(),
                in_ch,
                out_ch,
                amplify,
                free,
                added.take(cut),
            ) && is_mapped_run(blocks.last()@, in_ch, out_ch, amplify, 0, added.skip(cut))
                && added.len() - cut <= mapped_len(
                blocks.last()@.len(),
                in_ch as nat,
                out_ch as nat,
            )
    }
}

/// Each block fits into memory once it is mapped.
pub open spec fn mappable(samples: nat, in_ch: usize, out_ch: usize) -> bool {
    mapped_len(samples, in_ch as nat, out_ch as nat) <= usize::MAX
}

/// Writes as much as fits of each of `blocks`, and counts it. The count stops at
/// the largest `usize`.
fn push_blocks<F: Fn(u32) -> u32>(
    producer: &mut Producer<u32>,
    blocks: &Vec<Vec<u32>>,
    in_ch: usize,
    out_ch: usize,
    amplify: &F,
) -> (count: usize)
    requires
        forall|i: int|
            0 <= i < blocks@.len() ==> mappable((#[trigger] blocks@[i])@.len(), in_ch, out_ch),
        forall|s: u32| #[trigger] call_requires(*amplify, (s,)),
    ensures
        ({
            let added = written(*final(producer)).skip(written(*old(producer)).len() as int);
            &&& written(*final(producer)) == written(*old(producer)) + added
            &&& is_best_effort(
                blocks@,
                in_ch as int,
                out_ch as int,
                *amplify,
                vacant(*old(producer)),
                added,
            )
            &&& count == least(added.len(), usize::MAX as nat)
        }),
        blocks@.len() == 0 ==> *final(producer) == *old(producer),
        blocks@.len() > 0 ==> written(*final(producer)).is_prefix_of(inflow(*final(producer))),
        room(*final(producer)) == room(*old(producer)),
        inflow(*final(producer)) == inflow(*old(producer)),
{
    let ghost before = written(*producer);
    let mut count: usize = 0;
    let mut i: usize = 0;
    assert(before.skip(before.len() as int) =~= Seq::empty());
    assert(before =~= before + Seq::<u32>::empty());
    assert(blocks@.take(0) =~= Seq::empty());
    while i < blocks.len()
        invariant
            i <= blocks@.len(),
            before == written(*old(producer)),
            forall|k: int|
                0 <= k < blocks@.len() ==> mappable((#[trigger] blocks@[k])@.len(), in_ch, out_ch),
            forall|s: u32| #[trigger] call_requires(*amplify, (s,)),
            ({
                let added = written(*producer).skip(before.len() as int);
                &&& written(*producer) == before + added
                &&& is_best_effort(
                    blocks@.take(i as int),
                    in_ch as int,
                    out_ch as int,
                    *amplify,
                    vacant(*old(producer)),
                    added,
                )
                &&& count == least(added.len(), usize::MAX as nat)
                &&& added.len() >= least(
                    output_len(blocks@.take(i as int), in_ch as nat, out_ch as nat),
                    vacant(*old(producer)),
                )
                &&& vacant(*old(producer)) <= vacant(*producer) + added.len()
            }),
            i == 0 ==> *producer == *old(producer),
            i > 0 ==> written(*producer).is_prefix_of(inflow(*producer)),
            room(*producer) == room(*old(producer)),
            inflow(*producer) == inflow(*old(producer)),
        decreases blocks@.len() - i,
    {
        let ghost so_far = written(*producer);
        let ghost added = so_far.skip(before.len() as int);
        let n: usize = push_mapped(producer, blocks[i].as_slice(), in_ch, out_ch, amplify);
        proof {
            let more = written(*producer).skip(so_far.len() as int);
            let all = written(*producer).skip(before.len() as int);
            assert(all =~= added + more);
            assert(all.take(added.len() as int) =~= added);
            assert(all.skip(added.len() as int) =~= more);
            let upto = blocks@.take(i + 1);
            assert(upto.drop_last() =~= blocks@.take(i as int));
            assert(upto.last() == blocks@[i as int]);
            assert(is_mapped_run(
                upto.last()@,
                in_ch as int,
                out_ch as int,
                *amplify,
                0,
                all.skip(added.len() as int),
            ));
            assert(0 <= added.len() as int <= all.len());
            assert(is_best_effort(
                upto,
                in_ch as int,
                out_ch as int,
                *amplify,
                vacant(*old(producer)),
                all,
            ));
        }
        count = match count.checked_add(n) {
            Some(sum) => sum,
            None => usize::MAX,
        };
        i = i + 1;
    }
    assert(blocks@.take(i as int) =~= blocks@);
    count
}

impl Feed {
    /// Nothing pending, on the way to `producer`.
    pub fn new(producer: Producer<u32>) -> (feed: Self)
        ensures
            feed.producer == producer,
            feed.pending@ == Seq::<u32>::empty(),
    {
        Feed { producer, pending: Vec::with_capacity(PENDING_CAPACITY) }
    }

    /// Goes on with a new ring: what was pending for the old one is dropped.
    pub fn adopt(&mut self, producer: Producer<u32>)
        ensures
            final(self).producer == producer,
            final(self).pending@ == Seq::<u32>::empty(),
    {
        self.producer = producer;
        self.pending.clear();
    }

    /// Drops what is pending.
    pub fn clear(&mut self)
        ensures
            final(self).producer == old(self).producer,
            final(self).pending@ == Seq::<u32>::empty(),
    {
        self.pending.clear();
    }

    /// Whether audio from before a seek is still in the ring, so that its drain
    /// has to be waited for.
    pub fn must_drain(&mut self) -> (stale: bool)
        ensures
            stale == (vacant(final(self).producer) != room(final(self).producer)),
            vacant(old(self).producer) == room(old(self).producer) ==> !stale,
            written(final(self).producer) == written(old(self).producer),
            written(final(self).producer).is_prefix_of(inflow(final(self).producer)),
            room(final(self).producer) == room(old(self).producer),
            inflow(final(self).producer) == inflow(old(self).producer),
            final(self).pending == old(self).pending,
    {
        !ring_is_drained(&mut self.producer)
    }

    /// Takes in a packet. It is handed back as it is where nothing is resampled;
    /// else it joins what waits to be cut into chunks by
    /// [`VoxResampler::process`].
    pub fn process_samples<R>(
        &mut self,
        samples: Vec<u32>,
        resampler: &Option<VoxResampler<R>>,
    ) -> (direct: Option<Vec<u32>>)
        ensures
            match resampler {
                None => direct == Some(samples) && final(self).pending == old(self).pending,
                Some(_) => direct is None && final(self).pending@ == old(self).pending@
                    + samples@,
            },
            final(self).producer == old(self).producer,
    {
        match resampler {
            None => Some(samples),
            Some(_) => {
                let mut samples = samples;
                self.pending.append(&mut samples);
                None
            },
        }
    }

    /// Writes as much of a packet as fits right now, dropping the rest, and
    /// counts the output samples written. Used to fill the ring before playback
    /// starts.
    pub fn push_now<F: Fn(u32) -> u32>(
        &mut self,
        blocks: &Vec<Vec<u32>>,
        in_ch: usize,
        out_ch: usize,
        amplify: F,
    ) -> (count: usize)
        requires
            forall|i: int|
                0 <= i < blocks@.len() ==> mappable(
                    (#[trigger] blocks@[i])@.len(),
                    in_ch,
                    out_ch,
                ),
            forall|s: u32| #[trigger] call_requires(amplify, (s,)),
        ensures
            ({
                let before = written(old(self).producer);
                let added = written(final(self).producer).skip(before.len() as int);
                &&& written(final(self).producer) == before + added
                &&& is_best_effort(
                    blocks@,
                    in_ch as int,
                    out_ch as int,
                    amplify,
                    vacant(old(self).producer),
                    added,
                )
                &&& count == least(added.len(), usize::MAX as nat)
            }),
            blocks@.len() == 0 ==> final(self).producer == old(self).producer,
            blocks@.len() > 0 ==> written(final(self).producer).is_prefix_of(
                inflow(final(self).producer),
            ),
            room(final(self).producer) == room(old(self).producer),
            inflow(final(self).producer) == inflow(old(self).producer),
            final(self).pending == old(self).pending,
    {
        push_blocks(&mut self.producer, blocks, in_ch, out_ch, &amplify)
    }
}

/// Whether to keep waiting for the audio callback to drain the ring for a seek:
/// until it has, the engine goes down, or the wait has taken too long.
pub fn wait_for_seek_drain(state: &SharedState, expired: bool) -> (wait: bool)
    ensures
        wait == (state.seek_ack != state.seek_epoch && !state.shutdown && !expired),
{
    !state.seek_acked() && !state.is_shutdown() && !expired
}

/// No more is written than the blocks amount to.
proof fn lemma_at_most_all<F: Fn(u32) -> u32>(
    blocks: Seq<Vec<u32>>,
    in_ch: int,
    out_ch: int,
    amplify: F,
    free: nat,
    added: Seq<u32>,
)
    requires
        is_best_effort(blocks, in_ch, out_ch, amplify, free, added),
    ensures
        added.len() <= output_len(blocks, in_ch as nat, out_ch as nat),
    decreases blocks.len(),
{
    if blocks.len() > 0 {
        let cut = choose|cut: int|
            #![trigger added.take(cut)]
            0 <= cut <= added.len() && is_best_effort(
                blocks.drop_last(),
                in_ch,
                out_ch,
                amplify,
                free,
                added.take(cut),
            ) && is_mapped_run(blocks.last()@, in_ch, out_ch, amplify, 0, added.skip(cut))
                && added.len() - cut <= mapped_len(
                blocks.last()@.len(),
                in_ch as nat,
                out_ch as nat,
            );
        lemma_at_most_all(blocks.drop_last(), in_ch, out_ch, amplify, free, added.take(cut));
    }
}

/// Where there is room for all of a packet, all of it is written: the blocks one
/// after the other, each from its first sample to its last.
pub proof fn packet_that_fits_is_written_whole<F: Fn(u32) -> u32>(
    blocks: Seq<Vec<u32>>,
    in_ch: int,
    out_ch: int,
    amplify: F,
    free: nat,
    added: Seq<u32>,
)
    requires
        is_best_effort(blocks, in_ch, out_ch, amplify, free, added),
        output_len(blocks, in_ch as nat, out_ch as nat) <= free,
        blocks.len() > 0,
    ensures
        ({
            let before = output_len(blocks.drop_last(), in_ch as nat, out_ch as nat) as int;
            let last = mapped_len(blocks.last()@.len(), in_ch as nat, out_ch as nat);
            &&& added.len() == before + last
            &&& is_best_effort(
                blocks.drop_last(),
                in_ch,
                out_ch,
                amplify,
                free,
                added.take(before),
            )
            &&& is_mapped_run(blocks.last()@, in_ch, out_ch, amplify, 0, added.skip(before))
        }),
{
    let cut = choose|cut: int|
        #![trigger added.take(cut)]
        0 <= cut <= added.len() && is_best_effort(
            blocks.drop_last(),
            in_ch,
            out_ch,
            amplify,
            free,
            added.take(cut),
        ) && is_mapped_run(blocks.last()@, in_ch, out_ch, amplify, 0, added.skip(cut))
            && added.len() - cut <= mapped_len(
            blocks.last()@.len(),
            in_ch as nat,
            out_ch as nat,
        );
    lemma_at_most_all(blocks, in_ch, out_ch, amplify, free, added);
    lemma_at_most_all(blocks.drop_last(), in_ch, out_ch, amplify, free, added.take(cut));
    let before = output_len(blocks.drop_last(), in_ch as nat, out_ch as nat) as int;
    assert(cut == before);
}

} // verus!
