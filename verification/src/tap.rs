use crate::channel::{arrived_taps, heard_taps};
use crate::ring::{free_slots, new_ring, take_samples, waiting_samples};
use crate::ring::{depth, inflow, outflow, ready, room, taken, vacant, written};
use crate::state::SharedState;
use crossbeam_channel::Receiver;
use rtrb::{Consumer, Producer};
use vstd::prelude::*;

verus! {

/// The last `n` samples of `samples`.
pub open spec fn newest(samples: Seq<u32>, n: nat) -> Seq<u32>
    recommends
        n <= samples.len(),
{
    samples.skip(samples.len() - n)
}

/// The smaller of two counts.
pub open spec fn least(a: nat, b: nat) -> nat {
    if a <= b {
        a
    } else {
        b
    }
}

/// The audio callback's end of the visualization tap.
pub struct TapWriter {
    pub producer: Producer<u32>,
}

/// The visualizer's end of the tap.
pub struct TapReader {
    pub consumer: Consumer<u32>,
    pub capacity: usize,
}

/// Builds an empty tap that holds `capacity` samples.
pub fn new_tap(capacity: usize) -> (tap: (TapWriter, TapReader))
    requires
        capacity * 4 <= isize::MAX,
    ensures
        written(tap.0.producer) == Seq::<u32>::empty(),
        vacant(tap.0.producer) == capacity,
        room(tap.0.producer) == capacity,
        taken(tap.1.consumer) == Seq::<u32>::empty(),
        ready(tap.1.consumer) == 0,
        depth(tap.1.consumer) == capacity,
        inflow(tap.0.producer) == outflow(tap.1.consumer),
        tap.1.capacity == capacity,
{
    let (producer, consumer) = new_ring(capacity);
    (TapWriter { producer }, TapReader { consumer, capacity })
}

/// A copy of `samples` from `from` on.
fn tail_of(samples: &[u32], from: usize) -> (tail: Vec<u32>)
    requires
        from <= samples@.len(),
    ensures
        tail@ == samples@.skip(from as int),
{
    let mut tail: Vec<u32> = Vec::new();
    let mut i: usize = from;
    while i < samples.len()
        invariant
            from <= i <= samples@.len(),
            tail@ == samples@.subrange(from as int, i as int),
        decreases samples@.len() - i,
    {
        tail.push(samples[i]);
        i = i + 1;
    }
    assert(tail@ =~= samples@.skip(from as int));
    tail
}

impl TapWriter {
    /// Offers `samples` to the tap without ever waiting for the reader: the
    /// newest ones that fit are written, and where some did not, the ring has
    /// no slot left.
    pub fn push(&mut self, samples: &[u32])
        ensures
            ({
                let before = written(old(self).producer);
                let after = written(final(self).producer);
                let n = (after.len() - before.len()) as nat;
                &&& before.len() <= after.len()
                &&& n <= samples@.len()
                &&& after == before + newest(samples@, n)
                &&& least(samples@.len(), vacant(old(self).producer)) <= n <= room(
                    old(self).producer,
                )
                &&& n == samples@.len() || vacant(final(self).producer) == 0
            }),
            room(final(self).producer) == room(old(self).producer),
            inflow(final(self).producer) == inflow(old(self).producer),
            written(final(self).producer).is_prefix_of(inflow(final(self).producer)),
    {
        let available: usize = free_slots(&mut self.producer);
        if available == 0 {
            assert(written(self.producer) =~= written(old(self).producer) + newest(samples@, 0));
            return;
        }
        let to_write: usize = if samples.len() < available {
            samples.len()
        } else {
            available
        };
        let skip: usize = samples.len() - to_write;
        let tail = tail_of(samples, skip);
        crate::ring::write_all(&mut self.producer, &tail);
    }
}

/// What reading the latest `amount` samples does: all that was waiting leaves
/// `before`, and `out` is the newest part of it, at most `amount` samples and
/// never more than the tap holds.
pub open spec fn reads_latest(
    before: TapReader,
    after: TapReader,
    amount: nat,
    out: Seq<u32>,
) -> bool {
    let gone = taken(after.consumer).skip(taken(before.consumer).len() as int);
    let limit = least(amount, before.capacity as nat);
    &&& taken(after.consumer) == taken(before.consumer) + gone
    &&& gone.len() >= ready(before.consumer)
    &&& out.len() == least(limit, gone.len())
    &&& out == newest(gone, out.len())
    &&& after.capacity == before.capacity
    &&& depth(after.consumer) == depth(before.consumer)
    &&& outflow(after.consumer) == outflow(before.consumer)
    &&& taken(after.consumer).is_prefix_of(outflow(after.consumer))
}

impl TapReader {
    /// Replaces `out` by the most recent samples, at most `amount` of them and
    /// never more than the tap holds. All samples that were waiting leave the
    /// ring; those older than what is returned are dropped.
    pub fn fill_latest(&mut self, amount: usize, out: &mut Vec<u32>)
        ensures
            reads_latest(*old(self), *final(self), amount as nat, final(out)@),
    {
        out.clear();
        let output_len: usize = if amount < self.capacity {
            amount
        } else {
            self.capacity
        };
        let ghost before = taken(self.consumer);
        let available: usize = waiting_samples(&mut self.consumer);
        if available == 0 {
            assert(before =~= before + before.skip(before.len() as int));
            assert(out@ =~= newest(before.skip(before.len() as int), 0));
            return;
        }
        let ghost mut dropped: Seq<u32> = Seq::empty();
        if available > output_len {
            let skip: usize = available - output_len;
            let old_samples = take_samples(&mut self.consumer, skip);
            proof {
                dropped = old_samples->0@;
            }
        }
        assert(taken(self.consumer) =~= before + dropped);
        let waiting: usize = waiting_samples(&mut self.consumer);
        let to_read: usize = if waiting < output_len {
            waiting
        } else {
            output_len
        };
        if to_read == 0 {
            let ghost gone = taken(self.consumer).skip(before.len() as int);
            assert(gone =~= dropped);
            assert(out@ =~= newest(gone, 0));
            return;
        }
        if let Some(samples) = take_samples(&mut self.consumer, to_read) {
            *out = samples;
        }
        let ghost gone = taken(self.consumer).skip(before.len() as int);
        assert(taken(self.consumer) =~= before + (dropped + out@));
        assert(gone =~= dropped + out@);
        assert(out@ =~= newest(gone, out@.len()));
    }
}

/// A handle to the post-resample output samples, for visualization.
///
/// Poll [`TapHandle::latest`] for the most recent samples.
pub struct TapHandle {
    pub tap: TapReader,
    pub swap: Receiver<TapReader>,
    pub buf: Vec<u32>,
}

impl TapHandle {
    /// Reads from `tap` until a newer one arrives on `swap`.
    pub fn new(tap: TapReader, swap: Receiver<TapReader>) -> (handle: Self)
        ensures
            handle.tap == tap,
            handle.swap == swap,
            handle.buf@ == Seq::<u32>::empty(),
    {
        TapHandle { tap, swap, buf: Vec::new() }
    }

    /// Returns up to `amount` of the most recent interleaved output samples,
    /// from the newest tap that has arrived.
    ///
    /// Oldest samples are dropped first when the tap overflows. The result is
    /// valid until the next call.
    pub fn latest(&mut self, amount: usize) -> (samples: &Vec<u32>)
        ensures
            heard_taps(old(self).swap).is_prefix_of(heard_taps(final(self).swap)),
            reads_latest(
                newest_tap(
                    old(self).tap,
                    heard_taps(final(self).swap).skip(heard_taps(old(self).swap).len() as int),
                ),
                final(self).tap,
                amount as nat,
                samples@,
            ),
            samples@ == final(self).buf@,
    {
        let ghost before = heard_taps(self.swap);
        let arrived: Vec<TapReader> = arrived_taps(&mut self.swap);
        assert(heard_taps(self.swap).skip(before.len() as int) =~= arrived@);
        self.latest_of(arrived, amount)
    }

    /// Like [`TapHandle::latest`], given the taps that have arrived since the
    /// last call, in the order sent.
    pub fn latest_of(&mut self, arrived: Vec<TapReader>, amount: usize) -> (samples: &Vec<u32>)
        ensures
            reads_latest(
                newest_tap(old(self).tap, arrived@),
                final(self).tap,
                amount as nat,
                samples@,
            ),
            final(self).swap == old(self).swap,
            samples@ == final(self).buf@,
    {
        let mut arrived = arrived;
        if let Some(tap) = arrived.pop() {
            self.tap = tap;
        }
        self.tap.fill_latest(amount, &mut self.buf);
        &self.buf
    }

    /// Live output sample rate.
    pub fn sample_rate(&self, state: &SharedState) -> (rate: u32)
        ensures
            rate == state.output_rate,
    {
        state.output_rate()
    }

    /// Live output channel count.
    pub fn channels(&self, state: &SharedState) -> (channels: usize)
        ensures
            channels == state.output_channels,
    {
        state.output_channels()
    }
}

/// The tap to read once `arrived` have come in: the last of them, or still
/// `current`.
pub open spec fn newest_tap(current: TapReader, arrived: Seq<TapReader>) -> TapReader {
    if arrived.len() == 0 {
        current
    } else {
        arrived.last()
    }
}

/// Samples leave a tap in the order they were written, none lost in between and
/// none made up: what the reader has taken is the beginning of what the writer
/// has written.
pub proof fn tap_preserves_order(writer: TapWriter, reader: TapReader)
    requires
        inflow(writer.producer) == outflow(reader.consumer),
        written(writer.producer).is_prefix_of(inflow(writer.producer)),
        taken(reader.consumer).is_prefix_of(outflow(reader.consumer)),
        taken(reader.consumer).len() <= written(writer.producer).len(),
    ensures
        taken(reader.consumer).is_prefix_of(written(writer.producer)),
{
}

/// A reader that has caught up with the writer returned the newest samples
/// written.
pub proof fn tap_returns_newest_written(
    writer: TapWriter,
    before: TapReader,
    after: TapReader,
    amount: nat,
    out: Seq<u32>,
)
    requires
        inflow(writer.producer) == outflow(before.consumer),
        written(writer.producer).is_prefix_of(inflow(writer.producer)),
        reads_latest(before, after, amount, out),
        taken(after.consumer).len() == written(writer.producer).len(),
    ensures
        out == newest(written(writer.producer), out.len()),
{
    tap_preserves_order(writer, after);
    assert(taken(after.consumer) =~= written(writer.producer));
    assert(out =~= newest(written(writer.producer), out.len()));
}

/// What is read from a tap is the end of what leaves it: as many samples as were
/// asked for, but no more than the tap holds or than there were, in the order they
/// were written.
pub proof fn tap_reads_the_end_of_what_was_waiting(
    before: TapReader,
    after: TapReader,
    amount: nat,
    out: Seq<u32>,
    i: int,
)
    requires
        reads_latest(before, after, amount, out),
    ensures
        ({
            let all = taken(after.consumer);
            let had = taken(before.consumer).len();
            &&& out.len() <= amount
            &&& out.len() <= before.capacity
            &&& had + out.len() <= all.len()
            &&& out.len() == amount || out.len() == before.capacity || had + out.len() == all.len()
            &&& had + ready(before.consumer) <= all.len()
            &&& 0 <= i < out.len() ==> out[i] == all[all.len() - out.len() + i]
        }),
{
}

/// The newest samples are those at the end, in the order they stand.
pub proof fn newest_are_those_at_the_end(samples: Seq<u32>, n: nat, i: int)
    requires
        n <= samples.len(),
        0 <= i < n,
    ensures
        newest(samples, n).len() == n,
        newest(samples, n)[i] == samples[samples.len() - n + i],
{
}

/// Of the taps that have arrived the last one is read from then on; while none
/// has, the old one is.
pub proof fn last_tap_to_arrive_is_read(current: TapReader, earlier: Seq<TapReader>, last: TapReader)
    ensures
        newest_tap(current, earlier.push(last)) == last,
        newest_tap(current, Seq::empty()) == current,
{
}

} // verus!
