//! The lock-free single-producer single-consumer sample ring of `rtrb`.
//!
//! Both halves run at the same time on different threads, so what one half sees
//! of the other is only ever a lower bound: slots that were free when the
//! producer looked stay free until it fills them, and samples that were there
//! when the consumer looked stay there until it takes them. Each half is
//! described by what it alone determines (what it has written or taken so far,
//! what it saw when it last looked) and by the run of samples that passes
//! through the ring, which both halves share.

use rtrb::{Consumer, Producer, RingBuffer};
use vstd::prelude::*;

verus! {

/// `rtrb::Producer`: the writing half of a ring.
#[verifier::external_type_specification]
#[verifier::external_body]
#[verifier::reject_recursive_types(T)]
pub struct ExProducer<T>(Producer<T>);

/// `rtrb::Consumer`: the reading half of a ring.
#[verifier::external_type_specification]
#[verifier::external_body]
#[verifier::reject_recursive_types(T)]
pub struct ExConsumer<T>(Consumer<T>);

/// Every sample written through this half so far, oldest first.
pub uninterp spec fn written(producer: Producer<u32>) -> Seq<u32>;

/// Free slots this half knows of: `Producer::cached_slots`.
pub uninterp spec fn vacant(producer: Producer<u32>) -> nat;

/// Slots of the ring this half writes to.
pub uninterp spec fn room(producer: Producer<u32>) -> nat;

/// Every sample that passes through the ring this half writes to over the
/// ring's whole life, first to last.
pub uninterp spec fn inflow(producer: Producer<u32>) -> Seq<u32>;

/// Every sample taken out through this half so far, oldest first.
pub uninterp spec fn taken(consumer: Consumer<u32>) -> Seq<u32>;

/// Filled slots this half knows of: `Consumer::cached_slots`.
pub uninterp spec fn ready(consumer: Consumer<u32>) -> nat;

/// Slots of the ring this half reads from.
pub uninterp spec fn depth(consumer: Consumer<u32>) -> nat;

/// Every sample that passes through the ring this half reads from over the
/// ring's whole life, first to last.
pub uninterp spec fn outflow(consumer: Consumer<u32>) -> Seq<u32>;

/// `rtrb::RingBuffer::new`: two halves of one empty ring with `capacity` slots,
/// all of them known to be free, both with the same run of samples ahead. The
/// slots have to fit into one allocation.
#[verifier::external_body]
pub(crate) fn new_ring(capacity: usize) -> (halves: (Producer<u32>, Consumer<u32>))
    requires
        capacity * 4 <= isize::MAX,
    ensures
        written(halves.0) == Seq::<u32>::empty(),
        vacant(halves.0) == capacity,
        room(halves.0) == capacity,
        taken(halves.1) == Seq::<u32>::empty(),
        ready(halves.1) == 0,
        depth(halves.1) == capacity,
        inflow(halves.0) == outflow(halves.1),
{
    RingBuffer::new(capacity)
}

/// `rtrb::Producer::slots`: looks at how many slots are free right now. The
/// consumer may have freed more since the last look, never fewer, and no more
/// than the ring has. How many it freed is up to the other thread.
#[verifier::external_body]
pub(crate) fn free_slots(producer: &mut Producer<u32>) -> (slots: usize)
    ensures
        vacant(*old(producer)) <= slots <= room(*old(producer)),
        vacant(*final(producer)) == slots,
        written(*final(producer)) == written(*old(producer)),
        written(*final(producer)).is_prefix_of(inflow(*final(producer))),
        room(*final(producer)) == room(*old(producer)),
        inflow(*final(producer)) == inflow(*old(producer)),
{
    producer.slots()
}

/// `rtrb::Producer::write_chunk_uninit`, the chunk filled by
/// `WriteChunkUninit::fill_from_iter`: writes all of `samples` in order, or
/// nothing where too few slots are free. It never fails within the slots the
/// half knows of. Whatever was written is the front of the ring's run.
#[verifier::external_body]
pub(crate) fn write_all(producer: &mut Producer<u32>, samples: &Vec<u32>) -> (done: bool)
    ensures
        samples@.len() <= vacant(*old(producer)) ==> done,
        done ==> written(*final(producer)) == written(*old(producer)) + samples@,
        !done ==> written(*final(producer)) == written(*old(producer)),
        samples@.len() <= vacant(*old(producer)) ==> vacant(*final(producer)) == vacant(
            *old(producer),
        ) - samples@.len(),
        written(*final(producer)).is_prefix_of(inflow(*final(producer))),
        room(*final(producer)) == room(*old(producer)),
        inflow(*final(producer)) == inflow(*old(producer)),
{
    match producer.write_chunk_uninit(samples.len()) {
        Ok(chunk) => {
            chunk.fill_from_iter(samples.iter().copied());
            true
        },
        Err(_) => false,
    }
}

/// `rtrb::RingBuffer::capacity` of the ring a producer writes to.
#[verifier::external_body]
pub(crate) fn capacity(producer: &Producer<u32>) -> (slots: usize)
    ensures
        slots == room(*producer),
{
    producer.buffer().capacity()
}

/// `rtrb::Consumer::slots`: looks at how many samples wait right now. The
/// producer may have added more since the last look, never fewer, and no more
/// than the ring holds. How many it added is up to the other thread.
#[verifier::external_body]
pub(crate) fn waiting_samples(consumer: &mut Consumer<u32>) -> (slots: usize)
    ensures
        ready(*old(consumer)) <= slots <= depth(*old(consumer)),
        ready(*final(consumer)) == slots,
        taken(*final(consumer)) == taken(*old(consumer)),
        taken(*final(consumer)).is_prefix_of(outflow(*final(consumer))),
        depth(*final(consumer)) == depth(*old(consumer)),
        outflow(*final(consumer)) == outflow(*old(consumer)),
{
    consumer.slots()
}

/// `rtrb::Consumer::read_chunk`, read by `ReadChunk::as_slices` and released by
/// `ReadChunk::commit_all`: takes the oldest `n` samples in order, or nothing
/// where fewer wait. It never fails within the samples the half knows of.
/// Whatever was taken is the front of the ring's run.
#[verifier::external_body]
pub(crate) fn take_samples(consumer: &mut Consumer<u32>, n: usize) -> (samples: Option<Vec<u32>>)
    ensures
        n <= ready(*old(consumer)) ==> samples is Some,
        samples matches Some(got) ==> got@.len() == n && taken(*final(consumer)) == taken(
            *old(consumer),
        ) + got@,
        samples is None ==> taken(*final(consumer)) == taken(*old(consumer)),
        n <= ready(*old(consumer)) ==> ready(*final(consumer)) == ready(*old(consumer)) - n,
        taken(*final(consumer)).is_prefix_of(outflow(*final(consumer))),
        depth(*final(consumer)) == depth(*old(consumer)),
        outflow(*final(consumer)) == outflow(*old(consumer)),
{
    let chunk = consumer.read_chunk(n).ok()?;
    let (first, second) = chunk.as_slices();
    let samples = [first, second].concat();
    chunk.commit_all();
    Some(samples)
}

} // verus!
