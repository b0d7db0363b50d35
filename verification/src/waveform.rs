//! Offline waveform extraction: the bookkeeping of reducing a whole file to
//! per-bucket amplitudes.
//!
//! Amplitudes are held as bit patterns: those of 64-bit floats while they are
//! accumulated, and those of 32-bit floats in the result. The arithmetic on them
//! comes in as closures.

use crate::error::VoxError;
use crate::timing::{clip, frames_micros, frames_to_micros};
use vstd::prelude::*;
use vstd::string::StringExecFns;

verus! {

/// Frames per fine accumulator before downsampling. Keeps memory bounded
/// regardless of file length.
pub const FINE_FRAMES: u64 = 512;

/// Output buckets where the caller does not say otherwise.
pub const DEFAULT_BINS: usize = 500;

/// The bit pattern of an accumulator that nothing has been added to.
pub const NOTHING: u64 = 0;

/// How each output bucket summarizes its samples.
#[derive(Clone, Copy, Debug, PartialEq, Eq, Structural)]
pub enum BinMetric {
    /// Root-mean-square: smooth envelope tracking average energy.
    Rms,
    /// Peak absolute amplitude: spikier, transient-driven.
    Peak,
}

impl Default for BinMetric {
    fn default() -> (metric: Self)
        ensures
            metric == BinMetric::Rms,
    {
        BinMetric::Rms
    }
}

impl BinMetric {
    /// Adds a frame to an accumulator in the way of the metric: `energy` sums
    /// squares, `peak` keeps the larger magnitude.
    pub fn accumulate<E: Fn(u64, u64) -> u64, P: Fn(u64, u64) -> u64>(
        self,
        acc: u64,
        value: u64,
        energy: E,
        peak: P,
    ) -> (sum: u64)
        requires
            call_requires(energy, (acc, value)),
            call_requires(peak, (acc, value)),
        ensures
            match self {
                BinMetric::Rms => call_ensures(energy, (acc, value), sum),
                BinMetric::Peak => call_ensures(peak, (acc, value), sum),
            },
    {
        match self {
            BinMetric::Rms => energy(acc, value),
            BinMetric::Peak => peak(acc, value),
        }
    }
}

/// What has been accumulated over a number of frames.
#[derive(Clone, Copy, Debug, PartialEq, Eq, Structural)]
pub struct Bucket {
    pub acc: u64,
    pub count: u64,
}

/// `acc` is what `fold` makes of `values` one after the other.
pub open spec fn folds<F: Fn(u64, u64) -> u64>(values: Seq<u64>, fold: F, acc: u64) -> bool
    decreases values.len(),
{
    if values.len() == 0 {
        acc == NOTHING
    } else {
        exists|before: u64|
            folds(values.drop_last(), fold, before) && #[trigger] call_ensures(
                fold,
                (before, values.last()),
                acc,
            )
    }
}

/// The frames of fine bucket `i`.
pub open spec fn fine_part(values: Seq<u64>, i: int) -> Seq<u64> {
    values.subrange(i * FINE_FRAMES, (i + 1) * FINE_FRAMES)
}

/// A file folded into fixed-size buckets, frame by frame.
pub struct FineBuckets {
    pub fine: Vec<Bucket>,
    /// The bucket being filled.
    pub open: Bucket,
}

impl FineBuckets {
    /// These are the buckets of `values`: as many full ones as there are, and
    /// what is left over in the open one.
    pub open spec fn holds<F: Fn(u64, u64) -> u64>(self, values: Seq<u64>, fold: F) -> bool {
        &&& self.fine@.len() * FINE_FRAMES + self.open.count == values.len()
        &&& self.open.count < FINE_FRAMES
        &&& forall|i: int|
            0 <= i < self.fine@.len() ==> (#[trigger] self.fine@[i]).count == FINE_FRAMES && folds(
                fine_part(values, i),
                fold,
                self.fine@[i].acc,
            )
        &&& folds(values.skip(self.fine@.len() * FINE_FRAMES), fold, self.open.acc)
    }

    /// No frame so far.
    pub fn new() -> (buckets: Self)
        ensures
            buckets.fine@ == Seq::<Bucket>::empty(),
            buckets.open == (Bucket { acc: NOTHING, count: 0 }),
    {
        FineBuckets { fine: Vec::new(), open: Bucket { acc: NOTHING, count: 0 } }
    }

    /// Adds a frame.
    pub fn push<F: Fn(u64, u64) -> u64>(&mut self, value: u64, fold: &F)
        requires
            old(self).open.count < FINE_FRAMES,
            forall|acc: u64, value: u64| #[trigger] call_requires(*fold, (acc, value)),
        ensures
            final(self).open.count < FINE_FRAMES,
            forall|values: Seq<u64>| #[trigger]
                old(self).holds(values, *fold) ==> final(self).holds(values.push(value), *fold),
    {
        let ghost before = *self;
        let acc: u64 = fold(self.open.acc, value);
        self.open = Bucket { acc, count: self.open.count + 1 };
        if self.open.count == FINE_FRAMES {
            self.fine.push(self.open);
            self.open = Bucket { acc: NOTHING, count: 0 };
        }
        assert forall|values: Seq<u64>| #[trigger] before.holds(values, *fold) implies self.holds(
            values.push(value),
            *fold,
        ) by {
            let all = values.push(value);
            let full = before.fine@.len() as int;
            let start = full * FINE_FRAMES;
            let tail = all.skip(start);
            assert(tail.drop_last() =~= values.skip(start));
            assert(tail.last() == value);
            assert(folds(tail, *fold, acc));
            assert forall|i: int| 0 <= i < full implies folds(
                fine_part(all, i),
                *fold,
                (#[trigger] self.fine@[i]).acc,
            ) && self.fine@[i].count == FINE_FRAMES by {
                assert(self.fine@[i] == before.fine@[i]);
                assert(fine_part(all, i) =~= fine_part(values, i));
            }
            if before.open.count + 1 == FINE_FRAMES {
                assert(fine_part(all, full) =~= tail);
                assert(all.skip(start + FINE_FRAMES) =~= Seq::empty());
            }
        }
    }

    /// Adds the frames of a packet.
    pub fn push_all<F: Fn(u64, u64) -> u64>(&mut self, values: &Vec<u64>, fold: F)
        requires
            old(self).open.count < FINE_FRAMES,
            forall|acc: u64, value: u64| #[trigger] call_requires(fold, (acc, value)),
        ensures
            final(self).open.count < FINE_FRAMES,
            forall|earlier: Seq<u64>| #[trigger]
                old(self).holds(earlier, fold) ==> final(self).holds(earlier + values@, fold),
    {
        let ghost before = *self;
        let mut i: usize = 0;
        assert forall|earlier: Seq<u64>| #[trigger] before.holds(earlier, fold) implies self.holds(
            earlier + values@.take(0),
            fold,
        ) by {
            assert(earlier + values@.take(0) =~= earlier);
        }
        while i < values.len()
            invariant
                i <= values@.len(),
                self.open.count < FINE_FRAMES,
                forall|acc: u64, value: u64| #[trigger] call_requires(fold, (acc, value)),
                forall|earlier: Seq<u64>| #[trigger]
                    before.holds(earlier, fold) ==> self.holds(
                        earlier + values@.take(i as int),
                        fold,
                    ),
            decreases values@.len() - i,
        {
            let ghost middle = *self;
            self.push(values[i], &fold);
            assert forall|earlier: Seq<u64>| #[trigger]
                before.holds(earlier, fold) implies self.holds(
                earlier + values@.take(i + 1),
                fold,
            ) by {
                let so_far = earlier + values@.take(i as int);
                assert(middle.holds(so_far, fold));
                assert(so_far.push(values@[i as int]) =~= earlier + values@.take(i + 1));
            }
            i = i + 1;
        }
        assert(values@.take(i as int) =~= values@);
    }

    /// Whether not a single frame has been added.
    pub fn is_empty(&self) -> (empty: bool)
        ensures
            empty == (self.fine@.len() == 0 && self.open.count == 0),
    {
        self.fine.len() == 0 && self.open.count == 0
    }

    /// All buckets, the open one last if it has anything in it.
    pub open spec fn closed(self) -> Seq<Bucket> {
        if self.open.count > 0 {
            self.fine@.push(self.open)
        } else {
            self.fine@
        }
    }
}

/// The first fine bucket of output bucket `j`, of `bins` output buckets over `m`
/// fine ones.
pub open spec fn bin_start(j: nat, m: nat, bins: nat) -> nat {
    j * m / bins
}

/// The end of the fine buckets of output bucket `j`: where the next one starts,
/// but at least one further on.
pub open spec fn bin_end(j: nat, m: nat, bins: nat) -> nat {
    let next = bin_start(j + 1, m, bins);
    let least_end = bin_start(j, m, bins) + 1;
    let end = if next > least_end {
        next
    } else {
        least_end
    };
    if end < m {
        end
    } else {
        m
    }
}

/// `value` is what `pool` makes of these buckets.
pub open spec fn pools<P: Fn(&Vec<Bucket>) -> u32>(
    part: Seq<Bucket>,
    pool: P,
    value: u32,
) -> bool {
    exists|buckets: Vec<Bucket>| buckets@ == part && #[trigger] call_ensures(
        pool,
        (&buckets,),
        value,
    )
}

/// Merges fine buckets into exactly `bins` values. Proportional slices; repeats
/// (upsamples) when fine buckets are fewer than bins. `pool` summarizes a slice.
pub fn downsample<P: Fn(&Vec<Bucket>) -> u32>(fine: &Vec<Bucket>, bins: usize, pool: P) -> (out: Vec<
    u32,
>)
    requires
        bins * fine@.len() <= usize::MAX,
        forall|part: &Vec<Bucket>| #[trigger] call_requires(pool, (part,)),
    ensures
        out@.len() == bins,
        forall|j: int|
            0 <= j < bins ==> pools(
                fine@.subrange(
                    bin_start(j as nat, fine@.len(), bins as nat) as int,
                    bin_end(j as nat, fine@.len(), bins as nat) as int,
                ),
                pool,
                #[trigger] out@[j],
            ),
{
    let m: usize = fine.len();
    let mut out: Vec<u32> = Vec::new();
    let mut j: usize = 0;
    while j < bins
        invariant
            m == fine@.len(),
            bins * m <= usize::MAX,
            j <= bins,
            out@.len() == j,
            forall|part: &Vec<Bucket>| #[trigger] call_requires(pool, (part,)),
            forall|k: int|
                0 <= k < j ==> pools(
                    fine@.subrange(
                        bin_start(k as nat, fine@.len(), bins as nat) as int,
                        bin_end(k as nat, fine@.len(), bins as nat) as int,
                    ),
                    pool,
                    #[trigger] out@[k],
                ),
        decreases bins - j,
    {
        proof {
            lemma_bin_bounds(j as nat, m as nat, bins as nat);
            assert(0 <= j * m <= (j + 1) * m <= bins * m) by (nonlinear_arith)
                requires
                    0 <= j < bins,
                    0 <= m,
            ;
        }
        let lo: usize = j * m / bins;
        let next: usize = (j + 1) * m / bins;
        let mut hi: usize = if next > lo {
            next
        } else if lo < m {
            lo + 1
        } else {
            m
        };
        if hi > m {
            hi = m;
        }
        let mut part: Vec<Bucket> = Vec::new();
        let mut i: usize = lo;
        while i < hi
            invariant
                lo <= i,
                i <= hi || lo > hi,
                hi <= m == fine@.len(),
                lo <= hi,
                part@ == fine@.subrange(lo as int, i as int),
            decreases hi - i,
        {
            part.push(fine[i]);
            i = i + 1;
        }
        let value: u32 = pool(&part);
        assert(pools(part@, pool, value));
        out.push(value);
        j = j + 1;
    }
    out
}

/// The bounds of an output bucket lie in order within the fine buckets.
proof fn lemma_bin_bounds(j: nat, m: nat, bins: nat)
    requires
        j < bins,
    ensures
        bin_start(j, m, bins) <= bin_start(j + 1, m, bins) <= m,
        m > 0 ==> bin_start(j, m, bins) < m,
        bin_start(j, m, bins) <= bin_end(j, m, bins) <= m,
{
    let a = (j * m) as int;
    let b = ((j + 1) * m) as int;
    assert(0 <= a <= b <= bins * m) by (nonlinear_arith)
        requires
            a == j * m,
            b == (j + 1) * m,
            0 <= j < bins,
            0 <= m,
    ;
    assert(a + m <= bins * m) by (nonlinear_arith)
        requires
            a == j * m,
            0 <= j < bins,
            0 <= m,
    ;
    vstd::arithmetic::div_mod::lemma_div_is_ordered(a, b, bins as int);
    vstd::arithmetic::div_mod::lemma_fundamental_div_mod(a, bins as int);
    vstd::arithmetic::div_mod::lemma_fundamental_div_mod(b, bins as int);
    assert(b / (bins as int) <= m) by (nonlinear_arith)
        requires
            b <= bins * m,
            b == bins * (b / (bins as int)) + b % (bins as int),
            0 <= b % (bins as int),
            bins > 0,
    ;
    if m > 0 {
        assert(a / (bins as int) < m) by (nonlinear_arith)
            requires
                a < bins * m,
                a == bins * (a / (bins as int)) + a % (bins as int),
                0 <= a % (bins as int),
                bins > 0,
        ;
    }
}

/// Every output bucket summarizes at least one fine bucket, and only fine buckets
/// that exist.
pub proof fn bins_are_filled(j: nat, m: nat, bins: nat)
    requires
        j < bins,
        m > 0,
    ensures
        bin_start(j, m, bins) < bin_end(j, m, bins) <= m,
{
    lemma_bin_bounds(j, m, bins);
}

/// With enough fine buckets for all output buckets, these partition them: each
/// starts where the one before it ends, the first at the start and the last
/// ending at the end.
pub proof fn bins_partition_when_downsampling(j: nat, m: nat, bins: nat)
    requires
        j < bins,
        bins <= m,
    ensures
        bin_start(0, m, bins) == 0,
        bin_end(j, m, bins) == bin_start(j + 1, m, bins),
        bin_start(bins, m, bins) == m,
{
    let d = bins as int;
    let a = (j * m) as int;
    let b = ((j + 1) * m) as int;
    lemma_bin_bounds(j, m, bins);
    assert(b == a + m) by (nonlinear_arith)
        requires
            a == j * m,
            b == (j + 1) * m,
    ;
    vstd::arithmetic::div_mod::lemma_div_plus_one(a, d);
    vstd::arithmetic::div_mod::lemma_div_is_ordered(d + a, b, d);
    assert(0 * m == 0) by (nonlinear_arith);
    vstd::arithmetic::div_mod::lemma_div_multiples_vanish(m as int, d);
    vstd::arithmetic::div_mod::lemma_div_basics(d);
    assert((bins * m) as int == d * m);
}

/// With fewer fine buckets than output buckets, each output bucket repeats one
/// fine bucket, and neighbours repeat the same one or the next.
pub proof fn bins_repeat_when_upsampling(j: nat, m: nat, bins: nat)
    requires
        j < bins,
        0 < m < bins,
    ensures
        bin_end(j, m, bins) == bin_start(j, m, bins) + 1,
        bin_start(j, m, bins) <= bin_start(j + 1, m, bins) <= bin_start(j, m, bins) + 1,
{
    let d = bins as int;
    let a = (j * m) as int;
    let b = ((j + 1) * m) as int;
    lemma_bin_bounds(j, m, bins);
    assert(b == a + m) by (nonlinear_arith)
        requires
            a == j * m,
            b == (j + 1) * m,
    ;
    vstd::arithmetic::div_mod::lemma_div_plus_one(a, d);
    vstd::arithmetic::div_mod::lemma_div_is_ordered(b, d + a, d);
}

/// Frames in `buckets`.
pub open spec fn frames_in(buckets: Seq<Bucket>) -> nat
    decreases buckets.len(),
{
    if buckets.len() == 0 {
        0
    } else {
        frames_in(buckets.drop_last()) + buckets.last().count as nat
    }
}

/// See [`frames_in`].
fn count_frames(buckets: &Vec<Bucket>) -> (frames: u64)
    ensures
        frames == clip(frames_in(buckets@)),
{
    let mut frames: u64 = 0;
    let mut i: usize = 0;
    assert(buckets@.take(0) =~= Seq::empty());
    while i < buckets.len()
        invariant
            i <= buckets@.len(),
            frames == clip(frames_in(buckets@.take(i as int))),
        decreases buckets@.len() - i,
    {
        assert(buckets@.take(i + 1).drop_last() =~= buckets@.take(i as int));
        frames = match frames.checked_add(buckets[i].count) {
            Some(sum) => sum,
            None => u64::MAX,
        };
        i = i + 1;
    }
    assert(buckets@.take(i as int) =~= buckets@);
    frames
}

/// Generated waveform with the span of audio it covers.
#[derive(Debug, PartialEq)]
pub struct Waveform {
    /// Per-bucket amplitudes, as many as were asked for.
    pub bins: Vec<u32>,
    /// Sample-accurate duration from decoded frames, in microseconds. On a
    /// partial decode it covers only what actually rendered, so that `bins` and
    /// `duration` stay aligned.
    pub duration: u64,
}

impl Waveform {
    /// Reduces a decoded file to `bins` per-bucket amplitudes plus the duration
    /// it covers. `failure` is what ended the decoding early, if anything did: a
    /// damaged file still yields a waveform for the renderable prefix, and an
    /// error only when nothing usable decoded. `pool` summarizes a slice of
    /// buckets.
    pub fn generate<P: Fn(&Vec<Bucket>) -> u32>(
        buckets: FineBuckets,
        failure: Option<VoxError>,
        bins: usize,
        sample_rate: u32,
        pool: P,
    ) -> (waveform: Result<Waveform, VoxError>)
        requires
            bins * (buckets.fine@.len() + 1) <= usize::MAX,
            forall|part: &Vec<Bucket>| #[trigger] call_requires(pool, (part,)),
        ensures
            if bins == 0 {
                waveform matches Ok(wave) && wave.bins@.len() == 0 && wave.duration == 0
            } else if buckets.closed().len() == 0 {
                match failure {
                    Some(error) => waveform == Err::<Waveform, VoxError>(error),
                    None => waveform matches Err(VoxError::Decoder(text)) && text@
                        == "no decodable audio in stream"@,
                }
            } else {
                waveform matches Ok(wave) && {
                    let fine = buckets.closed();
                    &&& wave.bins@.len() == bins
                    &&& wave.duration == frames_micros(
                        clip(frames_in(fine)) as nat,
                        sample_rate as nat,
                    )
                    &&& forall|j: int|
                        0 <= j < bins ==> pools(
                            fine.subrange(
                                bin_start(j as nat, fine.len(), bins as nat) as int,
                                bin_end(j as nat, fine.len(), bins as nat) as int,
                            ),
                            pool,
                            #[trigger] wave.bins@[j],
                        )
                }
            },
    {
        if bins == 0 {
            return Ok(Waveform { bins: Vec::new(), duration: 0 });
        }
        if buckets.is_empty() {
            return match failure {
                Some(error) => Err(error),
                None => Err(VoxError::Decoder(String::from_str("no decodable audio in stream"))),
            };
        }
        let ghost full = buckets.fine@.len();
        let open: Bucket = buckets.open;
        let mut fine: Vec<Bucket> = buckets.fine;
        if open.count > 0 {
            fine.push(open);
        }
        assert(bins * fine@.len() <= bins * (full + 1)) by (nonlinear_arith)
            requires
                fine@.len() <= full + 1,
                0 <= bins,
        ;
        let frames: u64 = count_frames(&fine);
        Ok(
            Waveform {
                bins: downsample(&fine, bins, pool),
                duration: frames_to_micros(frames, sample_rate),
            },
        )
    }
}

/// The bins within `half_window` of bin `i`, of `n` bins: from the first up to
/// but not with the second.
pub fn window(i: usize, half_window: usize, n: usize) -> (bounds: (usize, usize))
    requires
        i < n,
    ensures
        bounds.0 == (if i >= half_window {
            i - half_window
        } else {
            0
        }),
        bounds.1 == (if i + half_window + 1 < n {
            i + half_window + 1
        } else {
            n as int
        }),
        bounds.0 <= i < bounds.1 <= n,
{
    let lo: usize = if i >= half_window {
        i - half_window
    } else {
        0
    };
    let hi: usize = if half_window < n - i - 1 {
        i + half_window + 1
    } else {
        n
    };
    (lo, hi)
}

/// Fresh buckets hold no frame.
pub proof fn fresh_buckets_hold_nothing<F: Fn(u64, u64) -> u64>(buckets: FineBuckets, fold: F)
    requires
        buckets.fine@ == Seq::<Bucket>::empty(),
        buckets.open == (Bucket { acc: NOTHING, count: 0 }),
    ensures
        buckets.holds(Seq::empty(), fold),
{
    assert(Seq::<u64>::empty().skip(0) =~= Seq::<u64>::empty());
}

/// The duration covers exactly the frames that were folded.
pub proof fn duration_covers_every_frame<F: Fn(u64, u64) -> u64>(
    buckets: FineBuckets,
    values: Seq<u64>,
    fold: F,
)
    requires
        buckets.holds(values, fold),
    ensures
        frames_in(buckets.closed()) == values.len(),
{
    lemma_full_buckets(buckets.fine@);
    if buckets.open.count > 0 {
        assert(buckets.closed().drop_last() =~= buckets.fine@);
    }
}

/// Full buckets have the same number of frames each.
proof fn lemma_full_buckets(fine: Seq<Bucket>)
    requires
        forall|i: int| 0 <= i < fine.len() ==> (#[trigger] fine[i]).count == FINE_FRAMES,
    ensures
        frames_in(fine) == fine.len() * FINE_FRAMES,
    decreases fine.len(),
{
    if fine.len() > 0 {
        assert forall|i: int| 0 <= i < fine.drop_last().len() implies (
        #[trigger] fine.drop_last()[i]).count == FINE_FRAMES by {
            assert(fine.drop_last()[i] == fine[i]);
        }
        lemma_full_buckets(fine.drop_last());
    }
}

/// Output buckets divide the fine ones in proportion: the start of bucket `j` is
/// the last fine bucket at or before that share of them.
pub proof fn bins_are_proportional(j: nat, m: nat, bins: nat, start: nat)
    requires
        bins > 0,
        start * bins <= j * m,
        j * m < (start + 1) * bins,
    ensures
        bin_start(j, m, bins) == start,
{
    crate::timing::lemma_quotient((j * m) as int, bins as int, start as int);
}

/// A fine bucket is made of five hundred and twelve frames in a row, and the open
/// one of those that are left: each frame of the file is in its place in one of
/// them.
pub proof fn every_frame_is_in_its_bucket<F: Fn(u64, u64) -> u64>(
    buckets: FineBuckets,
    values: Seq<u64>,
    fold: F,
    k: int,
)
    requires
        buckets.holds(values, fold),
        0 <= k < values.len(),
    ensures
        k < buckets.fine@.len() * 512 ==> {
            let part = fine_part(values, k / 512);
            &&& k / 512 < buckets.fine@.len()
            &&& part.len() == 512
            &&& part[k % 512] == values[k]
            &&& folds(part, fold, buckets.fine@[k / 512].acc)
            &&& buckets.fine@[k / 512].count == 512
        },
        values.len() - buckets.fine@.len() * 512 == buckets.open.count < 512,
        folds(values.skip((buckets.fine@.len() * 512) as int), fold, buckets.open.acc),
{
    if k < buckets.fine@.len() * 512 {
        let i = k / 512;
        assert(buckets.fine@[i].count == FINE_FRAMES);
    }
}

/// A waveform lasts as long as the frames it was made of take at their rate.
pub proof fn waveform_lasts_as_long_as_its_frames<F: Fn(u64, u64) -> u64>(
    buckets: FineBuckets,
    values: Seq<u64>,
    fold: F,
    rate: u32,
    micros: u64,
)
    requires
        buckets.holds(values, fold),
        values.len() <= u64::MAX,
        rate > 0,
        crate::timing::lasts(values.len(), rate as nat, micros as nat),
    ensures
        frames_micros(clip(frames_in(buckets.closed())) as nat, rate as nat) == micros,
        buckets.closed().len() == 0 <==> values.len() == 0,
{
    duration_covers_every_frame(buckets, values, fold);
    crate::timing::frames_last_at_their_rate(values.len(), rate as nat, micros as nat);
}

/// An accumulator takes in one frame after the other, starting from nothing.
pub proof fn frames_are_folded_in_order<F: Fn(u64, u64) -> u64>(
    values: Seq<u64>,
    value: u64,
    fold: F,
    before: u64,
    acc: u64,
)
    requires
        folds(values, fold, before),
        call_ensures(fold, (before, value), acc),
    ensures
        folds(values.push(value), fold, acc),
        folds(Seq::<u64>::empty(), fold, 0),
        forall|other: u64| folds(Seq::<u64>::empty(), fold, other) ==> other == 0,
{
    assert(values.push(value).drop_last() =~= values);
    assert(values.push(value).last() == value);
}

/// The buckets of a file are the full ones in order, and after them the open one
/// where anything is in it.
pub proof fn open_bucket_comes_last(buckets: FineBuckets, i: int)
    ensures
        0 <= i < buckets.fine@.len() ==> buckets.closed()[i] == buckets.fine@[i],
        buckets.open.count > 0 ==> buckets.closed().len() == buckets.fine@.len() + 1
            && buckets.closed().last() == buckets.open,
        buckets.open.count == 0 ==> buckets.closed().len() == buckets.fine@.len(),
{
}

} // verus!
