//! Feeding a resampler: cutting the input into chunks, and flushing what is left
//! at the end of a stream. A resampler remembers what it has converted, so each
//! step hands out a chunk to be converted once, and takes in what came of it.

use crate::error::VoxError;
use crate::mapping::SILENCE;
use crate::tap::least;
use vstd::prelude::*;

verus! {

/// Frames the resampler is asked to take at a time.
pub const RESAMPLER_CHUNK_SIZE: usize = 1024;

/// Parts a chunk is processed in.
pub const RESAMPLER_SUBCHUNK_SIZE: usize = 2;

/// A resampler for one input format.
pub struct VoxResampler<R> {
    pub resampler: R,
    pub input_rate: u32,
    pub channels: usize,
}

/// `input` made `needed` samples long: cut, or filled up with silence.
pub open spec fn padded(input: Seq<u32>, needed: nat) -> Seq<u32> {
    Seq::new(
        needed,
        |i: int|
            if i < input.len() {
                input[i]
            } else {
                SILENCE
            },
    )
}

/// The samples from `from` to `to`.
fn copy_range(samples: &Vec<u32>, from: usize, to: usize) -> (copy: Vec<u32>)
    requires
        from <= to <= samples@.len(),
    ensures
        copy@ == samples@.subrange(from as int, to as int),
{
    let mut copy: Vec<u32> = Vec::new();
    let mut i: usize = from;
    while i < to
        invariant
            from <= i <= to <= samples@.len(),
            copy@ == samples@.subrange(from as int, i as int),
        decreases to - i,
    {
        copy.push(samples[i]);
        i = i + 1;
    }
    copy
}

impl<R> VoxResampler<R> {
    /// Whether audio of `input_rate` has to be converted for an output of
    /// `output_rate`, so that an engine has to be built.
    pub fn is_needed(input_rate: u32, output_rate: u32) -> (needed: bool)
        ensures
            needed == (input_rate != output_rate),
    {
        input_rate != output_rate
    }

    /// Makes a resampler from `input_rate` to `output_rate` around the engine that
    /// was `built` for that. None is made where no conversion is needed.
    pub fn new(
        input_rate: u32,
        output_rate: u32,
        channels: usize,
        built: Option<Result<R, String>>,
    ) -> (made: Result<Option<VoxResampler<R>>, VoxError>)
        requires
            input_rate != output_rate ==> built is Some,
        ensures
            made == if input_rate == output_rate {
                Ok::<Option<VoxResampler<R>>, VoxError>(None)
            } else {
                match built->0 {
                    Ok(resampler) => Ok(Some(VoxResampler { resampler, input_rate, channels })),
                    Err(text) => Err(VoxError::Resampler(text)),
                }
            },
    {
        if input_rate == output_rate {
            return Ok(None);
        }
        match built {
            Some(Ok(resampler)) => Ok(Some(VoxResampler { resampler, input_rate, channels })),
            Some(Err(text)) => Err(VoxError::Resampler(text)),
            None => Ok(None),
        }
    }

    /// The samples in a chunk of `frames` frames.
    pub open spec fn chunk_len(self, frames: usize) -> int {
        frames * self.channels
    }

    /// The next chunk of `frames_needed` frames to be converted: the front of the
    /// interleaved input in `pending`, once there is enough of it. It stays
    /// pending until it is converted; see [`VoxResampler::processed`].
    pub fn process(&self, pending: &Vec<u32>, frames_needed: usize) -> (next: Option<Vec<u32>>)
        requires
            0 < self.chunk_len(frames_needed) <= usize::MAX,
        ensures
            match next {
                Some(front) => pending@.len() >= self.chunk_len(frames_needed) && front@
                    == pending@.take(self.chunk_len(frames_needed)),
                None => pending@.len() < self.chunk_len(frames_needed),
            },
    {
        let samples_needed: usize = frames_needed * self.channels;
        if pending.len() < samples_needed {
            return None;
        }
        let front: Vec<u32> = copy_range(pending, 0, samples_needed);
        assert(front@ =~= pending@.take(samples_needed as int));
        Some(front)
    }

    /// Takes in what came of converting the front of `pending`: it is dropped once
    /// it is converted, and stays where that failed.
    pub fn processed(
        &self,
        pending: &mut Vec<u32>,
        frames_needed: usize,
        converted: Result<Vec<u32>, String>,
    ) -> (block: Result<Vec<u32>, VoxError>)
        requires
            0 < self.chunk_len(frames_needed) <= old(pending)@.len(),
        ensures
            match converted {
                Ok(output) => block == Ok::<Vec<u32>, VoxError>(output) && final(pending)@ == old(
                    pending,
                )@.skip(self.chunk_len(frames_needed)),
                Err(text) => block == Err::<Vec<u32>, VoxError>(VoxError::Resampler(text))
                    && final(pending)@ == old(pending)@,
            },
    {
        match converted {
            Ok(output) => {
                assert(pending@.len() == pending.len());
                let samples_needed: usize = frames_needed * self.channels;
                let rest: Vec<u32> = copy_range(pending, samples_needed, pending.len());
                assert(rest@ =~= pending@.skip(samples_needed as int));
                *pending = rest;
                Ok(output)
            },
            Err(text) => Err(VoxError::Resampler(text)),
        }
    }

    /// The whole frames in a run of interleaved samples.
    pub open spec fn whole_frames(self, samples: Seq<u32>) -> nat {
        samples.len() / self.channels as nat
    }

    /// Starts to flush a trailing partial chunk at the end of a stream: it is made
    /// a whole chunk with silence, so that it converts at all. Returns how many
    /// frames of it are real, or `None` where nothing is pending.
    ///
    /// The chunk is then converted like any other, and
    /// [`VoxResampler::flushed`] says what of it counts.
    pub fn flush(&self, pending: &mut Vec<u32>, frames_needed: usize) -> (given: Option<usize>)
        requires
            0 < self.chunk_len(frames_needed) <= usize::MAX,
        ensures
            match given {
                Some(frames) => {
                    &&& old(pending)@.len() > 0
                    &&& frames == self.whole_frames(old(pending)@)
                    &&& final(pending)@ == padded(
                        old(pending)@,
                        self.chunk_len(frames_needed) as nat,
                    )
                },
                None => old(pending)@.len() == 0 && final(pending)@ == old(pending)@,
            },
    {
        if pending.len() == 0 {
            return None;
        }
        let ghost before = pending@;
        let samples_needed: usize = frames_needed * self.channels;
        assert(self.channels > 0) by (nonlinear_arith)
            requires
                0 < frames_needed * self.channels,
                0 <= frames_needed,
                0 <= self.channels,
        ;
        let real_frames: usize = pending.len() / self.channels;
        pending.resize(samples_needed, SILENCE);
        assert(pending@ =~= padded(before, samples_needed as nat));
        Some(real_frames)
    }

    /// What counts of a flushed block, where the real input is worth `expected`
    /// output frames: as many whole frames from its front.
    pub open spec fn real_tail(self, block: Seq<u32>, expected: usize) -> Seq<u32> {
        let frames = least(self.whole_frames(block), expected as nat);
        block.take((frames * self.channels) as int)
    }

    /// What is to be played of a flushed `block`, so that no resampled silence
    /// leaks out. See [`VoxResampler::real_tail`].
    pub fn flushed(&self, block: Vec<u32>, expected: usize) -> (tail: Option<Vec<u32>>)
        requires
            self.channels > 0,
        ensures
            match tail {
                Some(samples) => samples@ == self.real_tail(block@, expected) && samples@.len() > 0,
                None => self.real_tail(block@, expected).len() == 0,
            },
    {
        let available: usize = block.len() / self.channels;
        let take: usize = if available < expected {
            available
        } else {
            expected
        };
        proof {
            lemma_whole_frames(block@.len(), self.channels as nat, take as nat);
        }
        if take == 0 {
            return None;
        }
        let tail: Vec<u32> = copy_range(&block, 0, take * self.channels);
        assert(tail@ =~= block@.take(take * self.channels));
        Some(tail)
    }

    /// The rate of the input it converts.
    pub fn input_rate(&self) -> (rate: u32)
        ensures
            rate == self.input_rate,
    {
        self.input_rate
    }
}

/// So many whole frames are within a run of samples.
proof fn lemma_whole_frames(len: nat, channels: nat, frames: nat)
    requires
        channels > 0,
        frames <= len / channels,
    ensures
        0 <= frames * channels <= len,
        frames > 0 ==> frames * channels > 0,
        (frames * channels) % channels == 0,
{
    vstd::arithmetic::div_mod::lemma_fundamental_div_mod(len as int, channels as int);
    assert(frames * channels <= len) by (nonlinear_arith)
        requires
            frames <= len / channels,
            channels * (len / channels) <= len,
            channels > 0,
    ;
    assert(frames > 0 ==> frames * channels > 0) by (nonlinear_arith)
        requires
            channels > 0,
    ;
    vstd::arithmetic::div_mod::lemma_mod_multiples_basic(frames as int, channels as int);
}

/// `trail` is what is pending as one chunk of `needed` samples after the other is
/// converted.
pub open spec fn is_chunking(trail: Seq<Seq<u32>>, needed: nat) -> bool {
    &&& trail.len() > 0
    &&& forall|i: int|
        0 <= i < trail.len() - 1 ==> (#[trigger] trail[i]).len() >= needed && trail[i + 1]
            == trail[i].skip(needed as int)
}

/// What is pending once `k` chunks are converted.
proof fn lemma_pending(trail: Seq<Seq<u32>>, needed: nat, k: int)
    requires
        is_chunking(trail, needed),
        0 <= k < trail.len(),
    ensures
        0 <= k * needed <= trail[0].len(),
        trail[k] == trail[0].skip(k * needed),
    decreases k,
{
    if k == 0 {
        assert(0 * needed == 0) by (nonlinear_arith);
        assert(trail[0].skip(0) =~= trail[0]);
    } else {
        lemma_pending(trail, needed, k - 1);
        assert(trail[k - 1].len() >= needed);
        assert(k * needed == (k - 1) * needed + needed) by (nonlinear_arith);
        assert(trail[k] =~= trail[0].skip(k * needed));
    }
}

/// Chunking loses, repeats and reorders nothing: each input sample is in its
/// place in one of the chunks handed out, or is still pending in its place.
pub proof fn chunks_keep_every_sample(trail: Seq<Seq<u32>>, needed: nat, i: int)
    requires
        needed > 0,
        is_chunking(trail, needed),
        0 <= i < trail[0].len(),
    ensures
        i < (trail.len() - 1) * needed ==> i / (needed as int) < trail.len() - 1 && trail[0][i]
            == trail[i / (needed as int)].take(needed as int)[i % (needed as int)],
        i >= (trail.len() - 1) * needed ==> trail[0][i] == trail.last()[i - (trail.len() - 1)
            * needed],
        trail.last().len() + (trail.len() - 1) * needed == trail[0].len(),
{
    let n = needed as int;
    let k = trail.len() - 1;
    vstd::arithmetic::div_mod::lemma_fundamental_div_mod(i, n);
    let q = i / n;
    let r = i % n;
    lemma_pending(trail, needed, k);
    if i < k * n {
        assert(0 <= q < k && q * n + r == i) by (nonlinear_arith)
            requires
                i == n * q + r,
                0 <= r < n,
                0 <= i < k * n,
                n > 0,
        ;
        lemma_pending(trail, needed, q);
        assert(trail[q].len() >= needed);
    }
}

/// A flush never returns more frames than the real input is worth, only whole
/// ones, and these from the front of what was converted.
pub proof fn flush_returns_only_the_real_tail<R>(
    resampler: VoxResampler<R>,
    block: Seq<u32>,
    expected: usize,
)
    requires
        resampler.channels > 0,
    ensures
        resampler.real_tail(block, expected).len() <= expected * resampler.channels,
        resampler.real_tail(block, expected).len() % (resampler.channels as nat) == 0,
        resampler.real_tail(block, expected).is_prefix_of(block),
{
    let c = resampler.channels as nat;
    let frames = least(resampler.whole_frames(block), expected as nat);
    lemma_whole_frames(block.len(), c, frames);
    assert(frames * c <= expected * c) by (nonlinear_arith)
        requires
            frames <= expected,
            c > 0,
    ;
}

/// What is flushed begins with the input as it was, goes on in silence, and is a
/// whole chunk.
pub proof fn flushed_input_is_filled_up_with_silence(input: Seq<u32>, needed: nat, i: int)
    requires
        input.len() <= needed,
        0 <= i < needed,
    ensures
        padded(input, needed).len() == needed,
        i < input.len() ==> padded(input, needed)[i] == input[i],
        i >= input.len() ==> padded(input, needed)[i] == 0,
{
}

/// Of a flushed block all that the real input is worth is returned: as many whole
/// frames as were expected, or all there are where the block has fewer.
pub proof fn flush_returns_all_of_the_real_tail<R>(
    resampler: VoxResampler<R>,
    block: Seq<u32>,
    expected: usize,
    frames: nat,
    rest: nat,
)
    requires
        resampler.channels > 0,
        rest < resampler.channels,
        block.len() == frames * resampler.channels + rest,
    ensures
        expected <= frames ==> resampler.real_tail(block, expected).len() == expected
            * resampler.channels,
        expected > frames ==> resampler.real_tail(block, expected).len() == frames
            * resampler.channels,
        resampler.whole_frames(block) == frames,
{
    let c = resampler.channels as int;
    vstd::arithmetic::div_mod::lemma_fundamental_div_mod_converse(
        block.len() as int,
        c,
        frames as int,
        rest as int,
    );
    lemma_whole_frames(block.len(), c as nat, least(frames, expected as nat));
}

/// A chunk is as long as its frames have samples.
pub proof fn chunk_has_a_sample_for_every_channel<R>(resampler: VoxResampler<R>, frames: usize)
    ensures
        resampler.chunk_len(frames) == frames * resampler.channels,
{
}

} // verus!
