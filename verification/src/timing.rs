//! Conversions between the units of time the engine uses: microseconds,
//! interleaved output samples and per-channel frames.

use vstd::prelude::*;

verus! {

/// Microseconds in a second.
pub const MICROS: u64 = 1_000_000;

/// `value`, or the largest `u64` where it does not fit.
pub open spec fn clip(value: nat) -> u64 {
    if value <= u64::MAX {
        value as u64
    } else {
        u64::MAX
    }
}

/// How long `samples` interleaved samples last at `rate` frames of `channels`
/// samples a second, in whole microseconds. Zero where nothing plays.
pub open spec fn micros_of(samples: nat, rate: nat, channels: nat) -> u64 {
    if rate * channels == 0 {
        0
    } else {
        clip(samples * 1_000_000 / (rate * channels))
    }
}

/// How many whole interleaved samples fit into `micros`.
pub open spec fn samples_of(micros: nat, rate: nat, channels: nat) -> u64 {
    clip(micros * (rate * channels) / 1_000_000)
}

/// How long `frames` frames last at `rate`, in whole microseconds. A rate of
/// zero counts as one.
pub open spec fn frames_micros(frames: nat, rate: nat) -> u64 {
    clip(frames * 1_000_000 / at_least_one(rate))
}

/// `n`, but never zero.
pub open spec fn at_least_one(n: nat) -> nat {
    if n == 0 {
        1
    } else {
        n
    }
}

/// `value * numer / denom`, rounded down and clipped to a `u64`.
pub(crate) fn scale(value: u64, numer: u128, denom: u128) -> (scaled: u64)
    requires
        denom > 0,
        numer <= u64::MAX || denom <= 1_000_000,
    ensures
        scaled == clip((value * numer / (denom as int)) as nat),
{
    match (value as u128).checked_mul(numer) {
        Some(product) => {
            let quotient: u128 = product / denom;
            proof {
                vstd::arithmetic::div_mod::lemma_div_pos_is_pos(product as int, denom as int);
            }
            if quotient > u64::MAX as u128 {
                u64::MAX
            } else {
                quotient as u64
            }
        },
        None => {
            proof {
                let whole: int = value * numer;
                assert(whole > u128::MAX);
                assert(numer > u64::MAX) by (nonlinear_arith)
                    requires
                        value * numer > u128::MAX,
                        value <= u64::MAX,
                ;
                assert(whole / (denom as int) > u64::MAX) by (nonlinear_arith)
                    requires
                        whole > u128::MAX,
                        0 < denom <= 1_000_000,
                ;
            }
            u64::MAX
        },
    }
}

/// `total * factor / denom`, rounded down and clipped to a `u64`.
pub(crate) fn rescale(total: u128, factor: u128, denom: u128) -> (scaled: u64)
    requires
        0 < denom <= u64::MAX,
    ensures
        scaled == clip((total * factor / (denom as int)) as nat),
{
    let whole: u128 = total / denom;
    let rest: u128 = total % denom;
    proof {
        let d = denom as int;
        vstd::arithmetic::div_mod::lemma_fundamental_div_mod(total as int, d);
        assert(total * factor == d * (whole * factor) + rest * factor) by (nonlinear_arith)
            requires
                total == d * whole + rest,
        ;
        assert(0 <= whole * factor && 0 <= rest * factor) by (nonlinear_arith)
            requires
                0 <= whole,
                0 <= rest,
                0 <= factor,
        ;
        vstd::arithmetic::div_mod::lemma_hoist_over_denominator(
            rest * factor,
            whole * factor,
            denom as nat,
        );
        vstd::arithmetic::mul::lemma_mul_is_commutative(d, whole * factor);
        vstd::arithmetic::div_mod::lemma_div_pos_is_pos(rest * factor, d);
        assert(total * factor / d == whole * factor + rest * factor / d);
    }
    let large: u128 = match whole.checked_mul(factor) {
        Some(product) => product,
        None => return u64::MAX,
    };
    let small: u128 = match rest.checked_mul(factor) {
        Some(product) => product / denom,
        None => {
            assert(rest * factor / (denom as int) > u64::MAX) by (nonlinear_arith)
                requires
                    rest * factor > u128::MAX,
                    0 < denom <= u64::MAX,
            ;
            return u64::MAX;
        },
    };
    match large.checked_add(small) {
        Some(sum) => if sum > u64::MAX as u128 {
            u64::MAX
        } else {
            sum as u64
        },
        None => u64::MAX,
    }
}

/// See [`micros_of`].
pub fn samples_to_micros(samples: u64, rate: u32, channels: usize) -> (micros: u64)
    ensures
        micros == micros_of(samples as nat, rate as nat, channels as nat),
{
    proof {
        lemma_product_bound(rate, channels);
    }
    let per_second: u128 = rate as u128 * channels as u128;
    if per_second == 0 {
        0
    } else {
        scale(samples, MICROS as u128, per_second)
    }
}

/// See [`samples_of`].
pub fn micros_to_samples(micros: u64, rate: u32, channels: usize) -> (samples: u64)
    ensures
        samples == samples_of(micros as nat, rate as nat, channels as nat),
{
    proof {
        lemma_product_bound(rate, channels);
    }
    let per_second: u128 = rate as u128 * channels as u128;
    scale(micros, per_second, MICROS as u128)
}

/// See [`frames_micros`].
pub fn frames_to_micros(frames: u64, rate: u32) -> (micros: u64)
    ensures
        micros == frames_micros(frames as nat, rate as nat),
{
    let denom: u128 = if rate == 0 {
        1
    } else {
        rate as u128
    };
    scale(frames, MICROS as u128, denom)
}

/// The product of a rate and a channel count fits into 128 bits.
proof fn lemma_product_bound(rate: u32, channels: usize)
    ensures
        0 <= rate * channels <= u128::MAX,
{
    assert(0 <= rate * channels <= u128::MAX) by (nonlinear_arith)
        requires
            0 <= rate <= u32::MAX,
            0 <= channels <= u64::MAX,
    ;
}

/// Going from a time to a position and back loses less than the length of one
/// sample, and never goes ahead.
pub proof fn position_round_trips(micros: nat, rate: nat, channels: nat)
    requires
        rate * channels > 0,
        micros <= u64::MAX,
        micros * (rate * channels) / 1_000_000 <= u64::MAX,
    ensures
        micros_of(samples_of(micros, rate, channels) as nat, rate, channels) <= micros,
        micros - micros_of(samples_of(micros, rate, channels) as nat, rate, channels)
            <= 1_000_000nat / (rate * channels) + 1,
{
    let k = (rate * channels) as int;
    let m = micros as int;
    let s = m * k / 1_000_000;
    let back = s * 1_000_000 / k;
    assert(0 <= m * k) by (nonlinear_arith)
        requires
            0 <= m,
            0 < k,
    ;
    vstd::arithmetic::div_mod::lemma_fundamental_div_mod(m * k, 1_000_000);
    vstd::arithmetic::div_mod::lemma_fundamental_div_mod(s * 1_000_000, k);
    vstd::arithmetic::div_mod::lemma_fundamental_div_mod(1_000_000, k);
    assert(0 <= back <= m) by (nonlinear_arith)
        requires
            s * 1_000_000 <= m * k,
            s * 1_000_000 == k * back + (s * 1_000_000) % k,
            0 <= (s * 1_000_000) % k < k,
            0 <= s,
            0 < k,
    ;
    let unit: int = 1_000_000int / k;
    assert(m - back <= unit + 1) by (nonlinear_arith)
        requires
            m * k < s * 1_000_000 + 1_000_000,
            s * 1_000_000 < k * back + k,
            1_000_000 < k * unit + k,
            0 < k,
    ;
    assert(samples_of(micros, rate, channels) == s);
}

/// A number is the quotient of two others, rounded down, if its product with the
/// divisor is the last one that is not beyond the dividend.
pub(crate) proof fn lemma_quotient(total: int, part: int, times: int)
    requires
        part > 0,
        times * part <= total < (times + 1) * part,
    ensures
        total / part == times,
{
    let rest = total - times * part;
    assert(0 <= rest < part) by (nonlinear_arith)
        requires
            rest == total - times * part,
            times * part <= total < (times + 1) * part,
    ;
    vstd::arithmetic::div_mod::lemma_fundamental_div_mod_converse(total, part, times, rest);
}

/// A position is the number of whole microseconds that its samples take: so many
/// microseconds of output are not more than them, and one more would be. Where
/// the output has no rate or no channels, nothing plays.
pub proof fn position_is_whole_micros(samples: nat, rate: nat, channels: nat, micros: nat)
    ensures
        rate > 0 && channels > 0 && micros <= u64::MAX && micros * rate * channels <= samples
            * 1_000_000 && samples * 1_000_000 < (micros + 1) * rate * channels ==> micros_of(
            samples,
            rate,
            channels,
        ) == micros,
        rate == 0 || channels == 0 ==> micros_of(samples, rate, channels) == 0,
{
    let k = (rate * channels) as int;
    assert(rate > 0 && channels > 0 ==> k > 0) by (nonlinear_arith)
        requires
            k == rate * channels,
    ;
    assert(rate == 0 || channels == 0 ==> k == 0) by (nonlinear_arith)
        requires
            k == rate * channels,
    ;
    assert(micros * rate * channels == micros * k && (micros + 1) * rate * channels == (micros + 1)
        * k) by (nonlinear_arith)
        requires
            k == rate * channels,
    ;
    if rate > 0 && channels > 0 && micros <= u64::MAX && micros * k <= samples * 1_000_000
        && samples * 1_000_000 < (micros + 1) * k {
        lemma_quotient((samples * 1_000_000) as int, k, micros as int);
    }
}

/// The samples in a time are those that end within it: so many last no longer
/// than the time, and one more would.
pub proof fn samples_are_those_that_end_in_time(
    micros: nat,
    rate: nat,
    channels: nat,
    samples: nat,
)
    requires
        samples <= u64::MAX,
        samples * 1_000_000 <= micros * rate * channels,
        micros * rate * channels < (samples + 1) * 1_000_000,
    ensures
        samples_of(micros, rate, channels) == samples,
{
    assert(micros * rate * channels == micros * (rate * channels)) by (nonlinear_arith);
    lemma_quotient((micros * (rate * channels)) as int, 1_000_000, samples as int);
}

/// `frames` frames at `rate` a second last `micros` whole microseconds.
pub open spec fn lasts(frames: nat, rate: nat, micros: nat) -> bool {
    micros * rate <= frames * 1_000_000 && frames * 1_000_000 < (micros + 1) * rate
}

/// A track lasts as long as its frames take at its own rate.
pub proof fn frames_last_at_their_rate(frames: nat, rate: nat, micros: nat)
    requires
        rate > 0,
        micros <= u64::MAX,
        lasts(frames, rate, micros),
    ensures
        frames_micros(frames, rate) == micros,
{
    lemma_quotient((frames * 1_000_000) as int, rate as int, micros as int);
}

/// A count that is too large to be held stands at the largest that can be.
pub proof fn counts_stop_at_the_largest(value: nat)
    ensures
        value <= u64::MAX ==> clip(value) == value,
        value > u64::MAX ==> clip(value) == u64::MAX,
{
}

} // verus!
