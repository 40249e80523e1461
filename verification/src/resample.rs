//! Sample-rate conversion for mono PCM.
//!
//! Exact rate halving decimates with a 2-tap averaging anti-alias filter;
//! every other conversion interpolates linearly at exact rational positions,
//! producing `len * to / from` output samples.

use vstd::prelude::*;
use vstd::arithmetic::div_mod::lemma_fundamental_div_mod_converse;
use crate::codecs::avg2_spec;
use crate::codecs::avg2;

verus! {

/// The 2-tap-filtered, decimated sequence: each output is the average of
/// one input pair.
pub open spec fn halved(s: Seq<i16>) -> Seq<i16> {
    Seq::new(s.len() / 2, |k: int| avg2_spec(s[2 * k], s[2 * k + 1]))
}

/// The linearly interpolated sample at output position `k`: position
/// `k * from / to` of the input, with the fractional part blending the two
/// neighbouring samples; past the last pair, the nearest sample.
pub open spec fn interp_at(s: Seq<i16>, from: u32, to: u32, k: int) -> i16 {
    let num = k * (from as int);
    let idx = num / (to as int);
    let rem = num % (to as int);
    if idx + 1 < s.len() {
        ((s[idx] * (to as int - rem) + s[idx + 1] * rem) / (to as int)) as i16
    } else {
        s[idx]
    }
}

/// The linearly interpolated sequence: `len * to / from` samples.
pub open spec fn interpolated(s: Seq<i16>, from: u32, to: u32) -> Seq<i16> {
    Seq::new((s.len() * (to as int) / (from as int)) as nat, |k: int| interp_at(s, from, to, k))
}

/// What the resampler returns: the input unchanged for equal rates, the
/// filtered decimation for exact halving, linear interpolation otherwise.
pub open spec fn resampled(s: Seq<i16>, from: u32, to: u32) -> Seq<i16> {
    if from == to {
        s
    } else if from == 2 * to {
        halved(s)
    } else {
        interpolated(s, from, to)
    }
}

/// Floor division of a possibly negative numerator by a positive divisor.
fn floor_div_i64(num: i64, den: u64) -> (r: i64)
    requires
        0 < den <= 0xFFFF_FFFFu64,
        -0x4000_0000_0000_0000 < num < 0x4000_0000_0000_0000,
    ensures
        r == num as int / den as int,
{
    if num >= 0 {
        let q: u64 = (num as u64) / den;
        q as i64
    } else {
        let a: u64 = (-num) as u64;
        let q: u64 = (a + den - 1) / den;
        proof {
            let ai = a as int;
            let di = den as int;
            let qi = q as int;
            assert(ai + di - 1 == qi * di + ((ai + di - 1) % di)) by {
                vstd::arithmetic::div_mod::lemma_fundamental_div_mod(ai + di - 1, di);
            }
            let ri = qi * di - ai;
            assert(0 <= ri < di);
            assert((-qi) * di == -(qi * di)) by (nonlinear_arith);
            assert(-ai == (-qi) * di + ri);
            lemma_fundamental_div_mod_converse(-ai, di, -qi, ri);
        }
        -(q as i64)
    }
}

/// Resample mono PCM from one rate to another.
///
/// Exact halving averages each input pair; otherwise each of the
/// `len * to / from` outputs is the linear blend of the two input samples
/// around position `k * from / to`. The product of input length and target
/// rate must fit the machine word.
pub fn resample_audio(samples: &Vec<i16>, from_rate: u32, to_rate: u32) -> (r: Vec<i16>)
    requires
        from_rate > 0,
        to_rate > 0,
        samples@.len() * (to_rate as int) <= u64::MAX,
        samples@.len() * (to_rate as int) / (from_rate as int) <= usize::MAX,
    ensures
        r@ == resampled(samples@, from_rate, to_rate),
{
    if from_rate == to_rate {
        let mut out: Vec<i16> = Vec::new();
        let mut i: usize = 0;
        while i < samples.len()
            invariant
                i <= samples.len(),
                out@ =~= samples@.subrange(0, i as int),
            decreases samples.len() - i,
        {
            out.push(samples[i]);
            i = i + 1;
        }
        assert(out@ =~= samples@);
        out
    } else if from_rate % 2 == 0 && from_rate / 2 == to_rate {
        assert(from_rate == 2 * to_rate);
        let mut out: Vec<i16> = Vec::new();
        let mut k: usize = 0;
        while k < samples.len() / 2
            invariant
                k <= samples.len() / 2,
                out@.len() == k,
                forall|j: int| 0 <= j < k ==> out@[j] == halved(samples@)[j],
            decreases samples.len() / 2 - k,
        {
            out.push(avg2(samples[2 * k], samples[2 * k + 1]));
            k = k + 1;
        }
        assert(out@ =~= halved(samples@));
        out
    } else {
        let n: usize = samples.len();
        let num_total: u64 = (n as u64) * (to_rate as u64);
        let out_len_u64: u64 = num_total / (from_rate as u64);
        let out_len: usize = out_len_u64 as usize;
        assert(out_len == samples@.len() * (to_rate as int) / (from_rate as int));
        let mut out: Vec<i16> = Vec::new();
        let mut k: usize = 0;
        while k < out_len
            invariant
                from_rate > 0,
                to_rate > 0,
                from_rate != to_rate,
                n == samples@.len(),
                out_len == samples@.len() * (to_rate as int) / (from_rate as int),
                samples@.len() * (to_rate as int) <= u64::MAX,
                k <= out_len,
                out@.len() == k,
                forall|j: int| 0 <= j < k ==>
                    out@[j] == interp_at(samples@, from_rate, to_rate, j),
            decreases out_len - k,
        {
            proof {
                lemma_position_in_range(n as int, from_rate as int, to_rate as int, k as int);
                assert(k as int * (from_rate as int) <= samples@.len() * (to_rate as int));
            }
            let pos: u64 = (k as u64) * (from_rate as u64);
            let idx: usize = (pos / (to_rate as u64)) as usize;
            let rem: u64 = pos % (to_rate as u64);
            assert(idx == (k as int * from_rate) / (to_rate as int));
            assert(rem == (k as int * from_rate) % (to_rate as int));
            assert(idx < n);
            let val: i16 = if idx + 1 < n {
                let a: i64 = samples[idx] as i64;
                let b: i64 = samples[idx + 1] as i64;
                let w1: i64 = (to_rate as u64 - rem) as i64;
                let w2: i64 = rem as i64;
                proof {
                    lemma_blend_bounds(a as int, b as int, w1 as int, w2 as int, to_rate as int);
                }
                let blended: i64 = a * w1 + b * w2;
                let q: i64 = floor_div_i64(blended, to_rate as u64);
                q as i16
            } else {
                samples[idx]
            };
            assert(val == interp_at(samples@, from_rate, to_rate, k as int));
            out.push(val);
            k = k + 1;
        }
        assert(out@ =~= interpolated(samples@, from_rate, to_rate));
        out
    }
}

/// For an output position strictly below the output length, the input index
/// it reads is strictly below the input length.
proof fn lemma_position_in_range(n: int, from: int, to: int, k: int)
    requires
        from > 0,
        to > 0,
        n >= 0,
        0 <= k < n * to / from,
    ensures
        k * from / to < n,
        k * from >= 0,
        k * from + from <= n * to,
        n >= 1,
{
    assert(n * to / from >= 1);
    assert(n * to >= 0) by (nonlinear_arith)
        requires
            n >= 0,
            to > 0,
    ;
    if n * to < from {
        lemma_fundamental_div_mod_converse(n * to, from, 0, n * to);
        assert(false);
    }
    assert(n * to >= from);
    assert(n >= 1) by (nonlinear_arith)
        requires
            n * to >= from,
            from > 0,
            to > 0,
            n >= 0,
    ;
    assert(k * from >= 0) by (nonlinear_arith)
        requires
            k >= 0,
            from > 0,
    ;
    // k < n * to / from implies k * from <= n * to - from, hence
    // k * from / to <= (n * to - from) / to <= n - 1.
    assert(k + 1 <= n * to / from);
    assert((k + 1) * from <= (n * to / from) * from) by (nonlinear_arith)
        requires
            from > 0,
            k + 1 <= n * to / from,
    ;
    assert((n * to / from) * from <= n * to) by {
        vstd::arithmetic::div_mod::lemma_fundamental_div_mod(n * to, from);
        assert(n * to % from >= 0);
    }
    assert(k * from + from <= n * to) by (nonlinear_arith)
        requires
            (k + 1) * from <= n * to,
    ;
    assert(k * from <= n * to - from);
    assert(k * from / to <= (n * to - from) / to) by {
        vstd::arithmetic::div_mod::lemma_div_is_ordered(k * from, n * to - from, to);
    }
    assert((n * to - from) / to < n) by {
        assert((n * to - from) / to <= (n * to - 1) / to) by {
            vstd::arithmetic::div_mod::lemma_div_is_ordered(n * to - from, n * to - 1, to);
        }
        assert((n * to - 1) / to == n - 1) by {
            assert((n - 1) * to == n * to - to) by (nonlinear_arith);
            lemma_fundamental_div_mod_converse(n * to - 1, to, n - 1, to - 1);
        }
    }
}

/// The linear blend of two samples, floor-divided by the total weight, lies
/// between the two samples; in particular it fits a 16-bit sample.
proof fn lemma_blend_bounds(a: int, b: int, w1: int, w2: int, to: int)
    requires
        -32768 <= a <= 32767,
        -32768 <= b <= 32767,
        w1 >= 0,
        w2 >= 0,
        w1 + w2 == to,
        to > 0,
    ensures
        -32768 * to <= a * w1 <= 32767 * to,
        -32768 * to <= b * w2 <= 32767 * to,
        -32768 * to <= a * w1 + b * w2 <= 32767 * to,
        -32768 <= (a * w1 + b * w2) / to <= 32767,
{
    assert(a * w1 >= -32768 * w1 && a * w1 <= 32767 * w1) by (nonlinear_arith)
        requires
            -32768 <= a <= 32767,
            w1 >= 0,
    ;
    assert(b * w2 >= -32768 * w2 && b * w2 <= 32767 * w2) by (nonlinear_arith)
        requires
            -32768 <= b <= 32767,
            w2 >= 0,
    ;
    assert(-32768 * w1 + -32768 * w2 == -32768 * to) by (nonlinear_arith)
        requires
            w1 + w2 == to,
    ;
    assert(32767 * w1 + 32767 * w2 == 32767 * to) by (nonlinear_arith)
        requires
            w1 + w2 == to,
    ;
    let v = a * w1 + b * w2;
    assert(-32768 * to <= v <= 32767 * to);
    assert(a * w1 >= -32768 * to && a * w1 <= 32767 * to) by (nonlinear_arith)
        requires
            -32768 * w1 <= a * w1 <= 32767 * w1,
            w1 >= 0,
            w2 >= 0,
            w1 + w2 == to,
    ;
    assert(b * w2 >= -32768 * to && b * w2 <= 32767 * to) by (nonlinear_arith)
        requires
            -32768 * w2 <= b * w2 <= 32767 * w2,
            w1 >= 0,
            w2 >= 0,
            w1 + w2 == to,
    ;
    assert(v / to >= -32768) by {
        vstd::arithmetic::div_mod::lemma_div_is_ordered(-32768 * to, v, to);
        lemma_fundamental_div_mod_converse(-32768 * to, to, -32768, 0);
    }
    assert(v / to <= 32767) by {
        vstd::arithmetic::div_mod::lemma_div_is_ordered(v, 32767 * to, to);
        lemma_fundamental_div_mod_converse(32767 * to, to, 32767, 0);
    }
}

/// The resampler's output length is exactly the input length scaled by the
/// rate ratio, rounded down: `len * to / from` samples for every rate pair.
pub proof fn lemma_resampler_output_length(s: Seq<i16>, from: u32, to: u32)
    requires
        from > 0,
        to > 0,
    ensures
        resampled(s, from, to).len() == s.len() * (to as int) / (from as int),
{
    let n = s.len() as int;
    let toi = to as int;
    let fromi = from as int;
    if from == to {
        assert(n * toi / fromi == n) by (nonlinear_arith)
            requires
                toi == fromi,
                fromi > 0,
                n >= 0,
        ;
    } else if from == 2 * to {
        assert(n * toi >= 0) by (nonlinear_arith)
            requires
                n >= 0,
                toi > 0,
        ;
        vstd::arithmetic::div_mod::lemma_div_denominator(n * toi, toi, 2);
        assert(n * toi / toi == n) by (nonlinear_arith)
            requires
                toi > 0,
                n >= 0,
        ;
        assert(n * toi / fromi == n / 2);
    } else {
    }
}

} // verus!
