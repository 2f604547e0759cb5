//! The demodulation of the time buffer: its integral against a complex
//! reference, the alignment of the integral to absolute time, and the
//! strike envelope.
//!
//! The reference is given by two tables, the cosine and the sine of its
//! phase at each sample of the window, in fixed point; a coefficient counts
//! as far as one either way.

use vstd::prelude::*;
use crate::fixed::{floor_div, mul_wide, sat, saturate, UNIT};
use crate::lockin::{magnitude, magnitude_of, Phasor};
use crate::params::{CAP2_N, FFT_N};

verus! {

/// A coefficient limited to one either way.
pub open spec fn unit_limited(c: i64) -> int {
    if c < -UNIT {
        -UNIT as int
    } else if c > UNIT {
        UNIT as int
    } else {
        c as int
    }
}

/// The sum, over the samples `from..to` of the time buffer, of each sample
/// times its coefficient.
pub open spec fn correlation(time: Seq<i64>, table: Seq<i64>, from: int, to: int) -> int
    decreases to - from,
{
    if to <= from {
        0
    } else {
        correlation(time, table, from, to - 1) + time[to - 1] * unit_limited(table[to - 1])
    }
}

/// The complex amplitude of the samples `from..to` against the reference,
/// `exp(-j phase)`, as a mean over `count` samples.
pub open spec fn amplitude_of(
    time: Seq<i64>,
    cos: Seq<i64>,
    sin: Seq<i64>,
    from: int,
    to: int,
    count: int,
) -> Phasor {
    Phasor {
        re: sat(correlation(time, cos, from, to) / (count * UNIT)) as i64,
        im: sat((-correlation(time, sin, from, to)) / (count * UNIT)) as i64,
    }
}

/// The demodulation integral of the whole time buffer.
pub open spec fn integral_of(time: Seq<i64>, cos: Seq<i64>, sin: Seq<i64>) -> Phasor {
    amplitude_of(time, cos, sin, 0, FFT_N as int, 1)
}

/// A complex amplitude turned back by the phase whose cosine and sine are
/// `c0` and `s0`.
pub open spec fn turned(z: Phasor, c0: i64, s0: i64) -> Phasor {
    Phasor {
        re: sat((z.re * unit_limited(c0) + z.im * unit_limited(s0)) / (UNIT as int)) as i64,
        im: sat((z.im * unit_limited(c0) - z.re * unit_limited(s0)) / (UNIT as int)) as i64,
    }
}

/// Value `b` of the strike envelope: the magnitude of the mean amplitude
/// of block `b` of the time buffer, a block being `CAP2_DECIM` samples, 32.
pub open spec fn block_level(time: Seq<i64>, cos: Seq<i64>, sin: Seq<i64>, b: int) -> i64 {
    sat(
        magnitude_of(
            amplitude_of(
                time,
                cos,
                sin,
                32 * b,
                32 * b + 32,
                32,
            ),
        ),
    ) as i64
}

/// The strike envelope of the time buffer.
pub open spec fn envelope_levels(time: Seq<i64>, cos: Seq<i64>, sin: Seq<i64>) -> Seq<i64> {
    Seq::new(CAP2_N as nat, |b: int| block_level(time, cos, sin, b))
}

/// A silent stretch has no correlation with anything.
pub proof fn lemma_silent_correlation(time: Seq<i64>, table: Seq<i64>, from: int, to: int)
    requires
        0 <= from,
        to <= time.len(),
        forall|i: int| 0 <= i < time.len() ==> time[i] == 0,
    ensures
        correlation(time, table, from, to) == 0,
    decreases to - from,
{
    if to > from {
        lemma_silent_correlation(time, table, from, to - 1);
        assert(0 * unit_limited(table[to - 1]) == 0) by (nonlinear_arith);
    }
}

/// One term of a correlation is within 2⁶³ of zero, in fixed point.
proof fn lemma_term_bound(x: i64, c: int)
    requires
        -1_000_000_000_000 <= c <= 1_000_000_000_000,
    ensures
        -0x8000_0000_0000_0000 * 1_000_000_000_000 <= x * c <= 0x8000_0000_0000_0000
            * 1_000_000_000_000,
        -0x8000_0000_0000_0000_0000_0000_0000 <= x * c <= 0x8000_0000_0000_0000_0000_0000_0000,
{
    assert(-0x8000_0000_0000_0000 * 1_000_000_000_000 <= x * c <= 0x8000_0000_0000_0000
        * 1_000_000_000_000) by (nonlinear_arith)
        requires
            -0x8000_0000_0000_0000 <= x <= 0x8000_0000_0000_0000,
            -1_000_000_000_000 <= c <= 1_000_000_000_000,
    ;
}

/// A coefficient limited to one either way.
fn limit_unit(c: i64) -> (r: i64)
    ensures
        r == unit_limited(c),
        -UNIT <= r <= UNIT,
{
    if c < -UNIT {
        -UNIT
    } else if c > UNIT {
        UNIT
    } else {
        c
    }
}

/// Turns a complex amplitude back by the phase whose cosine and sine are
/// `c0` and `s0`.
pub fn turn(z: Phasor, c0: i64, s0: i64) -> (r: Phasor)
    ensures
        r == turned(z, c0, s0),
{
    let c: i64 = limit_unit(c0);
    let s: i64 = limit_unit(s0);
    proof {
        lemma_term_bound(z.re, c as int);
        lemma_term_bound(z.im, s as int);
        lemma_term_bound(z.im, c as int);
        lemma_term_bound(z.re, s as int);
    }
    let re: i128 = mul_wide(z.re, c) + mul_wide(z.im, s);
    let im: i128 = mul_wide(z.im, c) - mul_wide(z.re, s);
    Phasor {
        re: saturate(floor_div(re, UNIT as i128)),
        im: saturate(floor_div(im, UNIT as i128)),
    }
}

/// Demodulates the time buffer against the reference given by its cosine
/// and sine tables: the integral, and the strike envelope.
pub fn demodulate(time: &Vec<i64>, cos: &Vec<i64>, sin: &Vec<i64>) -> (r: (Phasor, Vec<i64>))
    requires
        time.len() == FFT_N,
        cos.len() == FFT_N,
        sin.len() == FFT_N,
    ensures
        r.0 == integral_of(time@, cos@, sin@),
        r.1@ == envelope_levels(time@, cos@, sin@),
{
    let mut envelope: Vec<i64> = Vec::new();
    let mut sum_re: i128 = 0;
    let mut sum_im: i128 = 0;
    let mut b: usize = 0;
    while b < CAP2_N
        invariant
            b <= CAP2_N,
            time.len() == FFT_N,
            cos.len() == FFT_N,
            sin.len() == FFT_N,
            sum_re == correlation(time@, cos@, 0, 32 * b),
            sum_im == correlation(time@, sin@, 0, 32 * b),
            -(32 * b) * 0x8000_0000_0000_0000_0000_0000_0000 <= sum_re <= (32 * b)
                * 0x8000_0000_0000_0000_0000_0000_0000,
            -(32 * b) * 0x8000_0000_0000_0000_0000_0000_0000 <= sum_im <= (32 * b)
                * 0x8000_0000_0000_0000_0000_0000_0000,
            envelope@ == envelope_levels(time@, cos@, sin@).take(b as int),
        decreases CAP2_N - b,
    {
        let start: usize = 32 * b;
        let mut block_re: i128 = 0;
        let mut block_im: i128 = 0;
        let mut k: usize = 0;
        while k < 32
            invariant
                k <= 32,
                b < CAP2_N,
                start == 32 * b,
                time.len() == FFT_N,
                cos.len() == FFT_N,
                sin.len() == FFT_N,
                block_re == correlation(time@, cos@, start as int, start + k),
                block_im == correlation(time@, sin@, start as int, start + k),
                sum_re == correlation(time@, cos@, 0, start + k),
                sum_im == correlation(time@, sin@, 0, start + k),
                -k * 0x8000_0000_0000_0000_0000_0000_0000 <= block_re <= k
                    * 0x8000_0000_0000_0000_0000_0000_0000,
                -k * 0x8000_0000_0000_0000_0000_0000_0000 <= block_im <= k
                    * 0x8000_0000_0000_0000_0000_0000_0000,
                -(start + k) * 0x8000_0000_0000_0000_0000_0000_0000 <= sum_re <= (start + k)
                    * 0x8000_0000_0000_0000_0000_0000_0000,
                -(start + k) * 0x8000_0000_0000_0000_0000_0000_0000 <= sum_im <= (start + k)
                    * 0x8000_0000_0000_0000_0000_0000_0000,
            decreases 32 - k,
        {
            let n: usize = start + k;
            let x: i64 = time[n];
            let c: i64 = limit_unit(cos[n]);
            let s: i64 = limit_unit(sin[n]);
            proof {
                lemma_term_bound(x, c as int);
                lemma_term_bound(x, s as int);
            }
            let along: i128 = mul_wide(x, c);
            let across: i128 = mul_wide(x, s);
            block_re = block_re + along;
            block_im = block_im + across;
            sum_re = sum_re + along;
            sum_im = sum_im + across;
            k += 1;
        }
        let mean: Phasor = Phasor {
            re: saturate(floor_div(block_re, 32_000_000_000_000)),
            im: saturate(floor_div(-block_im, 32_000_000_000_000)),
        };
        let level: u64 = magnitude(mean);
        envelope.push(if level > i64::MAX as u64 { i64::MAX } else { level as i64 });
        proof {
            assert(envelope@ == envelope_levels(time@, cos@, sin@).take(b + 1));
        }
        b += 1;
    }
    proof {
        let all = envelope_levels(time@, cos@, sin@);
        assert(all.take(CAP2_N as int) == all);
    }
    let z: Phasor = Phasor {
        re: saturate(floor_div(sum_re, UNIT as i128)),
        im: saturate(floor_div(-sum_im, UNIT as i128)),
    };
    (z, envelope)
}

} // verus!
