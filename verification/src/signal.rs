//! The ring reader: the RMS of the most recent samples, and the decimated,
//! windowed time buffer of a pass.
//!
//! Samples and window coefficients are fixed-point: counts of 10⁻¹².

use vstd::prelude::*;
use crate::fixed::{floor_div, mul_wide, sat, saturate, UNIT};
use crate::ring::{lemma_wrap_step, recent_samples, wrap_back, InputRing};

verus! {

/// The sum of the squares of a series of samples.
pub open spec fn sum_squares(s: Seq<i64>) -> nat
    decreases s.len(),
{
    if s.len() == 0 {
        0
    } else {
        sum_squares(s.drop_last()) + (s.last() * s.last()) as nat
    }
}

/// `r` is the square root of `x`, rounded down.
pub open spec fn is_sqrt(x: nat, r: nat) -> bool {
    r * r <= x < (r + 1) * (r + 1)
}

/// The square root of `x`, rounded down.
pub open spec fn isqrt_of(x: nat) -> nat {
    choose|r: nat| is_sqrt(x, r)
}

/// A sum of squares as far as 128 bits hold it.
pub open spec fn capped(x: nat) -> nat {
    if x > u128::MAX {
        u128::MAX as nat
    } else {
        x
    }
}

/// The root of the mean of the squares of a series of samples, rounded
/// down; zero for an empty series. The sum of the squares saturates at 128
/// bits and the root at 64.
pub open spec fn rms_of(s: Seq<i64>) -> i64 {
    if s.len() == 0 {
        0
    } else {
        sat(isqrt_of(capped(sum_squares(s)) / s.len()) as int) as i64
    }
}

/// The mean of a pair of samples, rounded down.
pub open spec fn pair_mean(a: i64, b: i64) -> i64 {
    ((a + b) / 2) as i64
}

/// A sample multiplied by a window coefficient.
pub open spec fn windowed(x: i64, coefficient: i64) -> i64 {
    sat((x * coefficient) / (UNIT as int)) as i64
}

/// The time buffer of a pass: the samples of the window averaged in pairs
/// and each mean multiplied by its window coefficient.
pub open spec fn time_buffer_of(samples: Seq<i64>, window: Seq<i64>) -> Seq<i64> {
    Seq::new(
        window.len(),
        |i: int| windowed(pair_mean(samples[2 * i], samples[2 * i + 1]), window[i]),
    )
}

/// A number has one square root rounded down.
pub proof fn lemma_sqrt_unique(x: nat, r: nat, q: nat)
    requires
        is_sqrt(x, r),
        is_sqrt(x, q),
    ensures
        r == q,
{
    if r < q {
        assert((r + 1) * (r + 1) <= q * q) by (nonlinear_arith)
            requires
                r + 1 <= q,
        ;
    } else if q < r {
        assert((q + 1) * (q + 1) <= r * r) by (nonlinear_arith)
            requires
                q + 1 <= r,
        ;
    }
}

/// Whatever meets the definition of the square root is the square root.
pub proof fn lemma_is_sqrt(x: nat, r: nat)
    requires
        is_sqrt(x, r),
    ensures
        isqrt_of(x) == r,
{
    lemma_sqrt_unique(x, r, isqrt_of(x));
}

/// A sum of squares is zero exactly when every sample is zero.
pub proof fn lemma_sum_squares_zero(s: Seq<i64>)
    ensures
        sum_squares(s) == 0 <==> forall|i: int| 0 <= i < s.len() ==> s[i] == 0,
    decreases s.len(),
{
    if s.len() > 0 {
        lemma_sum_squares_zero(s.drop_last());
        let x: int = s.last() as int;
        assert(x * x >= 0 && (x * x == 0 <==> x == 0)) by (nonlinear_arith);
        if sum_squares(s) == 0 {
            assert forall|i: int| 0 <= i < s.len() implies s[i] == 0 by {
                if i < s.len() - 1 {
                    assert(s.drop_last()[i] == s[i]);
                }
            }
        } else if forall|i: int| 0 <= i < s.len() ==> s[i] == 0 {
            assert forall|i: int| 0 <= i < s.len() - 1 implies s.drop_last()[i] == 0 by {
                assert(s.drop_last()[i] == s[i]);
            }
            assert(s[s.len() - 1] == 0);
        }
    }
}

/// The square root of `x`, rounded down.
pub fn isqrt(x: u128) -> (r: u64)
    ensures
        r == isqrt_of(x as nat),
        is_sqrt(x as nat, r as nat),
{
    let mut lo: u128 = 0;
    let mut hi: u128 = 0x1_0000_0000_0000_0000;
    assert(0x1_0000_0000_0000_0000 * 0x1_0000_0000_0000_0000 > u128::MAX) by (nonlinear_arith);
    while hi - lo > 1
        invariant
            lo < hi <= 0x1_0000_0000_0000_0000,
            lo * lo <= x < hi * hi,
        decreases hi - lo,
    {
        let mid: u128 = lo + (hi - lo) / 2;
        assert(mid * mid <= 0xffff_ffff_ffff_ffff * 0xffff_ffff_ffff_ffff) by (nonlinear_arith)
            requires
                0 <= mid <= 0xffff_ffff_ffff_ffff,
        ;
        if mid * mid <= x {
            lo = mid;
        } else {
            hi = mid;
        }
    }
    proof {
        lemma_is_sqrt(x as nat, lo as nat);
    }
    lo as u64
}

/// The RMS of the `n` samples that end at the write position of a ring.
pub fn rms_recent(ring: &InputRing<i64>, n: usize) -> (r: i64)
    requires
        ring.wf(),
        ring.samples().len() > 0,
    ensures
        r == rms_of(recent_samples(ring.samples(), ring.position() as int, n as nat)),
{
    if n == 0 {
        return 0;
    }
    let cap: usize = ring.capacity();
    let mut at: usize = ring.tail_start(n);
    let mut acc: u128 = 0;
    let mut i: usize = 0;
    let ghost all = recent_samples(ring.samples(), ring.position() as int, n as nat);
    while i < n
        invariant
            ring.wf(),
            cap == ring.samples().len(),
            cap > 0,
            i <= n,
            at < cap,
            at == wrap_back(ring.position() as int, n - i, cap as int),
            all == recent_samples(ring.samples(), ring.position() as int, n as nat),
            acc == capped(sum_squares(all.take(i as int))),
        decreases n - i,
    {
        let s: i64 = ring.load(at);
        let square: i128 = mul_wide(s, s);
        proof {
            lemma_wrap_step(ring.position() - (n - i), cap as int);
            assert(all.take(i + 1).drop_last() == all.take(i as int));
            assert(all.take(i + 1).last() == s);
            assert(s * s >= 0) by (nonlinear_arith);
        }
        let term: u128 = square as u128;
        acc = if term > u128::MAX - acc { u128::MAX } else { acc + term };
        at = if at + 1 == cap { 0 } else { at + 1 };
        i += 1;
    }
    proof {
        assert(all.take(n as int) == all);
    }
    let root: u64 = isqrt(acc / n as u128);
    if root > i64::MAX as u64 {
        i64::MAX
    } else {
        root as i64
    }
}

/// Averages the samples of a window in pairs and multiplies each mean by
/// its window coefficient.
pub fn time_buffer(samples: &Vec<i64>, window: &Vec<i64>) -> (out: Vec<i64>)
    requires
        samples.len() == 2 * window.len(),
    ensures
        out@ == time_buffer_of(samples@, window@),
{
    let mut out: Vec<i64> = Vec::new();
    let mut i: usize = 0;
    while i < window.len()
        invariant
            i <= window.len(),
            samples.len() == 2 * window.len(),
            out@ == time_buffer_of(samples@, window@).take(i as int),
        decreases window.len() - i,
    {
        let sum: i128 = samples[2 * i] as i128 + samples[2 * i + 1] as i128;
        let mean: i64 = floor_div(sum, 2) as i64;
        let scaled: i64 = saturate(floor_div(mul_wide(mean, window[i]), UNIT as i128));
        out.push(scaled);
        proof {
            assert(out@ == time_buffer_of(samples@, window@).take(i + 1));
        }
        i += 1;
    }
    proof {
        let all = time_buffer_of(samples@, window@);
        assert(all.take(window.len() as int) == all);
    }
    out
}

} // verus!
