//! The coarse spectrum: the band around the centre frequency, its peak,
//! the harmonics of the peak, and the band display.
//!
//! A spectrum is given by the magnitudes of its bins, in fixed point. Bin
//! `b` of the coarse spectrum lies at `b * sample_rate / WINDOW_SAMPLES`
//! hertz. The sample rate is fixed-point too, in hertz; a rate that is not
//! positive puts every frequency above the last bin.

use vstd::prelude::*;
use vstd::arithmetic::div_mod::lemma_div_pos_is_pos;
use crate::fixed::{
    abs,
    ceil_div,
    ceil_quot,
    floor_div,
    floor_div_signed,
    floor_quot,
    mul_wide,
    sat,
    saturate,
    UNIT,
};
use crate::params::{
    BAND_DISP_CAP,
    BAND_HIGH_HZ,
    BAND_LOW_HZ,
    HALF_N,
    HARM_COUNT,
    HARM_REACH,
    WINDOW_SAMPLES,
};

verus! {

/// The first bin at or above the lower band edge, limited to the spectrum.
pub open spec fn band_low_bin(sample_rate: int) -> int {
    if sample_rate <= 0 {
        HALF_N as int
    } else {
        let bin = ceil_quot(BAND_LOW_HZ * WINDOW_SAMPLES, sample_rate);
        if bin > HALF_N {
            HALF_N as int
        } else {
            bin
        }
    }
}

/// The last bin at or below the upper band edge, limited to the spectrum
/// and never below the first bin of the band.
pub open spec fn band_high_bin(sample_rate: int) -> int {
    if sample_rate <= 0 {
        HALF_N as int
    } else {
        let bin = floor_quot(BAND_HIGH_HZ * WINDOW_SAMPLES, sample_rate);
        let low = band_low_bin(sample_rate);
        if bin > HALF_N {
            HALF_N as int
        } else if bin < low {
            low
        } else {
            bin
        }
    }
}

/// The greatest magnitude among bins `lo..=hi`, or zero if none is positive.
pub open spec fn peak_mag(mags: Seq<i64>, lo: int, hi: int) -> int
    decreases hi - lo + 1,
{
    if hi < lo {
        0
    } else {
        let rest = peak_mag(mags, lo, hi - 1);
        if mags[hi] > rest {
            mags[hi] as int
        } else {
            rest
        }
    }
}

/// The first bin among `lo..=hi` whose magnitude is `peak_mag`, or `lo` if
/// no magnitude is positive.
pub open spec fn peak_bin(mags: Seq<i64>, lo: int, hi: int) -> int
    decreases hi - lo + 1,
{
    if hi <= lo {
        lo
    } else if mags[hi] > peak_mag(mags, lo, hi - 1) {
        hi
    } else {
        peak_bin(mags, lo, hi - 1)
    }
}

/// What the peak of a range is: no bin of the range exceeds `peak_mag`;
/// where it is positive, `peak_bin` is the first bin that reaches it;
/// where it is zero, `peak_bin` is the start of the range.
pub proof fn lemma_peak(mags: Seq<i64>, lo: int, hi: int)
    requires
        lo <= hi,
    ensures
        lo <= peak_bin(mags, lo, hi) <= hi,
        0 <= peak_mag(mags, lo, hi) <= i64::MAX,
        forall|b: int| lo <= b <= hi ==> mags[b] <= peak_mag(mags, lo, hi),
        peak_mag(mags, lo, hi) > 0 ==> mags[peak_bin(mags, lo, hi)] == peak_mag(mags, lo, hi),
        forall|b: int|
            lo <= b < peak_bin(mags, lo, hi) ==> mags[b] < peak_mag(mags, lo, hi),
        peak_mag(mags, lo, hi) == 0 ==> peak_bin(mags, lo, hi) == lo,
    decreases hi - lo,
{
    if hi > lo {
        lemma_peak(mags, lo, hi - 1);
    } else {
        assert(peak_mag(mags, lo, lo - 1) == 0);
    }
}

/// The sub-bin offset of the vertex of the parabola through three
/// neighbouring magnitudes: `(y1 - y3) / (2 * (y1 - 2 * y2 + y3))`, or zero
/// where that denominator is within 10⁻¹² of zero.
pub open spec fn parabolic_offset(y1: int, y2: int, y3: int) -> int {
    let denom = y1 - 2 * y2 + y3;
    if abs(denom) > 1 {
        sat(floor_quot((y1 - y3) * UNIT, 2 * denom))
    } else {
        0
    }
}

/// The frequency in hertz of a fractional bin of the coarse spectrum;
/// zero without a positive sample rate.
pub open spec fn bin_to_hz(bin: int, sample_rate: int) -> int {
    if sample_rate <= 0 {
        0
    } else {
        sat((bin * sample_rate) / (WINDOW_SAMPLES * UNIT))
    }
}

/// The first bin searched for a harmonic expected at bin `x`.
pub open spec fn harmonic_lo(x: int) -> int {
    if x - HARM_REACH < 1 {
        1
    } else {
        x - HARM_REACH
    }
}

/// The last bin searched for a harmonic expected at bin `x`.
pub open spec fn harmonic_hi(x: int) -> int {
    if x + HARM_REACH > HALF_N - 1 {
        HALF_N - 1
    } else {
        x + HARM_REACH
    }
}

/// The frequency and magnitude of the harmonic `factor` of a fundamental at
/// bin `fundamental`: `(0, 0)` where it lies at or above the last bin, else
/// the interpolated frequency and the magnitude of the local peak around
/// the expected bin.
pub open spec fn harmonic_of(
    mags: Seq<i64>,
    fundamental: int,
    factor: int,
    sample_rate: int,
) -> (int, int) {
    let x = factor * fundamental;
    if x >= HALF_N {
        (0, 0)
    } else {
        let b = peak_bin(mags, harmonic_lo(x), harmonic_hi(x));
        let offset = parabolic_offset(mags[b - 1] as int, mags[b] as int, mags[b + 1] as int);
        (bin_to_hz(b * UNIT + offset, sample_rate), mags[b] as int)
    }
}

/// The multiple of the fundamental that harmonic `i` stands for.
pub open spec fn harmonic_factor_of(i: int) -> int {
    if i == 0 {
        2
    } else if i == 1 {
        3
    } else if i == 2 {
        4
    } else if i == 3 {
        6
    } else {
        8
    }
}

/// The bins shown in the band display: those of `lo..=hi`, at most
/// `BAND_DISP_CAP` of them.
pub open spec fn band_display_of(mags: Seq<i64>, lo: int, hi: int) -> Seq<i64> {
    let len = if hi - lo + 1 > BAND_DISP_CAP {
        BAND_DISP_CAP as int
    } else {
        hi - lo + 1
    };
    mags.subrange(lo, lo + len)
}

/// The band of bins within 120 cents of the centre frequency.
pub fn band_range(sample_rate: i64) -> (r: (usize, usize))
    ensures
        r.0 == band_low_bin(sample_rate as int),
        r.1 == band_high_bin(sample_rate as int),
        r.0 <= r.1 <= HALF_N,
{
    if sample_rate <= 0 {
        return (HALF_N, HALF_N);
    }
    let width: i128 = sample_rate as i128;
    let low_raw: i128 = ceil_div(mul_wide(BAND_LOW_HZ, WINDOW_SAMPLES as i64), width);
    let high_raw: i128 = floor_div(mul_wide(BAND_HIGH_HZ, WINDOW_SAMPLES as i64), width);
    proof {
        lemma_div_pos_is_pos(BAND_HIGH_HZ * WINDOW_SAMPLES, width as int);
    }
    let low: usize = if low_raw > HALF_N as i128 { HALF_N } else { low_raw as usize };
    let high: usize = if high_raw > HALF_N as i128 {
        HALF_N
    } else if high_raw < low as i128 {
        low
    } else {
        high_raw as usize
    };
    (low, high)
}

/// The peak of bins `lo..=hi`: the first bin of greatest magnitude, and
/// that magnitude; `(lo, 0)` where no magnitude is positive.
pub fn peak_search(mags: &Vec<i64>, lo: usize, hi: usize) -> (r: (usize, i64))
    requires
        lo <= hi < mags.len(),
    ensures
        r.0 == peak_bin(mags@, lo as int, hi as int),
        r.1 == peak_mag(mags@, lo as int, hi as int),
        lo <= r.0 <= hi,
        r.1 >= 0,
        forall|b: int| lo <= b <= hi ==> mags@[b] <= r.1,
        r.1 > 0 ==> mags@[r.0 as int] == r.1,
        forall|b: int| lo <= b < r.0 ==> mags@[b] < r.1,
        r.1 == 0 ==> r.0 == lo,
{
    proof {
        lemma_peak(mags@, lo as int, hi as int);
    }
    let mut best_bin: usize = lo;
    let mut best_mag: i64 = 0;
    let mut b: usize = lo;
    proof {
        assert(peak_mag(mags@, lo as int, lo - 1) == 0);
    }
    while b <= hi
        invariant
            lo <= b <= hi + 1,
            hi < mags.len(),
            best_mag == peak_mag(mags@, lo as int, b - 1),
            b > lo ==> best_bin == peak_bin(mags@, lo as int, b - 1),
            b == lo ==> best_bin == lo,
            lo <= best_bin <= hi,
            best_mag >= 0,
        decreases hi + 1 - b,
    {
        let m: i64 = mags[b];
        if m > best_mag {
            best_mag = m;
            best_bin = b;
        }
        b += 1;
    }
    (best_bin, best_mag)
}

/// The multiple of the fundamental that harmonic `i` stands for: 2, 3, 4,
/// 6, 8.
pub fn harmonic_factor(i: usize) -> (k: u32)
    requires
        i < HARM_COUNT,
    ensures
        k == harmonic_factor_of(i as int),
{
    if i == 0 {
        2
    } else if i == 1 {
        3
    } else if i == 2 {
        4
    } else if i == 3 {
        6
    } else {
        8
    }
}

/// The frequency and magnitude of one harmonic of the fundamental at bin
/// `fundamental`, read off the coarse spectrum.
pub fn harmonic(mags: &Vec<i64>, fundamental: usize, factor: u32, sample_rate: i64) -> (r: (
    i64,
    i64,
))
    requires
        mags.len() == HALF_N + 1,
    ensures
        (r.0 as int, r.1 as int) == harmonic_of(
            mags@,
            fundamental as int,
            factor as int,
            sample_rate as int,
        ),
{
    assert(0 <= factor * fundamental <= 0x1_0000_0000 * 0x1_0000_0000_0000_0000)
        by (nonlinear_arith)
        requires
            0 <= factor <= 0x1_0000_0000,
            0 <= fundamental <= 0x1_0000_0000_0000_0000,
    ;
    let x_wide: u128 = factor as u128 * fundamental as u128;
    if x_wide >= HALF_N as u128 {
        return (0, 0);
    }
    let x: usize = x_wide as usize;
    let lo: usize = if x < 1 + HARM_REACH { 1 } else { x - HARM_REACH };
    let hi: usize = if x + HARM_REACH > HALF_N - 1 { HALF_N - 1 } else { x + HARM_REACH };
    let (b, _level) = peak_search(mags, lo, hi);
    let y1: i128 = mags[b - 1] as i128;
    let y2: i128 = mags[b] as i128;
    let y3: i128 = mags[b + 1] as i128;
    let denom: i128 = y1 - 2 * y2 + y3;
    let slope: i128 = y1 - y3;
    assert(-0x2_0000_0000_0000_0000 * 1_000_000_000_000 <= slope * UNIT
        <= 0x2_0000_0000_0000_0000 * 1_000_000_000_000) by (nonlinear_arith)
        requires
            -0x2_0000_0000_0000_0000 <= slope <= 0x2_0000_0000_0000_0000,
            UNIT == 1_000_000_000_000,
    ;
    let offset: i64 = if denom > 1 || denom < -1 {
        saturate(floor_div_signed(slope * UNIT as i128, 2 * denom))
    } else {
        0
    };
    let bin: i128 = b as i128 * UNIT as i128 + offset as i128;
    (fractional_bin_hz(bin, sample_rate), mags[b])
}

/// The frequency in hertz of a fractional bin of the coarse spectrum.
pub(crate) fn fractional_bin_hz(bin: i128, sample_rate: i64) -> (f: i64)
    requires
        -0x8040_0000_0000_0000 <= bin <= 0x8040_0000_0000_0000,
    ensures
        f == bin_to_hz(bin as int, sample_rate as int),
{
    if sample_rate <= 0 {
        return 0;
    }
    assert(-0x8040_0000_0000_0000 * 0x8000_0000_0000_0000 <= bin * sample_rate
        <= 0x8040_0000_0000_0000 * 0x8000_0000_0000_0000) by (nonlinear_arith)
        requires
            -0x8040_0000_0000_0000 <= bin <= 0x8040_0000_0000_0000,
            0 <= sample_rate <= 0x8000_0000_0000_0000,
    ;
    saturate(floor_div(bin * sample_rate as i128, 65_536_000_000_000_000))
}

/// The magnitudes of the bins of the band, for display.
pub fn band_display(mags: &Vec<i64>, lo: usize, hi: usize) -> (out: Vec<i64>)
    requires
        lo <= hi < mags.len(),
    ensures
        out@ == band_display_of(mags@, lo as int, hi as int),
        out.len() <= BAND_DISP_CAP,
{
    let span: usize = hi - lo + 1;
    let len: usize = if span > BAND_DISP_CAP { BAND_DISP_CAP } else { span };
    let mut out: Vec<i64> = Vec::new();
    let mut i: usize = 0;
    while i < len
        invariant
            i <= len,
            lo + len <= mags.len(),
            out@ == mags@.subrange(lo as int, lo + i),
        decreases len - i,
    {
        out.push(mags[lo + i]);
        proof {
            assert(out@ == mags@.subrange(lo as int, lo + i + 1));
        }
        i += 1;
    }
    out
}

} // verus!
