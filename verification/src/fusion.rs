//! Fusion of the estimates: the smoothed best guess and the hybrid of the
//! lock-in and the FFT.

use vstd::prelude::*;
use crate::fixed::{clamp, floor_div, mul_wide, sat, saturate, UNIT};
use crate::params::HYB_LOCK_WEIGHT_SCALE;

verus! {

/// The best guess moved a quarter of the way toward `target`.
pub open spec fn smoothed(best: int, target: int) -> int {
    best + (target - best) / 4
}

/// The ratio of the interpolated second harmonic to twice the reference;
/// one where either is not positive.
pub open spec fn fft_ratio_of(harmonic_hz: int, reference_hz: int) -> int {
    if harmonic_hz > 0 && reference_hz > 0 {
        sat((harmonic_hz * UNIT) / (2 * reference_hz))
    } else {
        UNIT as int
    }
}

/// The weight of the lock-in in the hybrid estimate, as a count of
/// `HYB_LOCK_WEIGHT_SCALE`: the envelope peak, limited to the scale.
pub open spec fn lock_weight(peak_val: int) -> int {
    clamp(peak_val, 0, HYB_LOCK_WEIGHT_SCALE as int)
}

/// The weighted mean of the lock-in ratio and the FFT ratio.
pub open spec fn hybrid_of(lock_ratio: int, fft_ratio: int, peak_val: int) -> int {
    let w = lock_weight(peak_val);
    sat((w * lock_ratio + (HYB_LOCK_WEIGHT_SCALE - w) * fft_ratio) / (HYB_LOCK_WEIGHT_SCALE as int))
}

/// A smoothed value lies between the old value and the target.
pub proof fn lemma_smoothed_between(best: int, target: int)
    ensures
        best <= target ==> best <= smoothed(best, target) <= target,
        target <= best ==> target <= smoothed(best, target) <= best,
{
}

/// Moves the best guess a quarter of the way toward `target`.
pub fn smooth(best: i64, target: i64) -> (next: i64)
    ensures
        next == smoothed(best as int, target as int),
{
    let step: i128 = floor_div(target as i128 - best as i128, 4);
    (best as i128 + step) as i64
}

/// The ratio that the coarse spectrum gives for the second harmonic.
pub fn fft_ratio(harmonic_hz: i64, reference_hz: i64) -> (r: i64)
    ensures
        r == fft_ratio_of(harmonic_hz as int, reference_hz as int),
{
    if harmonic_hz > 0 && reference_hz > 0 {
        saturate(floor_div(mul_wide(harmonic_hz, UNIT), 2 * (reference_hz as i128)))
    } else {
        UNIT
    }
}

/// Blends the lock-in ratio with the FFT ratio by the strength of the
/// envelope peak.
pub fn hybrid(lock_ratio: i64, fft_ratio: i64, peak_val: i64) -> (r: i64)
    ensures
        r == hybrid_of(lock_ratio as int, fft_ratio as int, peak_val as int),
{
    let w: i64 = if peak_val < 0 {
        0
    } else if peak_val > HYB_LOCK_WEIGHT_SCALE {
        HYB_LOCK_WEIGHT_SCALE
    } else {
        peak_val
    };
    let locked: i128 = mul_wide(w, lock_ratio);
    let rest: i128 = mul_wide(HYB_LOCK_WEIGHT_SCALE - w, fft_ratio);
    assert(-20_000_000_000 * 0x8000_0000_0000_0000 <= w * lock_ratio <= 20_000_000_000
        * 0x8000_0000_0000_0000) by (nonlinear_arith)
        requires
            0 <= w <= 20_000_000_000,
            -0x8000_0000_0000_0000 <= lock_ratio <= 0x8000_0000_0000_0000,
    ;
    let v: i64 = HYB_LOCK_WEIGHT_SCALE - w;
    assert(-20_000_000_000 * 0x8000_0000_0000_0000 <= v * fft_ratio <= 20_000_000_000
        * 0x8000_0000_0000_0000) by (nonlinear_arith)
        requires
            0 <= v <= 20_000_000_000,
            -0x8000_0000_0000_0000 <= fft_ratio <= 0x8000_0000_0000_0000,
    ;
    saturate(floor_div(locked + rest, HYB_LOCK_WEIGHT_SCALE as i128))
}

} // verus!
