//! The lock-in demodulator's bookkeeping: when a harmonic is demodulated,
//! how the phase drift between two windows becomes a reading, how a raw
//! reading is bounded, what persists between passes, and the peak of the
//! strike envelope.

use vstd::prelude::*;
use crate::fixed::{clamp, floor_div, mul_wide, sat, saturate, UNIT};
use crate::params::{CAP2_DECIM, CENTS_LIMIT, FFT_N, HALF_TURN, MIN_RATIO, WHOLE_TURN};
use crate::signal::{isqrt, isqrt_of};
use crate::spectrum::{peak_bin, peak_mag, peak_search};

verus! {

/// A complex amplitude: the demodulation integral of one window, aligned
/// to absolute time.
#[derive(Clone, Copy, Debug, PartialEq, Eq, Structural)]
pub struct Phasor {
    pub re: i64,
    pub im: i64,
}

/// What is measured of one harmonic in one pass: the aligned integral, the
/// phase by which it drifted since the last pass, in radians, and the ratio
/// that the drift stands for, expressed in cents.
#[derive(Clone, Copy, Debug, PartialEq, Eq, Structural)]
pub struct LockinSample {
    pub z: Phasor,
    pub delta_phi: i64,
    pub cents: i64,
}

/// What the host tells of the phase drift of one harmonic in one pass: the
/// drift since the last pass, in radians, and the ratio that the drift
/// stands for, expressed in cents.
#[derive(Clone, Copy, Debug, PartialEq, Eq, Structural)]
pub struct Drift {
    pub delta_phi: i64,
    pub cents: i64,
}

/// One lock-in reading: the frequency ratio against the reference, the same
/// in cents, and the magnitude of the demodulated signal.
#[derive(Clone, Copy, Debug, PartialEq, Eq, Structural)]
pub struct Reading {
    pub ratio: i64,
    pub cents: i64,
    pub mag: i64,
}

/// What a pass measured of one harmonic: the aligned integral and the raw
/// reading.
#[derive(Clone, Copy, Debug, PartialEq, Eq, Structural)]
pub struct Measurement {
    pub z: Phasor,
    pub reading: Reading,
}

/// What the demodulator of one harmonic keeps between passes: whether an
/// earlier pass left an integral to compare with, that integral, and the
/// last reading.
#[derive(Clone, Copy, Debug, PartialEq, Eq, Structural)]
pub struct LockinState {
    pub has_prev: bool,
    pub prev: Phasor,
    pub last: Reading,
}

/// The peak of the strike envelope of one pass.
#[derive(Clone, Copy, Debug, PartialEq, Eq, Structural)]
pub struct Envelope {
    pub len: usize,
    pub peak_idx: usize,
    pub peak_val: i64,
    pub peak_ms: i64,
}

/// The reading of a harmonic that is not demodulated: ratio one, no offset,
/// no magnitude.
pub open spec fn idle_reading() -> Reading {
    Reading { ratio: UNIT, cents: 0, mag: 0 }
}

/// Harmonic `k` of the reference `f_ref` is demodulated when its frequency
/// is positive and below nine tenths of the decimated sample rate.
pub open spec fn lockin_enabled_for(f_ref: int, k: int, sample_rate: int) -> bool {
    0 < k * f_ref && 20 * (k * f_ref) < 9 * sample_rate
}

/// An offset in cents limited to 50 either way.
pub open spec fn limited_cents(cents: i64) -> i64 {
    clamp(cents as int, -CENTS_LIMIT, CENTS_LIMIT as int) as i64
}

/// A raw reading with its ratio raised to at least 10⁻¹² and its cents
/// limited to 50 either way.
pub open spec fn settled(raw: Reading) -> Reading {
    Reading {
        ratio: if raw.ratio < MIN_RATIO {
            MIN_RATIO
        } else {
            raw.ratio
        },
        cents: limited_cents(raw.cents),
        mag: raw.mag,
    }
}

/// A phase drift limited to half a turn either way.
pub open spec fn limited_phase(delta_phi: int) -> int {
    clamp(delta_phi, -HALF_TURN, HALF_TURN as int)
}

/// The frequency offset, in hertz, that a phase drift of `delta_phi`
/// radians over `gap` samples at the input rate stands for: the drift in
/// turns divided by the time between the windows. Without time between the
/// windows, or without a positive sample rate, there is no offset to tell.
pub open spec fn drift_hz(delta_phi: int, gap: int, sample_rate: int) -> int {
    if gap <= 0 || sample_rate <= 0 {
        0
    } else {
        sat((limited_phase(delta_phi) * sample_rate) / (WHOLE_TURN * gap))
    }
}

/// The ratio of the measured frequency to the demodulation frequency
/// `f_k`: one plus the frequency offset over `f_k`.
pub open spec fn drift_ratio_of(delta_phi: int, gap: int, sample_rate: int, f_k: int) -> int {
    if f_k <= 0 {
        UNIT as int
    } else {
        sat(UNIT + (drift_hz(delta_phi, gap, sample_rate) * UNIT) / f_k)
    }
}

/// The magnitude of a complex amplitude, rounded down.
pub open spec fn magnitude_of(z: Phasor) -> int {
    isqrt_of((z.re * z.re + z.im * z.im) as nat) as int
}

/// The magnitude of a lock-in reading: that of the integral over the
/// length of the window.
pub open spec fn lockin_mag_of(z: Phasor) -> i64 {
    (magnitude_of(z) / (FFT_N as int)) as i64
}

/// A component of a complex amplitude, kept within the range that negation
/// keeps.
pub open spec fn symmetric(x: i64) -> int {
    if x == i64::MIN {
        -i64::MAX
    } else {
        x as int
    }
}

/// The product of a complex amplitude with the conjugate of an earlier
/// one, real part first: its argument is the phase by which the amplitude
/// drifted.
pub open spec fn phase_product_of(z: Phasor, prev: Phasor) -> (int, int) {
    (
        symmetric(z.re) * symmetric(prev.re) + symmetric(z.im) * symmetric(prev.im),
        symmetric(z.im) * symmetric(prev.re) - symmetric(z.re) * symmetric(prev.im),
    )
}

/// What a sample of harmonic `k` stands for: its integral, and the raw
/// reading made of the ratio of its phase drift, its cents, and the
/// magnitude of its integral.
pub open spec fn measurement_of(
    sample: LockinSample,
    gap: int,
    sample_rate: int,
    f_ref: int,
    k: int,
) -> Measurement {
    Measurement {
        z: sample.z,
        reading: Reading {
            ratio: drift_ratio_of(sample.delta_phi as int, gap, sample_rate, k * f_ref) as i64,
            cents: sample.cents,
            mag: lockin_mag_of(sample.z),
        },
    }
}

/// The state of a demodulator before the first pass.
pub open spec fn lockin_at_rest() -> LockinState {
    LockinState { has_prev: false, prev: Phasor { re: 0, im: 0 }, last: idle_reading() }
}

/// A pass yields a new reading when the harmonic is demodulated and an
/// earlier pass left a phase to compare with.
pub open spec fn lockin_measured(state: LockinState, enabled: bool) -> bool {
    enabled && state.has_prev
}

/// The demodulator's state after a pass. A harmonic that is not
/// demodulated reads idle and keeps what it had. A demodulated harmonic
/// keeps the integral of this pass; on its first pass there is nothing to
/// compare with and the reading stays, afterwards the reading becomes the
/// settled raw reading.
pub open spec fn lockin_next(state: LockinState, enabled: bool, m: Measurement) -> LockinState {
    if !enabled {
        LockinState { last: idle_reading(), ..state }
    } else if state.has_prev {
        LockinState { has_prev: true, prev: m.z, last: settled(m.reading) }
    } else {
        LockinState { has_prev: true, prev: m.z, last: state.last }
    }
}

/// The time in milliseconds from the start of the window to envelope index
/// `idx`, each index spanning `CAP2_DECIM` samples at the input rate.
pub open spec fn envelope_ms(idx: int, sample_rate: int) -> int {
    if sample_rate <= 0 {
        if idx == 0 {
            0
        } else {
            i64::MAX as int
        }
    } else {
        sat((idx * (CAP2_DECIM * 1000) * (UNIT * UNIT)) / sample_rate)
    }
}

/// The peak of an envelope: its first greatest value, where that is
/// positive, else index zero and value zero.
pub open spec fn envelope_of(env: Seq<i64>, sample_rate: int) -> Envelope {
    let idx = if env.len() == 0 {
        0
    } else {
        peak_bin(env, 0, env.len() - 1)
    };
    Envelope {
        len: env.len() as usize,
        peak_idx: idx as usize,
        peak_val: peak_mag(env, 0, env.len() - 1) as i64,
        peak_ms: envelope_ms(idx, sample_rate) as i64,
    }
}

/// The product of two symmetric components is within 2¹²⁶ of zero.
pub proof fn lemma_symmetric_product(x: int, y: int)
    requires
        -0x7fff_ffff_ffff_ffff <= x <= 0x7fff_ffff_ffff_ffff,
        -0x7fff_ffff_ffff_ffff <= y <= 0x7fff_ffff_ffff_ffff,
    ensures
        -0x3fff_ffff_ffff_ffff_0000_0000_0000_0001 <= x * y
            <= 0x3fff_ffff_ffff_ffff_0000_0000_0000_0001,
{
    assert(-0x7fff_ffff_ffff_ffff * 0x7fff_ffff_ffff_ffff <= x * y <= 0x7fff_ffff_ffff_ffff
        * 0x7fff_ffff_ffff_ffff) by (nonlinear_arith)
        requires
            -0x7fff_ffff_ffff_ffff <= x <= 0x7fff_ffff_ffff_ffff,
            -0x7fff_ffff_ffff_ffff <= y <= 0x7fff_ffff_ffff_ffff,
    ;
}

/// The state before the first pass.
pub fn lockin_initial() -> (state: LockinState)
    ensures
        state == lockin_at_rest(),
{
    LockinState {
        has_prev: false,
        prev: Phasor { re: 0, im: 0 },
        last: Reading { ratio: UNIT, cents: 0, mag: 0 },
    }
}

/// Whether harmonic `k` of the reference frequency `f_ref` is demodulated
/// at this sample rate.
pub fn lockin_enabled(f_ref: i64, k: u32, sample_rate: i64) -> (on: bool)
    ensures
        on == lockin_enabled_for(f_ref as int, k as int, sample_rate as int),
{
    let f_k: i128 = mul_wide(k as i64, f_ref);
    let limit: i128 = sample_rate as i128;
    assert(-0x1_0000_0000 * 0x8000_0000_0000_0000 <= k * f_ref <= 0x1_0000_0000
        * 0x8000_0000_0000_0000) by (nonlinear_arith)
        requires
            0 <= k <= 0x1_0000_0000,
            -0x8000_0000_0000_0000 <= f_ref <= 0x8000_0000_0000_0000,
    ;
    0 < f_k && 20 * f_k < 9 * limit
}

/// Converts the phase drift between two windows into the ratio of the
/// measured frequency to the demodulation frequency, harmonic `k` of
/// `f_ref`. The time between the windows is `gap` samples at the input
/// rate.
pub fn drift_ratio(delta_phi: i64, gap: u64, sample_rate: i64, f_ref: i64, k: u32) -> (r: i64)
    ensures
        r == drift_ratio_of(delta_phi as int, gap as int, sample_rate as int, k * f_ref),
{
    let f_k: i128 = mul_wide(k as i64, f_ref);
    if f_k <= 0 {
        return UNIT;
    }
    let hz: i64 = if gap == 0 || sample_rate <= 0 {
        0
    } else {
        let phase: i64 = if delta_phi < -HALF_TURN {
            -HALF_TURN
        } else if delta_phi > HALF_TURN {
            HALF_TURN
        } else {
            delta_phi
        };
        let turns: i128 = mul_wide(phase, sample_rate);
        let span: i128 = WHOLE_TURN as i128 * gap as i128;
        saturate(floor_div(turns, span))
    };
    let offset: i128 = floor_div(mul_wide(hz, UNIT), f_k);
    assert(-0x8000_0000_0000_0000 * 1_000_000_000_000 <= hz * UNIT <= 0x8000_0000_0000_0000
        * 1_000_000_000_000) by (nonlinear_arith)
        requires
            -0x8000_0000_0000_0000 <= hz <= 0x8000_0000_0000_0000,
            UNIT == 1_000_000_000_000,
    ;
    proof {
        crate::fixed::lemma_floor_div_bounded(hz * UNIT, f_k as int);
    }
    saturate(UNIT as i128 + offset)
}

/// The magnitude of a complex amplitude, rounded down.
pub fn magnitude(z: Phasor) -> (m: u64)
    ensures
        m == magnitude_of(z),
{
    assert(0 <= z.re * z.re <= 0x4000_0000_0000_0000_0000_0000_0000_0000) by (nonlinear_arith)
        requires
            -0x8000_0000_0000_0000 <= z.re <= 0x8000_0000_0000_0000,
    ;
    assert(0 <= z.im * z.im <= 0x4000_0000_0000_0000_0000_0000_0000_0000) by (nonlinear_arith)
        requires
            -0x8000_0000_0000_0000 <= z.im <= 0x8000_0000_0000_0000,
    ;
    let squares: u128 = mul_wide(z.re, z.re) as u128 + mul_wide(z.im, z.im) as u128;
    isqrt(squares)
}

/// The magnitude of the lock-in reading with aligned integral `z`.
pub fn lockin_magnitude(z: Phasor) -> (m: i64)
    ensures
        m == lockin_mag_of(z),
{
    (magnitude(z) / FFT_N as u64) as i64
}

/// The product of the aligned integral of this pass with the conjugate of
/// that of the last pass, real part first.
pub fn phase_product(z: Phasor, prev: Phasor) -> (d: (i128, i128))
    ensures
        (d.0 as int, d.1 as int) == phase_product_of(z, prev),
{
    let a: i64 = if z.re == i64::MIN { -i64::MAX } else { z.re };
    let b: i64 = if z.im == i64::MIN { -i64::MAX } else { z.im };
    let c: i64 = if prev.re == i64::MIN { -i64::MAX } else { prev.re };
    let e: i64 = if prev.im == i64::MIN { -i64::MAX } else { prev.im };
    proof {
        lemma_symmetric_product(a as int, c as int);
        lemma_symmetric_product(b as int, e as int);
        lemma_symmetric_product(b as int, c as int);
        lemma_symmetric_product(a as int, e as int);
    }
    (mul_wide(a, c) + mul_wide(b, e), mul_wide(b, c) - mul_wide(a, e))
}

/// What a sample of harmonic `k` of `f_ref` stands for, `gap` samples at
/// the input rate after the last pass.
pub fn measure(sample: LockinSample, gap: u64, sample_rate: i64, f_ref: i64, k: u32) -> (m:
    Measurement)
    ensures
        m == measurement_of(sample, gap as int, sample_rate as int, f_ref as int, k as int),
{
    Measurement {
        z: sample.z,
        reading: Reading {
            ratio: drift_ratio(sample.delta_phi, gap, sample_rate, f_ref, k),
            cents: sample.cents,
            mag: lockin_magnitude(sample.z),
        },
    }
}

/// Limits an offset in cents to 50 either way.
pub fn limit_cents(cents: i64) -> (c: i64)
    ensures
        c == limited_cents(cents),
        -CENTS_LIMIT <= c <= CENTS_LIMIT,
{
    if cents < -CENTS_LIMIT {
        -CENTS_LIMIT
    } else if cents > CENTS_LIMIT {
        CENTS_LIMIT
    } else {
        cents
    }
}

/// Bounds a raw reading.
pub fn settle(raw: Reading) -> (r: Reading)
    ensures
        r == settled(raw),
{
    let ratio: i64 = if raw.ratio < MIN_RATIO { MIN_RATIO } else { raw.ratio };
    Reading { ratio, cents: limit_cents(raw.cents), mag: raw.mag }
}

/// Advances the demodulator's state over one pass.
pub fn lockin_step(state: LockinState, enabled: bool, m: Measurement) -> (next: LockinState)
    ensures
        next == lockin_next(state, enabled, m),
{
    if !enabled {
        LockinState {
            has_prev: state.has_prev,
            prev: state.prev,
            last: Reading { ratio: UNIT, cents: 0, mag: 0 },
        }
    } else if state.has_prev {
        LockinState { has_prev: true, prev: m.z, last: settle(m.reading) }
    } else {
        LockinState { has_prev: true, prev: m.z, last: state.last }
    }
}

/// Finds the peak of a strike envelope and the time at which it lies.
pub fn envelope_peak(env: &Vec<i64>, sample_rate: i64) -> (e: Envelope)
    ensures
        e == envelope_of(env@, sample_rate as int),
{
    let len: usize = env.len();
    let (idx, val) = if len == 0 {
        (0usize, 0i64)
    } else {
        peak_search(env, 0, len - 1)
    };
    let ms: i64 = if sample_rate <= 0 {
        if idx == 0 {
            0
        } else {
            i64::MAX
        }
    } else {
        let span: i128 = idx as i128 * 32000;
        if span >= 0x8000_0000_0000 {
            // the time is beyond what 64 bits hold
            proof {
                let rate: int = sample_rate as int;
                let whole: int = span * (UNIT * UNIT);
                assert(UNIT * UNIT == 1_000_000_000_000_000_000_000_000) by (nonlinear_arith)
                    requires
                        UNIT == 1_000_000_000_000,
                ;
                assert(whole >= 0x8000_0000_0000_0000 * rate) by (nonlinear_arith)
                    requires
                        whole == span * 1_000_000_000_000_000_000_000_000,
                        span >= 0x8000_0000_0000,
                        0 < rate <= 0x7fff_ffff_ffff_ffff,
                ;
                vstd::arithmetic::div_mod::lemma_div_is_ordered(
                    0x8000_0000_0000_0000 * rate,
                    whole,
                    rate,
                );
                vstd::arithmetic::div_mod::lemma_div_multiples_vanish(0x8000_0000_0000_0000, rate);
                assert(0x8000_0000_0000_0000 * rate == rate * 0x8000_0000_0000_0000)
                    by (nonlinear_arith);
            }
            i64::MAX
        } else {
            assert(UNIT * UNIT == 1_000_000_000_000_000_000_000_000) by (nonlinear_arith)
                requires
                    UNIT == 1_000_000_000_000,
            ;
            saturate(floor_div(span * 1_000_000_000_000_000_000_000_000, sample_rate as i128))
        }
    };
    Envelope { len, peak_idx: idx, peak_val: val, peak_ms: ms }
}

} // verus!
