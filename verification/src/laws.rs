//! Laws of the engine: what holds of every state and every input.

use vstd::prelude::*;
use vstd::arithmetic::div_mod::{
    lemma_div_is_ordered,
    lemma_fundamental_div_mod,
    lemma_fundamental_div_mod_converse,
    lemma_mod_bound,
    lemma_mod_multiples_vanish,
};
use crate::capture::attack_latched;
use crate::demod::{
    envelope_levels,
    integral_of,
    lemma_silent_correlation,
    turned,
    unit_limited,
};
use crate::engine::{
    after_demodulation,
    after_pass,
    after_quantum,
    after_spectrum,
    engine_initial,
    flag,
    quantum_of,
    time_of,
    with_write_pos,
    EngineView,
    Quantum,
};
use crate::fixed::{lemma_floor_div_bounded, UNIT};
use crate::fusion::{fft_ratio_of, hybrid_of, lock_weight};
use crate::history::{pushed, tail};
use crate::lockin::{
    drift_hz,
    drift_ratio_of,
    idle_reading,
    limited_phase,
    lockin_enabled_for,
    lockin_mag_of,
    settled,
    Drift,
    Measurement,
    Phasor,
    Reading,
};
use crate::long_average::{long_armed, long_freezes, long_next, LongView};
use crate::params::{
    CAP2_N,
    FFT_N,
    HALF_N,
    HYB_LOCK_WEIGHT_SCALE,
    LONG2_BUF,
    LONG2_MAD_THRESH_PPM,
    LONG2_MIN,
    MIN_RATIO,
    PPM,
    STAB_BUF,
    STAB_WIN,
    WHOLE_TURN,
    WINDOW_SAMPLES,
    ZOOM_BINS,
    ZOOM_BIN_CENTS,
    ZOOM_N,
};
use crate::ring::{lemma_stored_block, lemma_stored_len, recent_samples, stored_block, wrap_back};
use crate::signal::{is_sqrt, lemma_is_sqrt, lemma_sum_squares_zero, time_buffer_of};
use crate::spectrum::{harmonic_of, lemma_peak, peak_bin, peak_mag};
use crate::stability::window_median_ratio;
use crate::stats::{lemma_middle_bounds, lemma_sort_ascending, leq, mad, median};
use crate::tracker::{
    after_attack,
    after_lockin,
    attack_now,
    concluded,
    stable,
    tracker_reset,
    PassContext,
    TrackerView,
};
use crate::zoom::{shifted_bin, spectra_wf, super_grid, zoom_cents_of};

verus! {

/// Every quantum that delivers samples to an engine with a ring raises the
/// sample count, as long as the count has not reached the greatest value
/// it can hold; a skipped quantum changes nothing.
pub proof fn law_sample_count_grows(v: EngineView, n: nat)
    ensures
        quantum_of(v, n) == Quantum::Skipped ==> after_quantum(v, n) == v,
        quantum_of(v, n) != Quantum::Skipped ==> after_quantum(v, n).total_samples
            >= v.total_samples,
        quantum_of(v, n) != Quantum::Skipped && v.total_samples < u64::MAX ==> after_quantum(
            v,
            n,
        ).total_samples > v.total_samples,
{
}

/// After a reset the capture flag reads zero and the long average is not
/// ready, whatever the state before.
pub proof fn law_reset_clears_capture(v: TrackerView)
    ensures
        flag(tracker_reset(v).capture.valid) == 0,
        flag(tracker_reset(v).long.ready) == 0,
{
}

/// An accepted attack takes precedence over stability: the pass latches
/// the reading of the second harmonic with the envelope peak, and arms the
/// long average, which takes that reading as its first.
pub proof fn law_attack_takes_precedence(
    v: TrackerView,
    ctx: PassContext,
    m2: Measurement,
    m1: Measurement,
)
    requires
        attack_now(after_lockin(v, ctx, m2, m1), ctx),
    ensures
        ({
            let reading = after_lockin(v, ctx, m2, m1).lockin2.last;
            let end = concluded(v, ctx, m2, m1);
            &&& end.capture == attack_latched(ctx.envelope, reading.ratio, ctx.total)
            &&& end.long.active
            &&& !end.long.ready
            &&& end.long.entries == seq![reading.ratio]
        }),
{
    let armed = after_attack(after_lockin(v, ctx, m2, m1), ctx);
    assert(armed.long.entries.push(armed.lockin2.last.ratio) == seq![armed.lockin2.last.ratio]);
}

/// A demodulator without history measures nothing. On a pass that finds a
/// harmonic without an integral to compare with, every lock-in output of
/// that harmonic keeps its value where the harmonic is demodulated, and
/// reads idle where it is not. Where that harmonic is the second, the
/// stability history, the stability figures, the best guess and the hybrid
/// estimate stay as they are.
pub proof fn law_no_reading_without_history(
    v: TrackerView,
    ctx: PassContext,
    m2: Measurement,
    m1: Measurement,
)
    ensures
        ({
            let end = concluded(v, ctx, m2, m1);
            let on2 = lockin_enabled_for(ctx.reference_hz as int, 2, ctx.sample_rate as int);
            let on1 = lockin_enabled_for(ctx.reference_hz as int, 1, ctx.sample_rate as int);
            &&& !v.lockin2.has_prev && on2 ==> end.lockin2.last == v.lockin2.last
            &&& !v.lockin1.has_prev && on1 ==> end.lockin1.last == v.lockin1.last
            &&& !on2 ==> end.lockin2.last == idle_reading()
            &&& !on1 ==> end.lockin1.last == idle_reading()
            &&& !v.lockin2.has_prev ==> {
                &&& end.stab_ratio == v.stab_ratio
                &&& end.stab_cents == v.stab_cents
                &&& end.stats == v.stats
                &&& end.best2_ratio == v.best2_ratio
                &&& end.hybrid_ratio == v.hybrid_ratio
            }
        }),
{
}

/// What is recorded of a pass before it is concluded leaves the tracker
/// alone, and so do a quantum and a move of the write position: only the
/// conclusion of a pass and a reset change a lock-in output.
pub proof fn law_recording_leaves_the_tracker(
    v: EngineView,
    n: nat,
    pos: usize,
    mags: Seq<i64>,
    k: int,
    window: Seq<i64>,
    cos: Seq<i64>,
    sin: Seq<i64>,
    c0: i64,
    s0: i64,
)
    ensures
        after_quantum(v, n).tracker == v.tracker,
        with_write_pos(v, pos).tracker == v.tracker,
        after_spectrum(v, mags).tracker == v.tracker,
        after_demodulation(v, k, window, cos, sin, c0, s0).tracker == v.tracker,
{
}

/// The first pass changes no lock-in output: a pass concluded on an engine
/// whose demodulators have no history leaves ratio, cents and magnitude of
/// every demodulated harmonic as they were, whatever was demodulated,
/// whatever drift the host tells of and whatever the sweeps refined.
pub proof fn law_first_pass_keeps_lockin_outputs(v: EngineView, drift2: Drift, drift1: Drift)
    requires
        !v.tracker.lockin2.has_prev,
        !v.tracker.lockin1.has_prev,
    ensures
        ({
            let end = after_pass(v, drift2, drift1).tracker;
            let on2 = lockin_enabled_for(v.reference_hz as int, 2, v.sample_rate as int);
            let on1 = lockin_enabled_for(v.reference_hz as int, 1, v.sample_rate as int);
            &&& on2 ==> end.lockin2.last == v.tracker.lockin2.last
            &&& on1 ==> end.lockin1.last == v.tracker.lockin1.last
            &&& !on2 ==> end.lockin2.last == idle_reading()
            &&& !on1 ==> end.lockin1.last == idle_reading()
        }),
{
}

/// On every pass that measures the second harmonic the hybrid estimate is
/// the blend of the reading of that pass with the ratio that the
/// interpolated second harmonic makes with twice the reference, weighted
/// by the peak of the envelope: with no envelope it is that ratio, from the
/// full-weight peak on it is the reading, and in between it lies between
/// the two.
pub proof fn law_hybrid_blends_reading_and_harmonic(
    v: EngineView,
    drift2: Drift,
    drift1: Drift,
)
    requires
        v.tracker.lockin2.has_prev,
        lockin_enabled_for(v.reference_hz as int, 2, v.sample_rate as int),
    ensures
        ({
            let end = after_pass(v, drift2, drift1).tracker;
            let reading = end.lockin2.last.ratio;
            let harmonic = fft_ratio_of(v.harm_freqs[0] as int, v.reference_hz as int);
            let peak = v.envelope.peak_val;
            &&& end.hybrid_ratio == hybrid_of(reading as int, harmonic, peak as int)
            &&& peak <= 0 ==> end.hybrid_ratio == harmonic
            &&& peak >= HYB_LOCK_WEIGHT_SCALE ==> end.hybrid_ratio == reading
            &&& reading <= harmonic ==> reading <= end.hybrid_ratio <= harmonic
            &&& harmonic <= reading ==> harmonic <= end.hybrid_ratio <= reading
        }),
{
    let end = after_pass(v, drift2, drift1).tracker;
    let harmonic: int = fft_ratio_of(v.harm_freqs[0] as int, v.reference_hz as int);
    assert(i64::MIN <= harmonic <= i64::MAX);
    law_hybrid_lies_between(end.lockin2.last.ratio, harmonic as i64, v.envelope.peak_val);
}

/// Steady readings are captured: where a pass measures the second
/// harmonic, no capture is valid, no attack is latched, and the recent
/// readings with the new one are stable, the pass latches the median of
/// the recent ratios.
pub proof fn law_steady_readings_are_captured(
    v: TrackerView,
    ctx: PassContext,
    m2: Measurement,
    m1: Measurement,
)
    requires
        v.lockin2.has_prev,
        lockin_enabled_for(ctx.reference_hz as int, 2, ctx.sample_rate as int),
        !v.capture.valid,
        !attack_now(after_lockin(v, ctx, m2, m1), ctx),
        stable(
            pushed(v.stab_ratio, settled(m2.reading).ratio, STAB_BUF as nat),
            pushed(v.stab_cents, settled(m2.reading).cents, STAB_BUF as nat),
        ),
    ensures
        ({
            let end = concluded(v, ctx, m2, m1);
            &&& end.capture.valid
            &&& end.capture.ratio == window_median_ratio(end.stab_ratio, STAB_WIN as nat)
            &&& end.capture.mag == m2.reading.mag
            &&& end.capture.last_samples == ctx.total
        }),
{
}

/// A pass never invalidates a capture, and it changes a valid capture only
/// by latching an attack.
pub proof fn law_capture_holds(
    v: TrackerView,
    ctx: PassContext,
    m2: Measurement,
    m1: Measurement,
)
    requires
        v.capture.valid,
    ensures
        concluded(v, ctx, m2, m1).capture.valid,
        !attack_now(after_lockin(v, ctx, m2, m1), ctx) ==> concluded(
            v,
            ctx,
            m2,
            m1,
        ).capture == v.capture,
{
}

/// A harmonic whose expected bin lies at or above the last bin of the
/// coarse spectrum has frequency zero and magnitude zero.
pub proof fn law_harmonic_above_nyquist(
    mags: Seq<i64>,
    fundamental: int,
    factor: int,
    sample_rate: int,
)
    requires
        factor * fundamental >= HALF_N,
    ensures
        harmonic_of(mags, fundamental, factor, sample_rate) == (0int, 0int),
{
}

/// The rotation is its own inverse, and the fine grid holds bin `k` of
/// shift `s` at `shifted_bin(k) * shifts + s`.
pub proof fn law_fine_grid_layout(spectra: Seq<Seq<i64>>, k: int, s: int)
    requires
        spectra_wf(spectra),
        0 <= k < ZOOM_N,
        0 <= s < spectra.len(),
    ensures
        0 <= shifted_bin(k) < ZOOM_N,
        shifted_bin(shifted_bin(k)) == k,
        0 <= shifted_bin(k) * spectra.len() + s < super_grid(spectra).len(),
        super_grid(spectra)[shifted_bin(k) * spectra.len() + s] == spectra[s][k],
{
    let shifts: int = spectra.len() as int;
    let b: int = shifted_bin(k);
    let j: int = b * shifts + s;
    assert(j == shifts * b + s) by (nonlinear_arith)
        requires
            j == b * shifts + s,
    ;
    lemma_fundamental_div_mod_converse(j, shifts, b, s);
    assert(0 <= j < ZOOM_N * shifts) by (nonlinear_arith)
        requires
            j == b * shifts + s,
            0 <= b < ZOOM_N,
            0 <= s < shifts,
    ;
}

/// The hybrid estimate lies between the lock-in ratio and the FFT ratio;
/// without an envelope it is the FFT ratio, and from the full-weight peak
/// on it is the lock-in ratio.
pub proof fn law_hybrid_lies_between(lock_ratio: i64, fft_ratio: i64, peak_val: i64)
    ensures
        lock_ratio <= fft_ratio ==> lock_ratio <= hybrid_of(
            lock_ratio as int,
            fft_ratio as int,
            peak_val as int,
        ) <= fft_ratio,
        fft_ratio <= lock_ratio ==> fft_ratio <= hybrid_of(
            lock_ratio as int,
            fft_ratio as int,
            peak_val as int,
        ) <= lock_ratio,
        peak_val <= 0 ==> hybrid_of(lock_ratio as int, fft_ratio as int, peak_val as int)
            == fft_ratio,
        peak_val >= HYB_LOCK_WEIGHT_SCALE ==> hybrid_of(
            lock_ratio as int,
            fft_ratio as int,
            peak_val as int,
        ) == lock_ratio,
{
    let scale: int = HYB_LOCK_WEIGHT_SCALE as int;
    let w: int = lock_weight(peak_val as int);
    let l: int = lock_ratio as int;
    let f: int = fft_ratio as int;
    let sum: int = w * l + (scale - w) * f;
    let lo: int = if l <= f { l } else { f };
    let hi: int = if l <= f { f } else { l };
    assert(scale * lo <= sum <= scale * hi) by (nonlinear_arith)
        requires
            0 <= w <= scale,
            lo <= l <= hi,
            lo <= f <= hi,
            sum == w * l + (scale - w) * f,
    ;
    vstd::arithmetic::div_mod::lemma_div_is_ordered(scale * lo, sum, scale);
    vstd::arithmetic::div_mod::lemma_div_is_ordered(sum, scale * hi, scale);
    vstd::arithmetic::div_mod::lemma_div_multiples_vanish(lo, scale);
    vstd::arithmetic::div_mod::lemma_div_multiples_vanish(hi, scale);
    assert(scale * lo == lo * scale && scale * hi == hi * scale) by (nonlinear_arith);
    if w == 0 {
        assert(sum == scale * f) by (nonlinear_arith)
            requires
                w == 0,
                sum == w * l + (scale - w) * f,
        ;
        assert(scale * f == f * scale) by (nonlinear_arith);
        vstd::arithmetic::div_mod::lemma_div_multiples_vanish(f, scale);
    }
    if w == scale {
        assert(sum == scale * l) by (nonlinear_arith)
            requires
                w == scale,
                sum == w * l + (scale - w) * f,
        ;
        assert(scale * l == l * scale) by (nonlinear_arith);
        vstd::arithmetic::div_mod::lemma_div_multiples_vanish(l, scale);
    }
}

/// The zoom grid has 2048 bins of 240 / 2048 cents that start 120 cents
/// below the band centre and end 120 cents above it.
pub proof fn law_zoom_grid_spans_band()
    ensures
        ZOOM_BINS == 2048,
        zoom_cents_of(0) == -120 * UNIT,
        ZOOM_BIN_CENTS * 2048 == 240 * UNIT,
        zoom_cents_of(ZOOM_BINS as int) == 120 * UNIT,
{
}

/// What the producer stores is what the analysis reads: after a block
/// that fits in the ring is stored from the write position on and the
/// write position is moved past it, the most recent samples are the block.
pub proof fn law_recent_returns_the_stored_block<T>(samples: Seq<T>, pos: int, block: Seq<T>)
    requires
        samples.len() > 0,
        0 <= pos < samples.len(),
        block.len() <= samples.len(),
    ensures
        recent_samples(
            stored_block(samples, pos, block),
            (pos + block.len()) % (samples.len() as int),
            block.len(),
        ) == block,
{
    let c: int = samples.len() as int;
    let k: int = block.len() as int;
    let ring = stored_block(samples, pos, block);
    let got = recent_samples(ring, (pos + k) % c, block.len());
    lemma_stored_len(samples, pos, block);
    assert forall|i: int| 0 <= i < k implies got[i] == block[i] by {
        lemma_stored_block(samples, pos, block, i);
        let q: int = (pos + k) / c;
        lemma_fundamental_div_mod(pos + k, c);
        assert((pos + k) % c - (k - i) == c * (-q) + (pos + i)) by (nonlinear_arith)
            requires
                pos + k == c * q + (pos + k) % c,
        ;
        lemma_mod_multiples_vanish(-q, pos + i, c);
        assert(wrap_back((pos + k) % c, k - i, c) == (pos + i) % c);
    }
    assert(got =~= block);
}

/// Silence reads as silence: where every sample in the ring is zero, the
/// RMS of any quantum is zero and the time buffer of a pass holds nothing
/// but zeros, whatever the window.
pub proof fn law_silence_has_no_level(v: EngineView, n: nat, window: Seq<i64>)
    requires
        v.samples.len() > 0,
        silent(v),
        window.len() == FFT_N,
    ensures
        n > 0 ==> after_quantum(v, n).rms == 0,
        forall|i: int|
            0 <= i < window.len() ==> (#[trigger] time_buffer_of(
                recent_samples(v.samples, v.write_pos as int, WINDOW_SAMPLES as nat),
                window,
            )[i]) == 0,
{
    let c: int = v.samples.len() as int;
    if n > 0 {
        let heard = recent_samples(v.samples, v.write_pos as int, n);
        assert forall|i: int| 0 <= i < heard.len() implies heard[i] == 0 by {
            lemma_mod_bound(v.write_pos - (n - i), c);
        }
        lemma_sum_squares_zero(heard);
        assert(is_sqrt(0, 0)) by (nonlinear_arith);
        lemma_is_sqrt(0, 0);
    }
    let seen = recent_samples(v.samples, v.write_pos as int, WINDOW_SAMPLES as nat);
    assert forall|i: int| 0 <= i < window.len() implies (#[trigger] time_buffer_of(seen, window)[i])
        == 0 by {
        lemma_mod_bound(v.write_pos - (WINDOW_SAMPLES - 2 * i), c);
        lemma_mod_bound(v.write_pos - (WINDOW_SAMPLES - (2 * i + 1)), c);
        assert(seen[2 * i] == 0 && seen[2 * i + 1] == 0);
        assert(0 * window[i] == 0) by (nonlinear_arith);
    }
}

/// The ring is silent: every sample in it is zero.
pub open spec fn silent(v: EngineView) -> bool {
    forall|i: int| 0 <= i < v.samples.len() ==> v.samples[i] == 0
}

/// The engine is quiet: the ring is silent, the integrals of this pass are
/// zero, and both lock-in magnitudes read zero.
pub open spec fn quiet(v: EngineView) -> bool {
    &&& silent(v)
    &&& v.pending2 == (Phasor { re: 0, im: 0 })
    &&& v.pending1 == (Phasor { re: 0, im: 0 })
    &&& v.tracker.lockin2.last.mag == 0
    &&& v.tracker.lockin1.last.mag == 0
}

/// A silent ring has nothing to demodulate: where every sample in the ring
/// is zero, the aligned integral of either harmonic is zero and so is every
/// value of the strike envelope and its peak, whatever the window, the
/// reference and the phase.
pub proof fn law_silent_ring_has_no_integral(
    v: EngineView,
    k: int,
    window: Seq<i64>,
    cos: Seq<i64>,
    sin: Seq<i64>,
    c0: i64,
    s0: i64,
)
    requires
        v.samples.len() > 0,
        silent(v),
        window.len() == FFT_N,
    ensures
        turned(integral_of(time_of(v, window), cos, sin), c0, s0) == (Phasor { re: 0, im: 0 }),
        forall|b: int|
            0 <= b < CAP2_N ==> (#[trigger] envelope_levels(time_of(v, window), cos, sin)[b]) == 0,
        k != 1 ==> after_demodulation(v, k, window, cos, sin, c0, s0).envelope.peak_val == 0,
        silent(after_demodulation(v, k, window, cos, sin, c0, s0)),
{
    let time = time_of(v, window);
    law_silence_has_no_level(v, 1, window);
    assert forall|i: int| 0 <= i < time.len() implies time[i] == 0 by {
        assert(time_buffer_of(
            recent_samples(v.samples, v.write_pos as int, WINDOW_SAMPLES as nat),
            window,
        )[i] == 0);
    }
    lemma_silent_correlation(time, cos, 0, FFT_N as int);
    lemma_silent_correlation(time, sin, 0, FFT_N as int);
    let z = integral_of(time, cos, sin);
    assert(z == (Phasor { re: 0, im: 0 }));
    assert(0 * unit_limited(c0) == 0 && 0 * unit_limited(s0) == 0) by (nonlinear_arith);
    assert(is_sqrt(0, 0)) by (nonlinear_arith);
    lemma_is_sqrt(0, 0);
    let levels = envelope_levels(time, cos, sin);
    assert forall|b: int| 0 <= b < CAP2_N implies (#[trigger] levels[b]) == 0 by {
        lemma_silent_correlation(time, cos, 32 * b, 32 * b + 32);
        lemma_silent_correlation(time, sin, 32 * b, 32 * b + 32);
        assert(0int * 0int + 0int * 0int == 0) by (nonlinear_arith);
    }
    lemma_peak(levels, 0, levels.len() - 1);
    let top: int = peak_mag(levels, 0, levels.len() - 1);
    if top > 0 {
        assert(levels[peak_bin(levels, 0, levels.len() - 1)] == top);
    }
}

/// Silence reads no magnitude. An engine fresh from `init` is quiet, and a
/// quiet engine stays quiet through a quantum, a move of the write
/// position, a coarse spectrum, the demodulation of either harmonic and the
/// conclusion of a pass, whatever the host hands in: as long as nothing but
/// zeros is written to the ring, both lock-in magnitudes and the RMS read
/// zero after any number of passes.
pub proof fn law_silence_reads_no_magnitude(
    v: EngineView,
    n: nat,
    pos: usize,
    mags: Seq<i64>,
    k: int,
    window: Seq<i64>,
    cos: Seq<i64>,
    sin: Seq<i64>,
    c0: i64,
    s0: i64,
    drift2: Drift,
    drift1: Drift,
)
    requires
        quiet(v),
        v.samples.len() > 0,
        window.len() == FFT_N,
    ensures
        quiet(engine_initial(v.samples.len())),
        quiet(after_quantum(v, n)),
        n > 0 ==> after_quantum(v, n).rms == 0,
        quiet(with_write_pos(v, pos)),
        quiet(after_spectrum(v, mags)),
        quiet(after_demodulation(v, k, window, cos, sin, c0, s0)),
        quiet(after_pass(v, drift2, drift1)),
{
    law_silence_has_no_level(v, n, window);
    law_silent_ring_has_no_integral(v, k, window, cos, sin, c0, s0);
    assert(0int * 0int + 0int * 0int == 0) by (nonlinear_arith);
    assert(is_sqrt(0, 0)) by (nonlinear_arith);
    lemma_is_sqrt(0, 0);
    assert(lockin_mag_of(Phasor { re: 0, im: 0 }) == 0);
}

/// Setting the write position twice to the same value is the same as
/// setting it once.
pub proof fn law_set_write_pos_idempotent(v: EngineView, pos: usize)
    requires
        v.samples.len() > 0,
    ensures
        with_write_pos(with_write_pos(v, pos), pos) == with_write_pos(v, pos),
{
}

/// A phase that stands still reads a ratio of one.
pub proof fn law_no_drift_reads_one(gap: int, sample_rate: int, f_k: int)
    ensures
        drift_ratio_of(0, gap, sample_rate, f_k) == UNIT,
{
    if gap > 0 && sample_rate > 0 {
        assert(0 * sample_rate == 0) by (nonlinear_arith);
        assert(WHOLE_TURN * gap > 0) by (nonlinear_arith)
            requires
                gap > 0,
                WHOLE_TURN > 0,
        ;
        lemma_floor_div_bounded(0, WHOLE_TURN * gap);
    }
    assert(drift_hz(0, gap, sample_rate) == 0);
    if f_k > 0 {
        assert(0 * UNIT == 0) by (nonlinear_arith);
        lemma_floor_div_bounded(0, f_k);
    }
}

/// A phase that runs further ahead reads no flatter: the ratio does not
/// fall as the phase drift grows.
pub proof fn law_drift_ratio_grows_with_phase(
    less: int,
    more: int,
    gap: int,
    sample_rate: int,
    f_k: int,
)
    requires
        less <= more,
    ensures
        drift_ratio_of(less, gap, sample_rate, f_k) <= drift_ratio_of(more, gap, sample_rate, f_k),
{
    if f_k > 0 {
        if gap > 0 && sample_rate > 0 {
            let a: int = limited_phase(less) * sample_rate;
            let b: int = limited_phase(more) * sample_rate;
            assert(a <= b) by (nonlinear_arith)
                requires
                    limited_phase(less) <= limited_phase(more),
                    sample_rate > 0,
                    a == limited_phase(less) * sample_rate,
                    b == limited_phase(more) * sample_rate,
            ;
            assert(WHOLE_TURN * gap > 0) by (nonlinear_arith)
                requires
                    gap > 0,
                    WHOLE_TURN > 0,
            ;
            lemma_div_is_ordered(a, b, WHOLE_TURN * gap);
        }
        let x: int = drift_hz(less, gap, sample_rate);
        let y: int = drift_hz(more, gap, sample_rate);
        assert(x <= y);
        assert(x * UNIT <= y * UNIT) by (nonlinear_arith)
            requires
                x <= y,
                UNIT > 0,
        ;
        lemma_div_is_ordered(x * UNIT, y * UNIT, f_k);
    }
}

/// A settled reading has a ratio of at least 10⁻¹², and so has the idle
/// reading: the logarithm of either is finite.
pub proof fn law_readings_positive(raw: Reading)
    ensures
        settled(raw).ratio >= MIN_RATIO,
        idle_reading().ratio >= MIN_RATIO,
{
}

/// The long average after the passes with ratios `rs`, in order.
pub open spec fn long_run(v: LongView, rs: Seq<i64>) -> LongView
    decreases rs.len(),
{
    if rs.len() == 0 {
        v
    } else {
        long_next(long_run(v, rs.drop_last()), rs.last())
    }
}

/// Pushing onto the tail of a series gives the tail of the longer series.
pub proof fn lemma_pushed_tail(s: Seq<i64>, x: i64, capacity: nat)
    requires
        capacity > 0,
    ensures
        pushed(tail(s, capacity), x, capacity) == tail(s.push(x), capacity),
{
    let t = tail(s, capacity);
    let want = tail(s.push(x), capacity);
    let got = pushed(t, x, capacity);
    assert(got.len() == want.len());
    assert forall|i: int| 0 <= i < got.len() implies got[i] == want[i] by {}
    assert(got =~= want);
}

/// The median of ratios that are all at least 10⁻¹² is at least 10⁻¹².
pub proof fn lemma_median_positive(s: Seq<i64>)
    requires
        s.len() > 0,
        forall|i: int| 0 <= i < s.len() ==> s[i] >= MIN_RATIO,
    ensures
        median(s) >= MIN_RATIO,
{
    lemma_sort_ascending(s);
    let sorted = s.sort_by(leq());
    lemma_middle_bounds(sorted);
    assert(sorted.contains(sorted[0]));
    assert(s.contains(sorted[0]));
}

/// While the long average gathers after an attack it holds the last 64 of
/// the ratios seen and has counted every pass; once frozen it stays
/// frozen.
pub proof fn lemma_long_run(v: LongView, rs: Seq<i64>)
    ensures
        ({
            let end = long_run(long_armed(v), rs);
            ||| end.ready && !end.active
            ||| end.active && !end.ready && end.entries == tail(rs, LONG2_BUF as nat)
                && end.windows == rs.len()
        }),
    decreases rs.len(),
{
    if rs.len() > 0 {
        let before = long_run(long_armed(v), rs.drop_last());
        lemma_long_run(v, rs.drop_last());
        if before.active {
            lemma_pushed_tail(rs.drop_last(), rs.last(), LONG2_BUF as nat);
            assert(rs.drop_last().push(rs.last()) == rs);
        }
    } else {
        assert(tail(rs, LONG2_BUF as nat) == Seq::<i64>::empty());
    }
}

/// A ratio frozen from ratios that are all at least 10⁻¹² is at least
/// 10⁻¹².
pub proof fn lemma_frozen_ratio_positive(v: LongView, rs: Seq<i64>)
    requires
        forall|i: int| 0 <= i < rs.len() ==> rs[i] >= MIN_RATIO,
    ensures
        long_run(long_armed(v), rs).ready ==> long_run(long_armed(v), rs).ratio >= MIN_RATIO,
    decreases rs.len(),
{
    if rs.len() > 0 {
        let before = long_run(long_armed(v), rs.drop_last());
        lemma_long_run(v, rs.drop_last());
        lemma_frozen_ratio_positive(v, rs.drop_last());
        if before.active {
            lemma_pushed_tail(rs.drop_last(), rs.last(), LONG2_BUF as nat);
            assert(rs.drop_last().push(rs.last()) == rs);
            let entries = pushed(before.entries, rs.last(), LONG2_BUF as nat);
            assert(entries == tail(rs, LONG2_BUF as nat));
            if long_freezes(entries, before.windows + 1) {
                lemma_median_positive(entries);
                lemma_sort_ascending(entries);
                lemma_middle_bounds(entries.sort_by(leq()));
            }
        }
    }
}

/// After an attack arms the long average, once at least twelve passes have
/// gone by and the MAD of the gathered ratios is within 60 ppm, the long
/// average is ready, whatever the ratios are. Where every ratio is at least
/// 10⁻¹², so is the frozen one, and its logarithm is finite.
pub proof fn law_long_average_freezes(v: LongView, rs: Seq<i64>)
    requires
        rs.len() >= LONG2_MIN,
        mad(tail(rs, LONG2_BUF as nat), PPM as int) <= LONG2_MAD_THRESH_PPM,
    ensures
        long_run(long_armed(v), rs).ready,
        (forall|i: int| 0 <= i < rs.len() ==> rs[i] >= MIN_RATIO) ==> long_run(
            long_armed(v),
            rs,
        ).ratio >= MIN_RATIO,
{
    lemma_long_run(v, rs);
    let before = long_run(long_armed(v), rs.drop_last());
    lemma_long_run(v, rs.drop_last());
    if before.active {
        lemma_pushed_tail(rs.drop_last(), rs.last(), LONG2_BUF as nat);
        assert(rs.drop_last().push(rs.last()) == rs);
    }
    if forall|i: int| 0 <= i < rs.len() ==> rs[i] >= MIN_RATIO {
        lemma_frozen_ratio_positive(v, rs);
    }
}

} // verus!
