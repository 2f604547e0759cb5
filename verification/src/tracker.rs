//! The tracker: what persists of the estimate from pass to pass, and the
//! rules by which one pass changes it.
//!
//! A pass first advances the two lock-in demodulators, then looks for an
//! attack in the strike envelope, then judges the stability of the recent
//! readings, blends the hybrid estimate, and last feeds the long average.

use vstd::prelude::*;
use crate::capture::{
    attack_accepted,
    attack_accepted_for,
    attack_latched,
    capture_cleared,
    capture_initial,
    clear_capture,
    latch_attack,
    latch_stability,
    no_capture,
    stability_latched,
    Capture,
};
use crate::fixed::UNIT;
use crate::fusion::{fft_ratio, fft_ratio_of, hybrid, hybrid_of, smooth, smoothed};
use crate::history::{pushed, History};
use crate::lockin::{
    lockin_at_rest,
    lockin_enabled,
    lockin_enabled_for,
    lockin_initial,
    lockin_measured,
    lockin_next,
    lockin_step,
    Envelope,
    LockinState,
    Measurement,
    Reading,
};
use crate::long_average::{long_armed, long_idle, long_next, LongAverage, LongView};
use crate::params::{
    PPM,
    STAB_BUF,
    STAB_MAD_THRESH_CENTS,
    STAB_MAD_THRESH_PPM,
    STAB_WIN,
};
use crate::stability::{
    compute_mad_cents,
    compute_mad_ratio_ppm,
    is_within,
    window_mad,
    window_median_cents,
    window_median_ratio,
    within,
    StabilityStats,
};

verus! {

/// What a pass hands to the tracker besides its measurements: the sample
/// count, the sample rate, the reference frequency, the peak of the strike
/// envelope, and the interpolated frequency of the second harmonic.
#[derive(Clone, Copy, Debug, PartialEq, Eq, Structural)]
pub struct PassContext {
    pub total: u64,
    pub sample_rate: i64,
    pub reference_hz: i64,
    pub envelope: Envelope,
    pub harmonic2_hz: i64,
}

/// The tracker, seen from outside.
pub struct TrackerView {
    pub lockin1: LockinState,
    pub lockin2: LockinState,
    pub capture: Capture,
    pub stab_ratio: Seq<i64>,
    pub stab_cents: Seq<i64>,
    pub stats: StabilityStats,
    pub best2_ratio: i64,
    pub hybrid_ratio: i64,
    pub long: LongView,
}

/// A deviation as a number: an infinite one is the greatest number.
pub open spec fn deviation_value(d: Option<i64>) -> i64 {
    match d {
        Some(x) => x,
        None => i64::MAX,
    }
}

/// The tracker before the first pass.
pub open spec fn tracker_initial() -> TrackerView {
    TrackerView {
        lockin1: lockin_at_rest(),
        lockin2: lockin_at_rest(),
        capture: no_capture(),
        stab_ratio: Seq::empty(),
        stab_cents: Seq::empty(),
        stats: StabilityStats { med_cents: 0, mad_cents: 0, mad_ppm: 0 },
        best2_ratio: UNIT,
        hybrid_ratio: UNIT,
        long: long_idle(),
    }
}

/// The tracker after a reset of the capture: the capture is cleared and
/// the long average is idle.
pub open spec fn tracker_reset(v: TrackerView) -> TrackerView {
    TrackerView { capture: capture_cleared(v.capture), long: long_idle(), ..v }
}

/// First stage of a pass: both demodulators advance.
pub open spec fn after_lockin(
    v: TrackerView,
    ctx: PassContext,
    m2: Measurement,
    m1: Measurement,
) -> TrackerView {
    let on2 = lockin_enabled_for(ctx.reference_hz as int, 2, ctx.sample_rate as int);
    let on1 = lockin_enabled_for(ctx.reference_hz as int, 1, ctx.sample_rate as int);
    TrackerView {
        lockin2: lockin_next(v.lockin2, on2, m2),
        lockin1: lockin_next(v.lockin1, on1, m1),
        ..v
    }
}

/// Whether this pass latches an attack: the second harmonic is demodulated
/// and the envelope peak is accepted.
pub open spec fn attack_now(v: TrackerView, ctx: PassContext) -> bool {
    &&& lockin_enabled_for(ctx.reference_hz as int, 2, ctx.sample_rate as int)
    &&& attack_accepted_for(v.capture, ctx.envelope, ctx.total, ctx.sample_rate as int)
}

/// Second stage: an accepted attack latches the current reading of the
/// second harmonic and arms the long average.
pub open spec fn after_attack(v: TrackerView, ctx: PassContext) -> TrackerView {
    if attack_now(v, ctx) {
        TrackerView {
            capture: attack_latched(ctx.envelope, v.lockin2.last.ratio, ctx.total),
            long: long_armed(v.long),
            ..v
        }
    } else {
        v
    }
}

/// The recent readings are stable: the MAD of the ratios or the MAD of the
/// cents is within its threshold.
pub open spec fn stable(stab_ratio: Seq<i64>, stab_cents: Seq<i64>) -> bool {
    ||| within(window_mad(stab_ratio, STAB_WIN as nat, PPM as int), STAB_MAD_THRESH_PPM)
    ||| within(window_mad(stab_cents, STAB_WIN as nat, 1), STAB_MAD_THRESH_CENTS)
}

/// Third stage, for a pass that measured the second harmonic: the reading
/// joins the stability history; the best guess moves toward the median
/// ratio once the history holds a full window; a capture is latched from
/// the median if none is valid and the readings are stable; and the hybrid
/// estimate is blended from the reading and the ratio that the
/// interpolated second harmonic makes with twice the reference.
pub open spec fn after_stability(v: TrackerView, ctx: PassContext) -> TrackerView {
    let reading = v.lockin2.last;
    let stab_ratio = pushed(v.stab_ratio, reading.ratio, STAB_BUF as nat);
    let stab_cents = pushed(v.stab_cents, reading.cents, STAB_BUF as nat);
    let median_ratio = window_median_ratio(stab_ratio, STAB_WIN as nat);
    TrackerView {
        stab_ratio,
        stab_cents,
        stats: StabilityStats {
            med_cents: window_median_cents(stab_cents, STAB_WIN as nat),
            mad_cents: deviation_value(window_mad(stab_cents, STAB_WIN as nat, 1)),
            mad_ppm: deviation_value(window_mad(stab_ratio, STAB_WIN as nat, PPM as int)),
        },
        best2_ratio: if stab_ratio.len() >= STAB_WIN {
            smoothed(v.best2_ratio as int, median_ratio as int) as i64
        } else {
            v.best2_ratio
        },
        capture: if !v.capture.valid && stable(stab_ratio, stab_cents) {
            stability_latched(v.capture, median_ratio, reading.mag, ctx.total)
        } else {
            v.capture
        },
        hybrid_ratio: hybrid_of(
            reading.ratio as int,
            fft_ratio_of(ctx.harmonic2_hz as int, ctx.reference_hz as int),
            ctx.envelope.peak_val as int,
        ) as i64,
        ..v
    }
}

/// Last stage: the long average accounts for the pass.
pub open spec fn after_long(v: TrackerView) -> TrackerView {
    TrackerView { long: long_next(v.long, v.lockin2.last.ratio), ..v }
}

/// The tracker after one pass that measured `m2` of the second harmonic
/// and `m1` of the fundamental.
pub open spec fn concluded(
    v: TrackerView,
    ctx: PassContext,
    m2: Measurement,
    m1: Measurement,
) -> TrackerView {
    let measured = lockin_measured(
        v.lockin2,
        lockin_enabled_for(ctx.reference_hz as int, 2, ctx.sample_rate as int),
    );
    let attacked = after_attack(after_lockin(v, ctx, m2, m1), ctx);
    if measured {
        after_long(after_stability(attacked, ctx))
    } else {
        after_long(attacked)
    }
}

/// The estimator state that persists between passes.
pub struct Tracker {
    lockin1: LockinState,
    lockin2: LockinState,
    capture: Capture,
    stab_ratio: History,
    stab_cents: History,
    stats: StabilityStats,
    best2_ratio: i64,
    hybrid_ratio: i64,
    long: LongAverage,
}

impl View for Tracker {
    type V = TrackerView;

    closed spec fn view(&self) -> TrackerView {
        TrackerView {
            lockin1: self.lockin1,
            lockin2: self.lockin2,
            capture: self.capture,
            stab_ratio: self.stab_ratio@,
            stab_cents: self.stab_cents@,
            stats: self.stats,
            best2_ratio: self.best2_ratio,
            hybrid_ratio: self.hybrid_ratio,
            long: self.long@,
        }
    }
}

impl Tracker {
    /// The representation is consistent.
    pub closed spec fn wf(&self) -> bool {
        &&& self.stab_ratio.wf()
        &&& self.stab_cents.wf()
        &&& self.stab_ratio.capacity() == STAB_BUF
        &&& self.stab_cents.capacity() == STAB_BUF
        &&& self.long.wf()
    }

    /// The tracker before the first pass.
    pub fn new() -> (t: Tracker)
        ensures
            t.wf(),
            t@ == tracker_initial(),
    {
        Tracker {
            lockin1: lockin_initial(),
            lockin2: lockin_initial(),
            capture: capture_initial(),
            stab_ratio: History::new(STAB_BUF),
            stab_cents: History::new(STAB_BUF),
            stats: StabilityStats { med_cents: 0, mad_cents: 0, mad_ppm: 0 },
            best2_ratio: UNIT,
            hybrid_ratio: UNIT,
            long: LongAverage::new(),
        }
    }

    /// Clears the capture and the long average.
    pub fn reset_capture(&mut self)
        requires
            old(self).wf(),
        ensures
            final(self).wf(),
            final(self)@ == tracker_reset(old(self)@),
            !final(self)@.capture.valid,
    {
        self.capture = clear_capture(self.capture);
        self.long.reset();
    }

    /// Concludes one pass with what it measured of the second harmonic
    /// and of the fundamental. A measurement counts only where its harmonic
    /// is demodulated, and its reading only where an earlier pass left an
    /// integral to compare with.
    pub fn conclude(&mut self, ctx: PassContext, m2: Measurement, m1: Measurement)
        requires
            old(self).wf(),
        ensures
            final(self).wf(),
            final(self)@ == concluded(old(self)@, ctx, m2, m1),
    {
        let on2: bool = lockin_enabled(ctx.reference_hz, 2, ctx.sample_rate);
        let on1: bool = lockin_enabled(ctx.reference_hz, 1, ctx.sample_rate);
        let measured: bool = on2 && self.lockin2.has_prev;
        self.lockin2 = lockin_step(self.lockin2, on2, m2);
        self.lockin1 = lockin_step(self.lockin1, on1, m1);
        let reading: Reading = self.lockin2.last;
        proof {
            assert(self@ == after_lockin(old(self)@, ctx, m2, m1));
        }
        let ghost lockin_view = self@;
        if on2 && attack_accepted(self.capture, ctx.envelope, ctx.total, ctx.sample_rate) {
            self.capture = latch_attack(ctx.envelope, reading.ratio, ctx.total);
            self.long.arm();
        }
        proof {
            assert(self@ == after_attack(lockin_view, ctx));
        }
        let ghost attack_view = self@;
        if measured {
            self.stab_ratio.push(reading.ratio);
            self.stab_cents.push(reading.cents);
            let (med_c, mad_c) = compute_mad_cents(&self.stab_cents, STAB_WIN);
            let (med_r, mad_ppm) = compute_mad_ratio_ppm(&self.stab_ratio, STAB_WIN);
            if self.stab_ratio.len() >= STAB_WIN {
                proof {
                    crate::fusion::lemma_smoothed_between(self.best2_ratio as int, med_r as int);
                }
                self.best2_ratio = smooth(self.best2_ratio, med_r);
            }
            self.stats = StabilityStats {
                med_cents: med_c,
                mad_cents: match mad_c {
                    Some(d) => d,
                    None => i64::MAX,
                },
                mad_ppm: match mad_ppm {
                    Some(d) => d,
                    None => i64::MAX,
                },
            };
            if !self.capture.valid && (is_within(mad_ppm, STAB_MAD_THRESH_PPM) || is_within(
                mad_c,
                STAB_MAD_THRESH_CENTS,
            )) {
                self.capture = latch_stability(self.capture, med_r, reading.mag, ctx.total);
            }
            self.hybrid_ratio = hybrid(
                reading.ratio,
                fft_ratio(ctx.harmonic2_hz, ctx.reference_hz),
                ctx.envelope.peak_val,
            );
            proof {
                assert(self@ == after_stability(attack_view, ctx));
            }
        }
        self.long.accumulate(reading.ratio);
    }

    /// The state of the demodulator of the fundamental.
    pub fn lockin1(&self) -> (s: LockinState)
        ensures
            s == self@.lockin1,
    {
        self.lockin1
    }

    /// The state of the demodulator of the second harmonic.
    pub fn lockin2(&self) -> (s: LockinState)
        ensures
            s == self@.lockin2,
    {
        self.lockin2
    }

    /// The capture.
    pub fn capture(&self) -> (c: Capture)
        ensures
            c == self@.capture,
    {
        self.capture
    }

    /// The stability figures of the last measured pass.
    pub fn stats(&self) -> (s: StabilityStats)
        ensures
            s == self@.stats,
    {
        self.stats
    }

    /// The smoothed best guess of the ratio.
    pub fn best2_ratio(&self) -> (r: i64)
        ensures
            r == self@.best2_ratio,
    {
        self.best2_ratio
    }

    /// The hybrid estimate of the ratio.
    pub fn hybrid_ratio(&self) -> (r: i64)
        ensures
            r == self@.hybrid_ratio,
    {
        self.hybrid_ratio
    }

    /// Whether the long average has frozen.
    pub fn long_ready(&self) -> (b: bool)
        ensures
            b == self@.long.ready,
    {
        self.long.is_ready()
    }

    /// The frozen ratio of the long average.
    pub fn long_ratio(&self) -> (r: i64)
        ensures
            r == self@.long.ratio,
    {
        self.long.ratio()
    }
}

} // verus!
