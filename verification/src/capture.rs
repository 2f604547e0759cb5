//! The capture: a reading latched for display, by a detected attack or by
//! the stability of the recent readings.

use vstd::prelude::*;
use crate::fixed::UNIT;
use crate::lockin::Envelope;
use crate::params::{CAPTURE_EARLY_MAX_IDX, CAPTURE_MIN_PEAK};

verus! {

/// The latched reading. `last_samples` is the sample count at which it was
/// latched; zero stands for no earlier capture.
#[derive(Clone, Copy, Debug, PartialEq, Eq, Structural)]
pub struct Capture {
    pub valid: bool,
    pub ratio: i64,
    pub mag: i64,
    pub peak_ms: i64,
    pub peak_idx: usize,
    pub last_samples: u64,
}

/// The capture before anything was latched.
pub open spec fn no_capture() -> Capture {
    Capture { valid: false, ratio: UNIT, mag: 0, peak_ms: 0, peak_idx: 0, last_samples: 0 }
}

/// The samples that went by since the last capture.
pub open spec fn since_capture(c: Capture, total: u64) -> int {
    if total >= c.last_samples {
        total - c.last_samples
    } else {
        0
    }
}

/// The refractory time is over: a quarter of a second has gone by since
/// the last capture, or there was none.
pub open spec fn refractory_over(c: Capture, total: u64, sample_rate: int) -> bool {
    c.last_samples == 0 || 4 * since_capture(c, total) * UNIT >= sample_rate
}

/// The peak is strong enough to replace the capture: none is in effect, or
/// the peak is at least one and a half times the captured magnitude.
pub open spec fn strong_enough(c: Capture, peak_val: int) -> bool {
    !c.valid || 2 * peak_val >= 3 * c.mag
}

/// The last envelope index at which a peak counts as an attack: the end of
/// the early region, or the end of the envelope if that comes first.
pub open spec fn early_limit(len: int) -> int {
    let last = if len > 0 {
        len - 1
    } else {
        0
    };
    if last < CAPTURE_EARLY_MAX_IDX {
        last
    } else {
        CAPTURE_EARLY_MAX_IDX as int
    }
}

/// An envelope peak is accepted as an attack when it lies after the first
/// index and within the early region, reaches the least peak, the
/// refractory time is over, and it is strong enough.
pub open spec fn attack_accepted_for(
    c: Capture,
    env: Envelope,
    total: u64,
    sample_rate: int,
) -> bool {
    &&& env.peak_idx > 0
    &&& env.peak_idx <= early_limit(env.len as int)
    &&& env.peak_val >= CAPTURE_MIN_PEAK
    &&& refractory_over(c, total, sample_rate)
    &&& strong_enough(c, env.peak_val as int)
}

/// The capture latched by an attack: the current ratio, with the
/// magnitude, index and time of the envelope peak.
pub open spec fn attack_latched(env: Envelope, ratio: i64, total: u64) -> Capture {
    Capture {
        valid: true,
        ratio,
        mag: env.peak_val,
        peak_ms: env.peak_ms,
        peak_idx: env.peak_idx,
        last_samples: total,
    }
}

/// The capture latched by stability: the median ratio with the lock-in
/// magnitude; the peak of an earlier attack stays.
pub open spec fn stability_latched(c: Capture, median_ratio: i64, mag: i64, total: u64) -> Capture {
    Capture { valid: true, ratio: median_ratio, mag, last_samples: total, ..c }
}

/// The capture after a reset: not valid, no magnitude to outdo, no
/// refractory time to wait for.
pub open spec fn capture_cleared(c: Capture) -> Capture {
    Capture { valid: false, mag: 0, last_samples: 0, ..c }
}

/// The capture before anything was latched.
pub fn capture_initial() -> (c: Capture)
    ensures
        c == no_capture(),
{
    Capture { valid: false, ratio: UNIT, mag: 0, peak_ms: 0, peak_idx: 0, last_samples: 0 }
}

/// Whether the peak of this pass's envelope is accepted as an attack.
pub fn attack_accepted(c: Capture, env: Envelope, total: u64, sample_rate: i64) -> (yes: bool)
    ensures
        yes == attack_accepted_for(c, env, total, sample_rate as int),
{
    let last: usize = if env.len > 0 { env.len - 1 } else { 0 };
    let limit: usize = if last < CAPTURE_EARLY_MAX_IDX { last } else { CAPTURE_EARLY_MAX_IDX };
    let since: u64 = if total >= c.last_samples { total - c.last_samples } else { 0 };
    let rested: bool = c.last_samples == 0 || 4 * (since as i128) * 1_000_000_000_000
        >= sample_rate as i128;
    let strong: bool = !c.valid || 2 * (env.peak_val as i128) >= 3 * (c.mag as i128);
    env.peak_idx > 0 && env.peak_idx <= limit && env.peak_val >= CAPTURE_MIN_PEAK && rested
        && strong
}

/// Latches the current ratio on an attack.
pub fn latch_attack(env: Envelope, ratio: i64, total: u64) -> (c: Capture)
    ensures
        c == attack_latched(env, ratio, total),
{
    Capture {
        valid: true,
        ratio,
        mag: env.peak_val,
        peak_ms: env.peak_ms,
        peak_idx: env.peak_idx,
        last_samples: total,
    }
}

/// Latches the median ratio once the recent readings are stable.
pub fn latch_stability(c: Capture, median_ratio: i64, mag: i64, total: u64) -> (next: Capture)
    ensures
        next == stability_latched(c, median_ratio, mag, total),
{
    Capture {
        valid: true,
        ratio: median_ratio,
        mag,
        peak_ms: c.peak_ms,
        peak_idx: c.peak_idx,
        last_samples: total,
    }
}

/// Clears the capture.
pub fn clear_capture(c: Capture) -> (next: Capture)
    ensures
        next == capture_cleared(c),
        !next.valid,
{
    Capture {
        valid: false,
        ratio: c.ratio,
        mag: 0,
        peak_ms: c.peak_ms,
        peak_idx: c.peak_idx,
        last_samples: 0,
    }
}

} // verus!
