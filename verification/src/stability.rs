//! Sliding-window stability: the median and the median absolute deviation
//! of the most recent lock-in readings.

use vstd::prelude::*;
use crate::fixed::UNIT;
use crate::history::{tail, History};
use crate::params::PPM;
use crate::stats::{mad, median, median_and_mad};

verus! {

/// The stability figures of one pass: the median of the recent cents, the
/// MAD of the recent cents, and the MAD of the recent ratios in ppm.
#[derive(Clone, Copy, Debug, PartialEq, Eq, Structural)]
pub struct StabilityStats {
    pub med_cents: i64,
    pub mad_cents: i64,
    pub mad_ppm: i64,
}

/// The median of the last `win` values of a series of cents; zero where the
/// series is empty.
pub open spec fn window_median_cents(s: Seq<i64>, win: nat) -> i64 {
    if tail(s, win).len() == 0 {
        0
    } else {
        median(tail(s, win)) as i64
    }
}

/// The median of the last `win` values of a series of ratios; one where the
/// series is empty.
pub open spec fn window_median_ratio(s: Seq<i64>, win: nat) -> i64 {
    if tail(s, win).len() == 0 {
        UNIT
    } else {
        median(tail(s, win)) as i64
    }
}

/// The MAD of the last `win` values of a series, in units of `1 / scale`.
/// An empty window has no finite deviation.
pub open spec fn window_mad(s: Seq<i64>, win: nat, scale: int) -> Option<i64> {
    if tail(s, win).len() == 0 {
        None
    } else {
        Some(mad(tail(s, win), scale) as i64)
    }
}

/// A deviation passes a threshold when it is finite and not above it.
pub open spec fn within(deviation: Option<i64>, threshold: i64) -> bool {
    match deviation {
        Some(d) => d <= threshold,
        None => false,
    }
}

/// The median and the MAD, in cents, of the last `win` values of a history
/// of cents; `(0, None)` where it is empty.
pub fn compute_mad_cents(history: &History, win: usize) -> (r: (i64, Option<i64>))
    requires
        history.wf(),
    ensures
        r.0 == window_median_cents(history@, win as nat),
        r.1 == window_mad(history@, win as nat, 1),
{
    let window: Vec<i64> = history.recent(win);
    if window.len() == 0 {
        (0, None)
    } else {
        let (center, spread) = median_and_mad(&window, 1);
        (center, Some(spread))
    }
}

/// The median of the last `win` values of a history of ratios and their MAD
/// in parts per million; `(1, None)` where it is empty.
pub fn compute_mad_ratio_ppm(history: &History, win: usize) -> (r: (i64, Option<i64>))
    requires
        history.wf(),
    ensures
        r.0 == window_median_ratio(history@, win as nat),
        r.1 == window_mad(history@, win as nat, PPM as int),
{
    let window: Vec<i64> = history.recent(win);
    if window.len() == 0 {
        (UNIT, None)
    } else {
        let (center, spread) = median_and_mad(&window, PPM);
        (center, Some(spread))
    }
}

/// Whether a deviation is finite and not above `threshold`.
pub fn is_within(deviation: Option<i64>, threshold: i64) -> (ok: bool)
    ensures
        ok == within(deviation, threshold),
{
    match deviation {
        Some(d) => d <= threshold,
        None => false,
    }
}

} // verus!
