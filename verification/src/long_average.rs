//! The long average: after an attack, ratios accumulate out of sight until
//! they agree closely or enough windows have gone by; their median is then
//! frozen.

use vstd::prelude::*;
use crate::fixed::UNIT;
use crate::history::{pushed, History};
use crate::params::{LONG2_BUF, LONG2_MAD_THRESH_PPM, LONG2_MAX_WINDOWS, LONG2_MIN, PPM};
use crate::stability::{compute_mad_ratio_ppm, is_within};
use crate::stats::{mad, median};

verus! {

/// The long average, seen from outside: the ratios gathered since it was
/// armed, whether it is gathering, whether it has frozen, the frozen ratio,
/// and the number of windows since it was armed.
pub struct LongView {
    pub entries: Seq<i64>,
    pub active: bool,
    pub ready: bool,
    pub ratio: i64,
    pub windows: nat,
}

/// The long average before any attack: idle, with ratio one.
pub open spec fn long_idle() -> LongView {
    LongView { entries: Seq::empty(), active: false, ready: false, ratio: UNIT, windows: 0 }
}

/// The long average armed by an attack: empty and gathering; the ratio
/// frozen earlier stays until the next freeze.
pub open spec fn long_armed(v: LongView) -> LongView {
    LongView { entries: Seq::empty(), active: true, ready: false, ratio: v.ratio, windows: 0 }
}

/// The gathered ratios may freeze: there are enough of them, and their MAD
/// is within the threshold or the window limit is reached.
pub open spec fn long_freezes(entries: Seq<i64>, windows: nat) -> bool {
    &&& entries.len() >= LONG2_MIN
    &&& (mad(entries, PPM as int) <= LONG2_MAD_THRESH_PPM || windows >= LONG2_MAX_WINDOWS)
}

/// The long average after one pass with ratio `r`. While gathering, the
/// ratio joins the ring and the window count goes up; on freezing, the
/// median of the ring becomes the frozen ratio. Otherwise nothing changes.
pub open spec fn long_next(v: LongView, r: i64) -> LongView {
    if v.active && !v.ready {
        let entries = pushed(v.entries, r, LONG2_BUF as nat);
        let windows = v.windows + 1;
        if long_freezes(entries, windows) {
            LongView {
                entries,
                active: false,
                ready: true,
                ratio: median(entries) as i64,
                windows,
            }
        } else {
            LongView { entries, windows, ..v }
        }
    } else {
        v
    }
}

/// The post-attack accumulator of ratios.
pub struct LongAverage {
    ring: History,
    active: bool,
    ready: bool,
    ratio: i64,
    windows: usize,
}

impl View for LongAverage {
    type V = LongView;

    closed spec fn view(&self) -> LongView {
        LongView {
            entries: self.ring@,
            active: self.active,
            ready: self.ready,
            ratio: self.ratio,
            windows: self.windows as nat,
        }
    }
}

impl LongAverage {
    /// The representation is consistent: while gathering, the ring holds
    /// one ratio per window, up to its capacity, and the window limit has
    /// not been reached.
    pub closed spec fn wf(&self) -> bool {
        &&& self.ring.wf()
        &&& self.ring.capacity() == LONG2_BUF
        &&& self.windows <= LONG2_MAX_WINDOWS
        &&& self.active && !self.ready ==> {
            &&& self.windows < LONG2_MAX_WINDOWS
            &&& self.ring@.len() == if self.windows < LONG2_BUF {
                self.windows as int
            } else {
                LONG2_BUF as int
            }
        }
    }

    /// An idle long average.
    pub fn new() -> (la: LongAverage)
        ensures
            la.wf(),
            la@ == long_idle(),
    {
        LongAverage { ring: History::new(LONG2_BUF), active: false, ready: false, ratio: UNIT, windows: 0 }
    }

    /// Arms the accumulator after an attack.
    pub fn arm(&mut self)
        requires
            old(self).wf(),
        ensures
            final(self).wf(),
            final(self)@ == long_armed(old(self)@),
    {
        self.ring.clear();
        self.active = true;
        self.ready = false;
        self.windows = 0;
    }

    /// Returns the accumulator to idle.
    pub fn reset(&mut self)
        requires
            old(self).wf(),
        ensures
            final(self).wf(),
            final(self)@ == long_idle(),
    {
        self.ring.clear();
        self.active = false;
        self.ready = false;
        self.ratio = UNIT;
        self.windows = 0;
    }

    /// Accounts for one pass with ratio `r`.
    pub fn accumulate(&mut self, r: i64)
        requires
            old(self).wf(),
        ensures
            final(self).wf(),
            final(self)@ == long_next(old(self)@, r),
    {
        if self.active && !self.ready {
            self.ring.push(r);
            self.windows = self.windows + 1;
            if self.ring.len() >= LONG2_MIN {
                let (center, spread) = compute_mad_ratio_ppm(&self.ring, LONG2_BUF);
                proof {
                    self.ring.lemma_bounded();
                    crate::stats::lemma_deviation_bounds(self.ring@, PPM as int);
                }
                if is_within(spread, LONG2_MAD_THRESH_PPM) || self.windows >= LONG2_MAX_WINDOWS {
                    self.ratio = center;
                    self.ready = true;
                    self.active = false;
                }
            }
        }
    }

    /// Whether the average has frozen.
    pub fn is_ready(&self) -> (b: bool)
        ensures
            b == self@.ready,
    {
        self.ready
    }

    /// Whether the accumulator is gathering.
    pub fn is_active(&self) -> (b: bool)
        ensures
            b == self@.active,
    {
        self.active
    }

    /// The frozen ratio; meaningful once the average is ready.
    pub fn ratio(&self) -> (r: i64)
        ensures
            r == self@.ratio,
    {
        self.ratio
    }
}

} // verus!
