//! The baseband zoom: the fine grid assembled from micro-shifted spectra,
//! its projection onto the cents grid, and the dense sweeps.

use vstd::prelude::*;
use vstd::arithmetic::div_mod::{
    lemma_fundamental_div_mod,
    lemma_fundamental_div_mod_converse,
    lemma_mod_bound,
};
use crate::fixed::{floor_div, modulo, sat, saturate, UNIT};
use crate::params::{
    SWEEP_STEP_CENTS,
    ZOOM_BINS,
    ZOOM_BIN_CENTS,
    ZOOM_DECIM,
    ZOOM_N,
    ZOOM_START_CENTS,
};
use crate::spectrum::{peak_bin, peak_mag, peak_search};

verus! {

/// Where bin `k` of a baseband spectrum lies once the spectrum is rotated
/// so that zero frequency sits at the centre.
pub open spec fn shifted_bin(k: int) -> int {
    (k + ZOOM_N / 2) % (ZOOM_N as int)
}

/// The fine grid: the rotated spectra of all micro-shifts, interleaved so
/// that shift `s` of rotated bin `b` lies at `b * shifts + s`.
pub open spec fn super_grid(spectra: Seq<Seq<i64>>) -> Seq<i64> {
    let shifts = spectra.len() as int;
    Seq::new(
        (ZOOM_N * shifts) as nat,
        |j: int| spectra[j % shifts][shifted_bin(j / shifts)],
    )
}

/// Each spectrum has one magnitude per baseband bin.
pub open spec fn spectra_wf(spectra: Seq<Seq<i64>>) -> bool {
    &&& spectra.len() > 0
    &&& forall|s: int| 0 <= s < spectra.len() ==> (#[trigger] spectra[s]).len() == ZOOM_N
}

/// The views of the spectra held by a vector of vectors.
pub open spec fn spectra_view(spectra: &Vec<Vec<i64>>) -> Seq<Seq<i64>> {
    Seq::new(spectra@.len(), |s: int| spectra@[s]@)
}

/// The index into a fine grid of `len` entries that a raw micro-bin index
/// stands for: the raw index wrapped into the grid.
pub open spec fn wrapped(raw: int, len: int) -> int {
    raw % len
}

/// The zoom grid: for each bin of the cents grid, the fine-grid magnitude
/// at its wrapped micro-bin index.
pub open spec fn projected(grid: Seq<i64>, micro: Seq<i64>) -> Seq<i64> {
    Seq::new(micro.len(), |i: int| grid[wrapped(micro[i] as int, grid.len() as int)])
}

/// The micro-bin of the fine grid nearest to a frequency that lies
/// `offset_hz` from the band centre. The baseband runs at the input rate
/// over twice `ZOOM_DECIM`; the frequency in baseband bins, with zero
/// frequency at the centre of the grid, is wrapped into the `ZOOM_N` bins,
/// scaled by the number of shifts, and rounded to the nearest integer, a
/// half upward. Without a sample rate it is zero.
pub open spec fn micro_bin_of(offset_hz: int, sample_rate: int, shifts: int) -> int {
    if sample_rate <= 0 {
        0
    } else {
        let rate = sample_rate;
        let wrapped = (offset_hz * (2 * ZOOM_DECIM * ZOOM_N) + (ZOOM_N / 2) * rate) % (ZOOM_N
            * rate);
        (2 * (wrapped * shifts) + rate) / (2 * rate)
    }
}

/// The offset in cents of bin `i` of the zoom grid from the band centre.
pub open spec fn zoom_cents_of(i: int) -> int {
    ZOOM_START_CENTS + i * ZOOM_BIN_CENTS
}

/// The number of probes of a sweep that spans `span` cents on either side.
pub open spec fn sweep_len(span: int) -> int {
    16 * span + 1
}

/// The offset in cents of probe `j` of a sweep of half-width `span` cents,
/// as far as 64 bits hold it.
pub open spec fn probe_cents_of(span: int, j: int) -> int {
    sat(j * SWEEP_STEP_CENTS - span * UNIT)
}

/// The offset in cents at which a sweep is strongest: that of the first
/// probe of greatest magnitude, or zero where no magnitude is positive.
pub open spec fn sweep_best_cents(mags: Seq<i64>, span: int) -> int {
    if peak_mag(mags, 0, mags.len() - 1) > 0 {
        probe_cents_of(span, peak_bin(mags, 0, mags.len() - 1))
    } else {
        0
    }
}

/// The magnitude of the strongest probe of a sweep, or zero where none is
/// positive.
pub open spec fn sweep_best_mag(mags: Seq<i64>) -> int {
    peak_mag(mags, 0, mags.len() - 1)
}

/// Assembles the fine grid from the spectra of the micro-shifts.
pub fn interleave_shifts(spectra: &Vec<Vec<i64>>) -> (grid: Vec<i64>)
    requires
        spectra_wf(spectra_view(spectra)),
        ZOOM_N * spectra.len() <= usize::MAX,
    ensures
        grid@ == super_grid(spectra_view(spectra)),
{
    let shifts: usize = spectra.len();
    let total: usize = ZOOM_N * shifts;
    let mut grid: Vec<i64> = Vec::new();
    let mut j: usize = 0;
    while j < total
        invariant
            j <= total,
            total == ZOOM_N * shifts,
            shifts == spectra.len(),
            spectra_wf(spectra_view(spectra)),
            grid@ == super_grid(spectra_view(spectra)).take(j as int),
        decreases total - j,
    {
        let s: usize = j % shifts;
        let b: usize = j / shifts;
        proof {
            lemma_fundamental_div_mod(j as int, shifts as int);
            lemma_mod_bound(j as int, shifts as int);
            assert(b < ZOOM_N) by (nonlinear_arith)
                requires
                    j == shifts * b + s,
                    j < ZOOM_N * shifts,
                    0 <= s,
                    shifts > 0,
            ;
            lemma_mod_bound(b + ZOOM_N / 2, ZOOM_N as int);
            assert(spectra_view(spectra)[s as int].len() == ZOOM_N);
        }
        let k: usize = (b + ZOOM_N / 2) % ZOOM_N;
        grid.push(spectra[s][k]);
        proof {
            assert(grid@ == super_grid(spectra_view(spectra)).take(j + 1));
        }
        j += 1;
    }
    proof {
        let all = super_grid(spectra_view(spectra));
        assert(all.take(total as int) == all);
    }
    grid
}

/// Projects the fine grid onto the cents grid: entry `i` of the result is
/// the fine-grid magnitude at micro-bin `micro[i]`, wrapped into the grid.
pub fn project_grid(grid: &Vec<i64>, micro: &Vec<i64>) -> (out: Vec<i64>)
    requires
        grid.len() > 0,
    ensures
        out@ == projected(grid@, micro@),
{
    let len: i128 = grid.len() as i128;
    let mut out: Vec<i64> = Vec::new();
    let mut i: usize = 0;
    while i < micro.len()
        invariant
            i <= micro.len(),
            len == grid.len(),
            len > 0,
            out@ == projected(grid@, micro@).take(i as int),
        decreases micro.len() - i,
    {
        let at: i128 = modulo(micro[i] as i128, len);
        out.push(grid[at as usize]);
        proof {
            assert(out@ == projected(grid@, micro@).take(i + 1));
        }
        i += 1;
    }
    proof {
        let all = projected(grid@, micro@);
        assert(all.take(micro.len() as int) == all);
    }
    out
}

/// The raw micro-bin index of the fine grid for a frequency that lies
/// `offset_hz` from the band centre.
pub fn micro_bin(offset_hz: i64, sample_rate: i64, shifts: usize) -> (m: i64)
    requires
        ZOOM_N * shifts <= i64::MAX,
    ensures
        m == micro_bin_of(offset_hz as int, sample_rate as int, shifts as int),
        0 <= m <= ZOOM_N * shifts,
{
    if sample_rate <= 0 {
        return 0;
    }
    let rate: i128 = sample_rate as i128;
    let turned: i128 = offset_hz as i128 * 65536 + 1024 * rate;
    let wrapped: i128 = modulo(turned, 2048 * rate);
    let whole: i128 = wrapped / rate;
    let part: i128 = wrapped % rate;
    let count: i128 = shifts as i128;
    proof {
        lemma_fundamental_div_mod(wrapped as int, rate as int);
        lemma_mod_bound(wrapped as int, rate as int);
        assert(0 <= whole < 2048) by (nonlinear_arith)
            requires
                wrapped == rate * whole + part,
                0 <= part < rate,
                0 <= wrapped < 2048 * rate,
        ;
        assert(0 <= whole * count <= 2048 * count) by (nonlinear_arith)
            requires
                0 <= whole < 2048,
                0 <= count,
        ;
        assert(0 <= part * count <= 0x8000_0000_0000_0000 * 0x10_0000_0000_0000)
            by (nonlinear_arith)
            requires
                0 <= part < 0x8000_0000_0000_0000,
                0 <= count <= 0x10_0000_0000_0000,
        ;
    }
    let rest: i128 = floor_div(2 * (part * count) + rate, 2 * rate);
    proof {
        let x: int = 2 * (part * count) + rate;
        let d: int = 2 * rate;
        lemma_fundamental_div_mod(x, d);
        lemma_mod_bound(x, d);
        assert(2 * (wrapped * count) + rate == d * (whole * count + x / d) + x % d)
            by (nonlinear_arith)
            requires
                wrapped == rate * whole + part,
                x == 2 * (part * count) + rate,
                d == 2 * rate,
                x == d * (x / d) + x % d,
        ;
        lemma_fundamental_div_mod_converse(
            2 * (wrapped * count) + rate,
            d,
            whole * count + x / d,
            x % d,
        );
        assert(0 <= x / d <= count) by (nonlinear_arith)
            requires
                x == d * (x / d) + x % d,
                0 <= x % d < d,
                x == 2 * (part * count) + rate,
                d == 2 * rate,
                0 <= part < rate,
                0 <= count,
                rate > 0,
        ;
        assert(whole * count + x / d <= 2048 * count) by (nonlinear_arith)
            requires
                0 <= whole < 2048,
                0 <= x / d <= count,
                0 <= count,
        ;
    }
    (whole * count + rest) as i64
}

/// The offset in cents of bin `i` of the zoom grid from the band centre.
pub fn zoom_cents(i: usize) -> (c: i64)
    requires
        i < ZOOM_BINS,
    ensures
        c == zoom_cents_of(i as int),
{
    ZOOM_START_CENTS + (i as i64) * ZOOM_BIN_CENTS
}

/// The number of probes of a sweep that spans `span` cents on either side.
pub fn sweep_count(span: usize) -> (n: usize)
    requires
        16 * span + 1 <= usize::MAX,
    ensures
        n == sweep_len(span as int),
{
    16 * span + 1
}

/// The offset in cents of probe `j` of a sweep of half-width `span` cents.
pub fn probe_cents(span: usize, j: usize) -> (c: i64)
    ensures
        c == probe_cents_of(span as int, j as int),
{
    saturate(j as i128 * 125_000_000_000 - span as i128 * 1_000_000_000_000)
}

/// The strongest probe of a sweep of half-width `span` cents: its offset in
/// cents and its magnitude; `(0, 0)` where no magnitude is positive.
pub fn best_probe(mags: &Vec<i64>, span: usize) -> (r: (i64, i64))
    requires
        mags.len() == sweep_len(span as int),
    ensures
        r.0 == sweep_best_cents(mags@, span as int),
        r.1 == sweep_best_mag(mags@),
{
    let (j, level) = peak_search(mags, 0, mags.len() - 1);
    if level > 0 {
        (probe_cents(span, j), level)
    } else {
        (0, 0)
    }
}

} // verus!
