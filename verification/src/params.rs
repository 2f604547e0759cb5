//! The dimensions and thresholds of the analysis.
//!
//! Quantities with a unit are fixed-point: counts of 10⁻¹² of the unit.

use vstd::prelude::*;

verus! {

/// The producer's block size, in samples.
pub const QUANTUM: usize = 128;

/// One analysis pass is due every this many samples: eight quanta.
pub const PASS_STRIDE: usize = 8 * QUANTUM;

/// The length of the analysis window after 2:1 decimation.
pub const FFT_N: usize = 32768;

/// The number of input samples one window spans.
pub const WINDOW_SAMPLES: usize = 2 * FFT_N;

/// The highest bin of the coarse spectrum, which has `HALF_N + 1` bins.
pub const HALF_N: usize = FFT_N / 2;

/// The nominal input sample rate, in hertz: 48000.
pub const DEFAULT_SAMPLE_RATE: i64 = 48_000_000_000_000_000;

/// The centre of the analysed band, in hertz.
pub const BAND_CENTER_HZ: i64 = 440_000_000_000_000;

/// The lower edge of the band: 120 cents below the centre.
pub const BAND_LOW_HZ: i64 = 410_534_516_276_195;

/// The upper edge of the band: 120 cents above the centre.
pub const BAND_HIGH_HZ: i64 = 471_580_323_515_969;

/// The most bins the band display holds.
pub const BAND_DISP_CAP: usize = 256;

/// The number of harmonics that are tracked.
pub const HARM_COUNT: usize = 5;

/// How far on either side of its expected bin a harmonic is searched.
pub const HARM_REACH: usize = 3;

/// The length of the baseband FFT.
pub const ZOOM_N: usize = 2048;

/// The decimation from the time buffer to the baseband.
pub const ZOOM_DECIM: usize = 16;

/// The number of micro-shifted spectra behind the fine grid.
pub const SHIFT_COUNT: usize = 32;

/// The number of bins of the zoom grid.
pub const ZOOM_BINS: usize = 2048;

/// The first bin of the zoom grid, in cents from the band centre.
pub const ZOOM_START_CENTS: i64 = -120_000_000_000_000;

/// The width of one bin of the zoom grid, in cents: 240 / 2048.
pub const ZOOM_BIN_CENTS: i64 = 117_187_500_000;

/// The spacing of the probes of a dense sweep, in cents: 1 / 8.
pub const SWEEP_STEP_CENTS: i64 = 125_000_000_000;

/// Half the width of the sweep around the fundamental, in whole cents.
pub const SWEEP_SPAN_1X: usize = 20;

/// Half the width of the sweep around the second harmonic, in whole cents.
pub const SWEEP_SPAN_2X: usize = 15;

/// The length of the strike envelope.
pub const CAP2_N: usize = 1024;

/// The number of time-buffer samples behind one envelope value.
pub const CAP2_DECIM: usize = FFT_N / CAP2_N;

/// The last envelope index at which a peak still counts as an attack.
pub const CAPTURE_EARLY_MAX_IDX: usize = 256;

/// The least envelope peak that counts as an attack: 10⁻⁴.
pub const CAPTURE_MIN_PEAK: i64 = 100_000_000;

/// The envelope peak at which the lock-in has full weight in the hybrid
/// estimate: 0.02.
pub const HYB_LOCK_WEIGHT_SCALE: i64 = 20_000_000_000;

/// The number of recent windows over which stability is judged.
pub const STAB_WIN: usize = 6;

/// The capacity of the stability history.
pub const STAB_BUF: usize = 16;

/// The stability threshold on the MAD of the cents: 1 cent.
pub const STAB_MAD_THRESH_CENTS: i64 = 1_000_000_000_000;

/// The stability threshold on the MAD of the ratio: 150 ppm.
pub const STAB_MAD_THRESH_PPM: i64 = 150_000_000_000_000;

/// The capacity of the long average.
pub const LONG2_BUF: usize = 64;

/// The fewest values from which the long average may freeze.
pub const LONG2_MIN: usize = 12;

/// The threshold on the MAD of the ratio at which the long average freezes:
/// 60 ppm.
pub const LONG2_MAD_THRESH_PPM: i64 = 60_000_000_000_000;

/// The number of windows after which the long average freezes regardless.
pub const LONG2_MAX_WINDOWS: usize = 128;

/// Half a turn of phase, in radians: π.
pub const HALF_TURN: i64 = 3_141_592_653_590;

/// A whole turn of phase, in radians: 2π.
pub const WHOLE_TURN: i64 = 2 * HALF_TURN;

/// The bound on a lock-in reading in cents: 50.
pub const CENTS_LIMIT: i64 = 50_000_000_000_000;

/// The least ratio a lock-in reading may have: 10⁻¹².
pub const MIN_RATIO: i64 = 1;

/// Parts per million in one.
pub const PPM: i64 = 1_000_000;

} // verus!
