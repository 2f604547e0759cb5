//! The engine: the input ring, the clock of samples, the outputs of the
//! last pass, and the tracker, behind one interface.
//!
//! The host stores samples in the ring, moves the write position, and
//! calls `process_quantum`. Where that answers `Quantum::Pass`, the host
//! takes the time buffer, does the arithmetic that needs an FFT or a
//! transcendental function, and hands each result to the stage that
//! records it: the coarse spectrum, the zoom spectra, the sweeps, the
//! reference tables of the demodulation, and last the phase drifts. The
//! consumer polls the getters.

use vstd::prelude::*;
use crate::demod::{demodulate, envelope_levels, integral_of, turn, turned};
use crate::fixed::UNIT;
use crate::lockin::{
    drift_ratio,
    drift_ratio_of,
    envelope_of,
    envelope_peak,
    lockin_enabled,
    lockin_enabled_for,
    measure,
    measurement_of,
    phase_product,
    phase_product_of,
    Drift,
    Envelope,
    LockinSample,
    Measurement,
    Phasor,
};
use crate::params::{
    BAND_DISP_CAP,
    DEFAULT_SAMPLE_RATE,
    FFT_N,
    HALF_N,
    HARM_COUNT,
    PASS_STRIDE,
    SWEEP_SPAN_1X,
    SWEEP_SPAN_2X,
    WINDOW_SAMPLES,
    ZOOM_BINS,
    ZOOM_BIN_CENTS,
    ZOOM_N,
    ZOOM_START_CENTS,
};
use crate::ring::{recent_samples, stored_block, InputRing};
use crate::signal::{rms_of, rms_recent, time_buffer, time_buffer_of};
use crate::spectrum::{
    band_display,
    band_display_of,
    band_high_bin,
    band_low_bin,
    band_range,
    bin_to_hz,
    fractional_bin_hz,
    harmonic,
    harmonic_factor,
    harmonic_factor_of,
    harmonic_of,
    peak_bin,
    peak_mag,
    peak_search,
};
use crate::tracker::{
    concluded,
    tracker_initial,
    tracker_reset,
    PassContext,
    Tracker,
    TrackerView,
};
use crate::zoom::{
    best_probe,
    interleave_shifts,
    project_grid,
    projected,
    spectra_view,
    spectra_wf,
    super_grid,
    sweep_best_cents,
    sweep_best_mag,
    sweep_len,
};

verus! {

/// What `process_quantum` asks of the host.
#[derive(Clone, Copy, Debug, PartialEq, Eq, Structural)]
pub enum Quantum {
    /// Nothing was delivered, or there is no ring: nothing changed.
    Skipped,
    /// The samples were counted and the RMS recorded; no pass is due.
    RmsOnly,
    /// The samples were counted and the RMS recorded; a pass is due.
    Pass,
}

/// The engine, seen from outside.
pub struct EngineView {
    /// The ring, by slot.
    pub samples: Seq<i64>,
    /// The slot at which the producer writes next.
    pub write_pos: nat,
    /// The nominal input sample rate, in hertz.
    pub sample_rate: i64,
    /// The number of samples delivered so far.
    pub total_samples: u64,
    /// The sample count at which the last pass was concluded.
    pub last_window_total: u64,
    /// The RMS of the last quantum.
    pub rms: i64,
    /// The bin of the coarse peak and its magnitude.
    pub peak_bin: usize,
    pub peak_mag: i64,
    /// The frequencies, in hertz, and the magnitudes of the harmonics.
    pub harm_freqs: Seq<i64>,
    pub harm_mags: Seq<i64>,
    /// The band display and the bin at which it starts.
    pub band: Seq<i64>,
    pub band_start: usize,
    /// The zoom grid.
    pub zoom: Seq<i64>,
    /// The offset, in cents, and the magnitude of the strongest probe of
    /// the sweep around the fundamental.
    pub gz_best_cents: i64,
    pub gz_best_mag: i64,
    /// The offset, in cents, and the magnitude of the strongest probe of
    /// the sweep around the second harmonic.
    pub gz2_best_cents: i64,
    pub gz2_best_mag: i64,
    /// The reference frequency of the lock-in, in hertz.
    pub reference_hz: i64,
    /// The strike envelope and its peak.
    pub cap2: Seq<i64>,
    pub envelope: Envelope,
    /// The aligned integrals of the second harmonic and of the fundamental
    /// that this pass demodulated.
    pub pending2: Phasor,
    pub pending1: Phasor,
    /// The estimator state that persists between passes.
    pub tracker: TrackerView,
}

/// The engine after `init`: a silent ring, the nominal sample rate, and
/// every output at rest.
pub open spec fn engine_initial(capacity: nat) -> EngineView {
    EngineView {
        samples: Seq::new(capacity, |i: int| 0i64),
        write_pos: 0,
        sample_rate: DEFAULT_SAMPLE_RATE,
        total_samples: 0,
        last_window_total: 0,
        rms: 0,
        peak_bin: 0,
        peak_mag: 0,
        harm_freqs: Seq::new(HARM_COUNT as nat, |i: int| 0i64),
        harm_mags: Seq::new(HARM_COUNT as nat, |i: int| 0i64),
        band: Seq::empty(),
        band_start: 0,
        zoom: Seq::new(ZOOM_BINS as nat, |i: int| 0i64),
        gz_best_cents: 0,
        gz_best_mag: 0,
        gz2_best_cents: 0,
        gz2_best_mag: 0,
        reference_hz: 0,
        cap2: Seq::empty(),
        envelope: Envelope { len: 0, peak_idx: 0, peak_val: 0, peak_ms: 0 },
        pending2: Phasor { re: 0, im: 0 },
        pending1: Phasor { re: 0, im: 0 },
        tracker: tracker_initial(),
    }
}

/// The sample count after `n` more samples: it saturates rather than wrap.
pub open spec fn counted(total: u64, n: nat) -> u64 {
    if total + n > u64::MAX {
        u64::MAX
    } else {
        (total + n) as u64
    }
}

/// A pass is due when the ring can hold a window, a window's worth of
/// samples has been delivered, and the write position lies on a boundary
/// of eight quanta.
pub open spec fn pass_due(v: EngineView, total: u64) -> bool {
    &&& v.samples.len() >= WINDOW_SAMPLES
    &&& total >= WINDOW_SAMPLES
    &&& v.write_pos % (PASS_STRIDE as nat) == 0
}

/// What a quantum of `n` samples asks of the host.
pub open spec fn quantum_of(v: EngineView, n: nat) -> Quantum {
    if v.samples.len() == 0 || n == 0 {
        Quantum::Skipped
    } else if pass_due(v, counted(v.total_samples, n)) {
        Quantum::Pass
    } else {
        Quantum::RmsOnly
    }
}

/// The engine after a quantum of `n` samples: unless the quantum is
/// skipped, the samples are counted and the RMS of the `n` samples that end
/// at the write position is recorded.
pub open spec fn after_quantum(v: EngineView, n: nat) -> EngineView {
    if v.samples.len() == 0 || n == 0 {
        v
    } else {
        EngineView {
            rms: rms_of(recent_samples(v.samples, v.write_pos as int, n)),
            total_samples: counted(v.total_samples, n),
            ..v
        }
    }
}

/// The engine after the write position is set to `pos`: the position is
/// reduced into the ring and nothing else changes.
pub open spec fn with_write_pos(v: EngineView, pos: usize) -> EngineView {
    EngineView { write_pos: (pos as int % v.samples.len() as int) as nat, ..v }
}

/// The frequency of the coarse peak, in hertz.
pub open spec fn coarse_hz(v: EngineView) -> int {
    bin_to_hz(v.peak_bin * UNIT, v.sample_rate as int)
}

/// The frequencies of the five harmonics read off a coarse spectrum.
pub open spec fn harmonic_freqs(mags: Seq<i64>, fundamental: int, sample_rate: int) -> Seq<i64> {
    Seq::new(
        HARM_COUNT as nat,
        |i: int| harmonic_of(mags, fundamental, harmonic_factor_of(i), sample_rate).0 as i64,
    )
}

/// The magnitudes of the five harmonics read off a coarse spectrum.
pub open spec fn harmonic_mags(mags: Seq<i64>, fundamental: int, sample_rate: int) -> Seq<i64> {
    Seq::new(
        HARM_COUNT as nat,
        |i: int| harmonic_of(mags, fundamental, harmonic_factor_of(i), sample_rate).1 as i64,
    )
}

/// The engine after a coarse spectrum is recorded: the peak of the band,
/// the harmonics of the peak, and the band display.
pub open spec fn after_spectrum(v: EngineView, mags: Seq<i64>) -> EngineView {
    let lo = band_low_bin(v.sample_rate as int);
    let hi = band_high_bin(v.sample_rate as int);
    let peak = peak_bin(mags, lo, hi);
    EngineView {
        peak_bin: peak as usize,
        peak_mag: peak_mag(mags, lo, hi) as i64,
        harm_freqs: harmonic_freqs(mags, peak, v.sample_rate as int),
        harm_mags: harmonic_mags(mags, peak, v.sample_rate as int),
        band: band_display_of(mags, lo, hi),
        band_start: lo as usize,
        ..v
    }
}

/// The reference frequency: the refined fundamental where the sweep found
/// a probe of positive magnitude and the frequency is positive, else the
/// frequency of the coarse peak.
pub open spec fn reference_of(v: EngineView, refined_hz: i64) -> i64 {
    if v.gz_best_mag > 0 && refined_hz > 0 {
        refined_hz
    } else {
        coarse_hz(v) as i64
    }
}

/// The time buffer of the pass that is due: the window that ends at the
/// write position, averaged in pairs and multiplied by the window.
pub open spec fn time_of(v: EngineView, window: Seq<i64>) -> Seq<i64> {
    time_buffer_of(recent_samples(v.samples, v.write_pos as int, WINDOW_SAMPLES as nat), window)
}

/// The number of samples between the last concluded pass and now.
pub open spec fn gap_of(v: EngineView) -> int {
    if v.total_samples >= v.last_window_total {
        v.total_samples - v.last_window_total
    } else {
        0
    }
}

/// What the tracker is handed when a pass is concluded.
pub open spec fn context_of(v: EngineView) -> PassContext {
    PassContext {
        total: v.total_samples,
        sample_rate: v.sample_rate,
        reference_hz: v.reference_hz,
        envelope: v.envelope,
        harmonic2_hz: v.harm_freqs[0],
    }
}

/// The engine after harmonic `k` is demodulated against the reference
/// given by its tables and turned back by the phase whose cosine and sine
/// are `c0` and `s0`: the aligned integral is kept for the conclusion of
/// the pass, and the second harmonic leaves the strike envelope and its
/// peak. `k` is 1 for the fundamental, anything else for the second
/// harmonic.
pub open spec fn after_demodulation(
    v: EngineView,
    k: int,
    window: Seq<i64>,
    cos: Seq<i64>,
    sin: Seq<i64>,
    c0: i64,
    s0: i64,
) -> EngineView {
    let time = time_of(v, window);
    let z = turned(integral_of(time, cos, sin), c0, s0);
    if k == 1 {
        EngineView { pending1: z, ..v }
    } else {
        let levels = envelope_levels(time, cos, sin);
        EngineView {
            pending2: z,
            cap2: levels,
            envelope: envelope_of(levels, v.sample_rate as int),
            ..v
        }
    }
}

/// The sample of harmonic `k` in this pass: the integral that the engine
/// demodulated and the drift that the host tells of it.
pub open spec fn sampled(v: EngineView, drift: Drift, k: int) -> LockinSample {
    LockinSample {
        z: if k == 1 {
            v.pending1
        } else {
            v.pending2
        },
        delta_phi: drift.delta_phi,
        cents: drift.cents,
    }
}

/// What harmonic `k` measured in this pass.
pub open spec fn measured(v: EngineView, drift: Drift, k: int) -> Measurement {
    measurement_of(
        sampled(v, drift, k),
        gap_of(v),
        v.sample_rate as int,
        v.reference_hz as int,
        k,
    )
}

/// The engine after a pass is concluded with the drifts of the second
/// harmonic and of the fundamental: the tracker has taken what the
/// harmonics measured, and the window is the last one measured.
pub open spec fn after_pass(v: EngineView, drift2: Drift, drift1: Drift) -> EngineView {
    EngineView {
        tracker: concluded(v.tracker, context_of(v), measured(v, drift2, 2), measured(v, drift1, 1)),
        last_window_total: v.total_samples,
        ..v
    }
}

/// A flag as the consumer reads it: one for true, zero for false.
pub open spec fn flag(b: bool) -> i32 {
    if b {
        1
    } else {
        0
    }
}

/// The analysis engine.
pub struct Engine {
    ring: InputRing<i64>,
    sample_rate: i64,
    total_samples: u64,
    last_window_total: u64,
    rms: i64,
    peak_bin: usize,
    peak_mag: i64,
    harm_freqs: Vec<i64>,
    harm_mags: Vec<i64>,
    band: Vec<i64>,
    band_start: usize,
    zoom: Vec<i64>,
    gz_best_cents: i64,
    gz_best_mag: i64,
    gz2_best_cents: i64,
    gz2_best_mag: i64,
    reference_hz: i64,
    cap2: Vec<i64>,
    envelope: Envelope,
    pending2: Phasor,
    pending1: Phasor,
    tracker: Tracker,
}

impl View for Engine {
    type V = EngineView;

    closed spec fn view(&self) -> EngineView {
        EngineView {
            samples: self.ring.samples(),
            write_pos: self.ring.position(),
            sample_rate: self.sample_rate,
            total_samples: self.total_samples,
            last_window_total: self.last_window_total,
            rms: self.rms,
            peak_bin: self.peak_bin,
            peak_mag: self.peak_mag,
            harm_freqs: self.harm_freqs@,
            harm_mags: self.harm_mags@,
            band: self.band@,
            band_start: self.band_start,
            zoom: self.zoom@,
            gz_best_cents: self.gz_best_cents,
            gz_best_mag: self.gz_best_mag,
            gz2_best_cents: self.gz2_best_cents,
            gz2_best_mag: self.gz2_best_mag,
            reference_hz: self.reference_hz,
            cap2: self.cap2@,
            envelope: self.envelope,
            pending2: self.pending2,
            pending1: self.pending1,
            tracker: self.tracker@,
        }
    }
}

impl Engine {
    /// The representation is consistent.
    pub closed spec fn wf(&self) -> bool {
        &&& self.ring.wf()
        &&& self.tracker.wf()
        &&& self.harm_freqs.len() == HARM_COUNT
        &&& self.harm_mags.len() == HARM_COUNT
        &&& self.zoom.len() == ZOOM_BINS
        &&& self.band.len() <= BAND_DISP_CAP
        &&& self.peak_bin <= HALF_N
    }

    /// The shape of a well-formed engine: the write position lies in the
    /// ring, there are five harmonics, the zoom grid has its bins, the band
    /// display is within its capacity, and the peak is a bin of the
    /// spectrum.
    pub proof fn lemma_shape(&self)
        requires
            self.wf(),
        ensures
            self@.samples.len() <= usize::MAX,
            self@.samples.len() == 0 ==> self@.write_pos == 0,
            self@.samples.len() > 0 ==> self@.write_pos < self@.samples.len(),
            self@.harm_freqs.len() == HARM_COUNT,
            self@.harm_mags.len() == HARM_COUNT,
            self@.zoom.len() == ZOOM_BINS,
            self@.band.len() <= BAND_DISP_CAP,
            self@.peak_bin <= HALF_N,
    {
        self.ring.lemma_wf();
    }

    /// An engine with a silent ring of `capacity` samples.
    pub fn init(capacity: usize) -> (engine: Self)
        ensures
            engine.wf(),
            engine@ == engine_initial(capacity as nat),
    {
        let ring: InputRing<i64> = InputRing::new(capacity, 0);
        let harm_freqs: Vec<i64> = zeros(HARM_COUNT);
        let harm_mags: Vec<i64> = zeros(HARM_COUNT);
        let zoom: Vec<i64> = zeros(ZOOM_BINS);
        Engine {
            ring,
            sample_rate: DEFAULT_SAMPLE_RATE,
            total_samples: 0,
            last_window_total: 0,
            rms: 0,
            peak_bin: 0,
            peak_mag: 0,
            harm_freqs,
            harm_mags,
            band: Vec::new(),
            band_start: 0,
            zoom,
            gz_best_cents: 0,
            gz_best_mag: 0,
            gz2_best_cents: 0,
            gz2_best_mag: 0,
            reference_hz: 0,
            cap2: Vec::new(),
            envelope: Envelope { len: 0, peak_idx: 0, peak_val: 0, peak_ms: 0 },
            pending2: Phasor { re: 0, im: 0 },
            pending1: Phasor { re: 0, im: 0 },
            tracker: Tracker::new(),
        }
    }

    /// Sets the nominal input sample rate, in hertz and fixed point like
    /// every other quantity, so that a rate need not be whole.
    pub fn set_sample_rate(&mut self, sample_rate: i64)
        ensures
            final(self).wf() == old(self).wf(),
            final(self)@ == (EngineView { sample_rate, ..old(self)@ }),
    {
        self.sample_rate = sample_rate;
    }

    /// The ring, by slot, for reading.
    pub fn get_input_ptr(&self) -> (samples: &Vec<i64>)
        ensures
            samples@ == self@.samples,
    {
        self.ring.slots()
    }

    /// The capacity of the ring, in samples.
    pub fn get_input_capacity(&self) -> (c: usize)
        ensures
            c == self@.samples.len(),
    {
        self.ring.capacity()
    }

    /// The write position.
    pub fn get_write_pos(&self) -> (p: usize)
        ensures
            p == self@.write_pos,
    {
        self.ring.write_pos()
    }

    /// Moves the write position to `pos`, reduced into the ring. Nothing
    /// else changes.
    pub fn set_write_pos(&mut self, pos: usize)
        requires
            old(self).wf(),
            old(self)@.samples.len() > 0,
        ensures
            final(self).wf(),
            final(self)@ == with_write_pos(old(self)@, pos),
    {
        self.ring.seek(pos);
    }

    /// Stores `sample` in slot `index` of the ring.
    pub fn write_sample(&mut self, index: usize, sample: i64)
        requires
            old(self).wf(),
            index < old(self)@.samples.len(),
        ensures
            final(self).wf(),
            final(self)@ == (EngineView {
                samples: old(self)@.samples.update(index as int, sample),
                ..old(self)@
            }),
    {
        self.ring.store(index, sample);
    }

    /// Stores `block` in the ring from the write position on, wrapping
    /// around the end, and moves the write position past it.
    pub fn write_block(&mut self, block: &Vec<i64>)
        requires
            old(self).wf(),
            old(self)@.samples.len() > 0,
        ensures
            final(self).wf(),
            final(self)@ == (EngineView {
                samples: stored_block(old(self)@.samples, old(self)@.write_pos as int, block@),
                write_pos: ((old(self)@.write_pos + block.len()) % (old(self)@.samples.len() as int))
                    as nat,
                ..old(self)@
            }),
    {
        self.ring.store_block(block);
    }

    /// The sample in slot `index` of the ring.
    pub fn read_sample(&self, index: usize) -> (sample: i64)
        requires
            index < self@.samples.len(),
        ensures
            sample == self@.samples[index as int],
    {
        self.ring.load(index)
    }

    /// The `n` samples that end at the write position, oldest first.
    pub fn recent(&self, n: usize) -> (out: Vec<i64>)
        requires
            self.wf(),
            self@.samples.len() > 0,
        ensures
            out@ == recent_samples(self@.samples, self@.write_pos as int, n as nat),
    {
        self.ring.recent(n)
    }

    /// The time buffer of a pass: the samples of the window, averaged in
    /// pairs and multiplied by the coefficients of `window`.
    pub fn time_buffer(&self, window: &Vec<i64>) -> (out: Vec<i64>)
        requires
            self.wf(),
            self@.samples.len() > 0,
            window.len() == FFT_N,
        ensures
            out@ == time_of(self@, window@),
    {
        let samples: Vec<i64> = self.ring.recent(WINDOW_SAMPLES);
        time_buffer(&samples, window)
    }

    /// Accounts for a quantum of `n` samples that end at the write
    /// position: records their RMS, counts them, and says whether a pass is
    /// due.
    pub fn process_quantum(&mut self, n: usize) -> (q: Quantum)
        requires
            old(self).wf(),
        ensures
            final(self).wf(),
            q == quantum_of(old(self)@, n as nat),
            final(self)@ == after_quantum(old(self)@, n as nat),
            q != Quantum::Skipped && old(self)@.total_samples < u64::MAX
                ==> final(self)@.total_samples > old(self)@.total_samples,
    {
        let capacity: usize = self.ring.capacity();
        if capacity == 0 || n == 0 {
            return Quantum::Skipped;
        }
        self.rms = rms_recent(&self.ring, n);
        let n_wide: u64 = n as u64;
        self.total_samples = if n_wide > u64::MAX - self.total_samples {
            u64::MAX
        } else {
            self.total_samples + n_wide
        };
        if capacity >= WINDOW_SAMPLES && self.total_samples >= WINDOW_SAMPLES as u64
            && self.ring.write_pos() % PASS_STRIDE == 0 {
            Quantum::Pass
        } else {
            Quantum::RmsOnly
        }
    }

    /// Records the coarse spectrum of this pass, given by the magnitudes of
    /// its bins: finds the peak of the band, the harmonics of the peak, and
    /// the band display.
    pub fn record_spectrum(&mut self, mags: &Vec<i64>)
        requires
            old(self).wf(),
            mags.len() == HALF_N + 1,
        ensures
            final(self).wf(),
            final(self)@ == after_spectrum(old(self)@, mags@),
    {
        let (lo, hi) = band_range(self.sample_rate);
        let (peak, level) = peak_search(mags, lo, hi);
        self.peak_bin = peak;
        self.peak_mag = level;
        let mut freqs: Vec<i64> = Vec::new();
        let mut levels: Vec<i64> = Vec::new();
        let mut i: usize = 0;
        while i < HARM_COUNT
            invariant
                i <= HARM_COUNT,
                mags.len() == HALF_N + 1,
                freqs@ == harmonic_freqs(mags@, peak as int, self.sample_rate as int).take(
                    i as int,
                ),
                levels@ == harmonic_mags(mags@, peak as int, self.sample_rate as int).take(
                    i as int,
                ),
            decreases HARM_COUNT - i,
        {
            let (f, m) = harmonic(mags, peak, harmonic_factor(i), self.sample_rate);
            freqs.push(f);
            levels.push(m);
            proof {
                assert(freqs@ == harmonic_freqs(
                    mags@,
                    peak as int,
                    self.sample_rate as int,
                ).take(i + 1));
                assert(levels@ == harmonic_mags(
                    mags@,
                    peak as int,
                    self.sample_rate as int,
                ).take(i + 1));
            }
            i += 1;
        }
        proof {
            let all_f = harmonic_freqs(mags@, peak as int, self.sample_rate as int);
            let all_m = harmonic_mags(mags@, peak as int, self.sample_rate as int);
            assert(all_f.take(HARM_COUNT as int) == all_f);
            assert(all_m.take(HARM_COUNT as int) == all_m);
        }
        self.harm_freqs = freqs;
        self.harm_mags = levels;
        self.band = band_display(mags, lo, hi);
        self.band_start = lo;
    }

    /// Records the zoom grid of this pass from the spectra of the
    /// micro-shifts and the raw micro-bin index of each bin of the cents
    /// grid.
    pub fn record_zoom(&mut self, spectra: &Vec<Vec<i64>>, micro: &Vec<i64>)
        requires
            old(self).wf(),
            spectra_wf(spectra_view(spectra)),
            ZOOM_N * spectra.len() <= usize::MAX,
            micro.len() == ZOOM_BINS,
        ensures
            final(self).wf(),
            final(self)@ == (EngineView {
                zoom: projected(super_grid(spectra_view(spectra)), micro@),
                ..old(self)@
            }),
    {
        let grid: Vec<i64> = interleave_shifts(spectra);
        assert(grid.len() == ZOOM_N * spectra.len());
        assert(ZOOM_N * spectra.len() > 0) by (nonlinear_arith)
            requires
                spectra.len() > 0,
                ZOOM_N == 2048,
        ;
        self.zoom = project_grid(&grid, micro);
    }

    /// Records the dense sweep around the fundamental, given by the
    /// magnitudes of its probes: the offset and magnitude of the strongest.
    pub fn record_sweep(&mut self, probes: &Vec<i64>)
        requires
            old(self).wf(),
            probes.len() == sweep_len(SWEEP_SPAN_1X as int),
        ensures
            final(self).wf(),
            final(self)@ == (EngineView {
                gz_best_cents: sweep_best_cents(probes@, SWEEP_SPAN_1X as int) as i64,
                gz_best_mag: sweep_best_mag(probes@) as i64,
                ..old(self)@
            }),
    {
        let (cents, level) = best_probe(probes, SWEEP_SPAN_1X);
        self.gz_best_cents = cents;
        self.gz_best_mag = level;
    }

    /// Records the dense sweep around the second harmonic, given by the
    /// magnitudes of its probes: the offset and magnitude of the strongest.
    pub fn record_harmonic_sweep(&mut self, probes: &Vec<i64>)
        requires
            old(self).wf(),
            probes.len() == sweep_len(SWEEP_SPAN_2X as int),
        ensures
            final(self).wf(),
            final(self)@ == (EngineView {
                gz2_best_cents: sweep_best_cents(probes@, SWEEP_SPAN_2X as int) as i64,
                gz2_best_mag: sweep_best_mag(probes@) as i64,
                ..old(self)@
            }),
    {
        let (cents, level) = best_probe(probes, SWEEP_SPAN_2X);
        self.gz2_best_cents = cents;
        self.gz2_best_mag = level;
    }

    /// Chooses the reference frequency of the lock-in: the refined
    /// fundamental where the sweep found a peak, else the coarse peak.
    pub fn select_reference(&mut self, refined_hz: i64) -> (f: i64)
        requires
            old(self).wf(),
        ensures
            final(self).wf(),
            f == reference_of(old(self)@, refined_hz),
            final(self)@ == (EngineView { reference_hz: f, ..old(self)@ }),
    {
        let f: i64 = if self.gz_best_mag > 0 && refined_hz > 0 {
            refined_hz
        } else {
            self.get_last_peak_freq_hz()
        };
        self.reference_hz = f;
        f
    }

    /// Whether harmonic `k` of the reference is demodulated in this pass.
    pub fn lockin_enabled(&self, k: u32) -> (on: bool)
        ensures
            on == lockin_enabled_for(self@.reference_hz as int, k as int, self@.sample_rate as int),
    {
        lockin_enabled(self.reference_hz, k, self.sample_rate)
    }

    /// Converts the phase drift of harmonic `k` since the last concluded
    /// pass, in radians, into the ratio of the measured frequency to the
    /// demodulation frequency.
    pub fn drift_ratio(&self, k: u32, delta_phi: i64) -> (r: i64)
        ensures
            r == drift_ratio_of(
                delta_phi as int,
                gap_of(self@),
                self@.sample_rate as int,
                k * self@.reference_hz,
            ),
    {
        drift_ratio(delta_phi, self.window_gap(), self.sample_rate, self.reference_hz, k)
    }

    /// Demodulates harmonic `k` of this pass: takes the integral of the
    /// time buffer against the reference given by the cosine and the sine
    /// of its phase at each sample, turns it back by the phase of the
    /// window's first sample, whose cosine and sine are `c0` and `s0`, and
    /// keeps it for the conclusion of the pass. The second harmonic leaves
    /// the strike envelope and its peak as well. `k` is 1 for the
    /// fundamental, anything else for the second harmonic.
    pub fn demodulate(
        &mut self,
        k: u32,
        window: &Vec<i64>,
        cos: &Vec<i64>,
        sin: &Vec<i64>,
        c0: i64,
        s0: i64,
    )
        requires
            old(self).wf(),
            old(self)@.samples.len() > 0,
            window.len() == FFT_N,
            cos.len() == FFT_N,
            sin.len() == FFT_N,
        ensures
            final(self).wf(),
            final(self)@ == after_demodulation(old(self)@, k as int, window@, cos@, sin@, c0, s0),
    {
        let time: Vec<i64> = self.time_buffer(window);
        let (z, levels) = demodulate(&time, cos, sin);
        if k == 1 {
            self.pending1 = turn(z, c0, s0);
        } else {
            self.pending2 = turn(z, c0, s0);
            self.envelope = envelope_peak(&levels, self.sample_rate);
            self.cap2 = levels;
        }
    }

    /// The product of the integral that this pass demodulated of harmonic
    /// `k` with the conjugate of the one kept from the last pass, real part
    /// first: its argument is the phase drift. `k` is 1 for the
    /// fundamental, anything else for the second harmonic.
    pub fn phase_product(&self, k: u32) -> (d: (i128, i128))
        ensures
            (d.0 as int, d.1 as int) == if k == 1 {
                phase_product_of(self@.pending1, self@.tracker.lockin1.prev)
            } else {
                phase_product_of(self@.pending2, self@.tracker.lockin2.prev)
            },
    {
        if k == 1 {
            phase_product(self.pending1, self.tracker.lockin1().prev)
        } else {
            phase_product(self.pending2, self.tracker.lockin2().prev)
        }
    }

    /// Concludes the pass with the drifts of the second harmonic and of
    /// the fundamental. What a harmonic measured counts only where the
    /// harmonic is demodulated, and its reading only where an earlier pass
    /// left an integral to compare with.
    pub fn conclude_pass(&mut self, drift2: Drift, drift1: Drift)
        requires
            old(self).wf(),
        ensures
            final(self).wf(),
            final(self)@ == after_pass(old(self)@, drift2, drift1),
    {
        let gap: u64 = self.window_gap();
        let sample2: LockinSample = LockinSample {
            z: self.pending2,
            delta_phi: drift2.delta_phi,
            cents: drift2.cents,
        };
        let sample1: LockinSample = LockinSample {
            z: self.pending1,
            delta_phi: drift1.delta_phi,
            cents: drift1.cents,
        };
        let m2: Measurement = measure(sample2, gap, self.sample_rate, self.reference_hz, 2);
        let m1: Measurement = measure(sample1, gap, self.sample_rate, self.reference_hz, 1);
        let ctx: PassContext = PassContext {
            total: self.total_samples,
            sample_rate: self.sample_rate,
            reference_hz: self.reference_hz,
            envelope: self.envelope,
            harmonic2_hz: self.harm_freqs[0],
        };
        self.tracker.conclude(ctx, m2, m1);
        self.last_window_total = self.total_samples;
    }

    /// Clears the latched capture and the long average.
    pub fn reset_capture(&mut self)
        requires
            old(self).wf(),
        ensures
            final(self).wf(),
            final(self)@ == (EngineView {
                tracker: tracker_reset(old(self)@.tracker),
                ..old(self)@
            }),
            !final(self)@.tracker.capture.valid,
    {
        self.tracker.reset_capture();
    }

    /// The number of samples delivered so far.
    pub fn get_total_samples(&self) -> (n: u64)
        ensures
            n == self@.total_samples,
    {
        self.total_samples
    }

    /// Twice the index, in the decimated stream, of the first sample of the
    /// window that ends now: the sample count less the span of a window.
    pub fn window_origin_halves(&self) -> (h: i128)
        ensures
            h == self@.total_samples - WINDOW_SAMPLES,
    {
        self.total_samples as i128 - WINDOW_SAMPLES as i128
    }

    /// The number of samples between the last concluded pass and now: the
    /// time base of the phase drift.
    pub fn window_gap(&self) -> (n: u64)
        ensures
            n == gap_of(self@),
    {
        if self.total_samples >= self.last_window_total {
            self.total_samples - self.last_window_total
        } else {
            0
        }
    }

    /// The RMS of the last quantum.
    pub fn get_last_rms(&self) -> (x: i64)
        ensures
            x == self@.rms,
    {
        self.rms
    }

    /// The bin of the coarse peak.
    pub fn get_last_peak_bin(&self) -> (b: usize)
        ensures
            b == self@.peak_bin,
    {
        self.peak_bin
    }

    /// The frequency of the coarse peak, in hertz.
    pub fn get_last_peak_freq_hz(&self) -> (f: i64)
        requires
            self.wf(),
        ensures
            f == coarse_hz(self@),
    {
        fractional_bin_hz(self.peak_bin as i128 * 1_000_000_000_000, self.sample_rate)
    }

    /// The magnitude of the coarse peak.
    pub fn get_last_peak_mag(&self) -> (m: i64)
        ensures
            m == self@.peak_mag,
    {
        self.peak_mag
    }

    /// The band display: the magnitudes of the bins of the band.
    pub fn get_band_display_ptr(&self) -> (band: &Vec<i64>)
        ensures
            band@ == self@.band,
    {
        &self.band
    }

    /// The number of bins in the band display.
    pub fn get_band_display_len(&self) -> (n: usize)
        ensures
            n == self@.band.len(),
    {
        self.band.len()
    }

    /// The bin at which the band display starts.
    pub fn get_band_display_start_bin(&self) -> (b: usize)
        ensures
            b == self@.band_start,
    {
        self.band_start
    }

    /// The number of harmonics.
    pub fn get_harmonics_len(&self) -> (n: usize)
        ensures
            n == HARM_COUNT,
    {
        HARM_COUNT
    }

    /// The interpolated frequencies of the harmonics, in hertz.
    pub fn get_harmonics_freq_ptr(&self) -> (f: &Vec<i64>)
        requires
            self.wf(),
        ensures
            f@ == self@.harm_freqs,
            f.len() == HARM_COUNT,
    {
        proof {
            self.lemma_shape();
        }
        &self.harm_freqs
    }

    /// The magnitudes of the harmonics.
    pub fn get_harmonics_mag_ptr(&self) -> (m: &Vec<i64>)
        requires
            self.wf(),
        ensures
            m@ == self@.harm_mags,
            m.len() == HARM_COUNT,
    {
        proof {
            self.lemma_shape();
        }
        &self.harm_mags
    }

    /// The last lock-in reading of the second harmonic, in cents.
    pub fn get_lockin2_cents(&self) -> (x: i64)
        ensures
            x == self@.tracker.lockin2.last.cents,
    {
        self.tracker.lockin2().last.cents
    }

    /// The magnitude of the last lock-in reading of the second harmonic.
    pub fn get_lockin2_mag(&self) -> (x: i64)
        ensures
            x == self@.tracker.lockin2.last.mag,
    {
        self.tracker.lockin2().last.mag
    }

    /// The last lock-in reading of the second harmonic, as a ratio.
    pub fn get_lockin2_ratio(&self) -> (x: i64)
        ensures
            x == self@.tracker.lockin2.last.ratio,
    {
        self.tracker.lockin2().last.ratio
    }

    /// The last lock-in reading of the fundamental, as a ratio.
    pub fn get_lockin1_ratio(&self) -> (x: i64)
        ensures
            x == self@.tracker.lockin1.last.ratio,
    {
        self.tracker.lockin1().last.ratio
    }

    /// The last lock-in reading of the fundamental, in cents.
    pub fn get_lockin1_cents(&self) -> (x: i64)
        ensures
            x == self@.tracker.lockin1.last.cents,
    {
        self.tracker.lockin1().last.cents
    }

    /// The magnitude of the last lock-in reading of the fundamental.
    pub fn get_lockin1_mag(&self) -> (x: i64)
        ensures
            x == self@.tracker.lockin1.last.mag,
    {
        self.tracker.lockin1().last.mag
    }

    /// Whether an earlier pass left harmonic `k` a phase to compare with;
    /// `k` is 1 for the fundamental, anything else for the second harmonic.
    pub fn lockin_has_history(&self, k: u32) -> (b: bool)
        ensures
            b == if k == 1 {
                self@.tracker.lockin1.has_prev
            } else {
                self@.tracker.lockin2.has_prev
            },
    {
        if k == 1 {
            self.tracker.lockin1().has_prev
        } else {
            self.tracker.lockin2().has_prev
        }
    }

    /// The zoom grid: one magnitude for each of its 2048 bins.
    pub fn get_zoom_ptr(&self) -> (z: &Vec<i64>)
        requires
            self.wf(),
        ensures
            z@ == self@.zoom,
            z.len() == ZOOM_BINS,
    {
        proof {
            self.lemma_shape();
        }
        &self.zoom
    }

    /// The number of bins of the zoom grid.
    pub fn get_zoom_len(&self) -> (n: usize)
        ensures
            n == ZOOM_BINS,
    {
        ZOOM_BINS
    }

    /// The offset of the first bin of the zoom grid, in cents.
    pub fn get_zoom_start_cents(&self) -> (c: i64)
        ensures
            c == ZOOM_START_CENTS,
            c == -120 * UNIT,
    {
        ZOOM_START_CENTS
    }

    /// The width of a bin of the zoom grid, in cents.
    pub fn get_zoom_bin_cents(&self) -> (c: i64)
        ensures
            c == ZOOM_BIN_CENTS,
            c * ZOOM_BINS == 240 * UNIT,
    {
        ZOOM_BIN_CENTS
    }

    /// The strike envelope of the last pass that recorded one.
    pub fn get_cap2_ptr(&self) -> (env: &Vec<i64>)
        ensures
            env@ == self@.cap2,
    {
        &self.cap2
    }

    /// The length of the strike envelope.
    pub fn get_cap2_len(&self) -> (n: usize)
        ensures
            n == self@.envelope.len,
    {
        self.envelope.len
    }

    /// The index of the envelope peak.
    pub fn get_cap2_peak_idx(&self) -> (i: usize)
        ensures
            i == self@.envelope.peak_idx,
    {
        self.envelope.peak_idx
    }

    /// The value of the envelope peak.
    pub fn get_cap2_peak_val(&self) -> (x: i64)
        ensures
            x == self@.envelope.peak_val,
    {
        self.envelope.peak_val
    }

    /// The time of the envelope peak from the start of the window, in
    /// milliseconds.
    pub fn get_cap2_peak_ms(&self) -> (x: i64)
        ensures
            x == self@.envelope.peak_ms,
    {
        self.envelope.peak_ms
    }

    /// One if a capture is latched, else zero.
    pub fn get_capture_valid(&self) -> (v: i32)
        ensures
            v == flag(self@.tracker.capture.valid),
    {
        if self.tracker.capture().valid {
            1
        } else {
            0
        }
    }

    /// The captured ratio.
    pub fn get_capture_ratio(&self) -> (x: i64)
        ensures
            x == self@.tracker.capture.ratio,
    {
        self.tracker.capture().ratio
    }

    /// The captured magnitude.
    pub fn get_capture_mag(&self) -> (x: i64)
        ensures
            x == self@.tracker.capture.mag,
    {
        self.tracker.capture().mag
    }

    /// The time of the captured attack's peak, in milliseconds.
    pub fn get_capture_peak_ms(&self) -> (x: i64)
        ensures
            x == self@.tracker.capture.peak_ms,
    {
        self.tracker.capture().peak_ms
    }

    /// The smoothed best guess of the ratio.
    pub fn get_best2_ratio(&self) -> (x: i64)
        ensures
            x == self@.tracker.best2_ratio,
    {
        self.tracker.best2_ratio()
    }

    /// The hybrid estimate of the ratio.
    pub fn get_hybrid2_ratio(&self) -> (x: i64)
        ensures
            x == self@.tracker.hybrid_ratio,
    {
        self.tracker.hybrid_ratio()
    }

    /// The median of the recent cents.
    pub fn get_debug_stab_med_cents(&self) -> (x: i64)
        ensures
            x == self@.tracker.stats.med_cents,
    {
        self.tracker.stats().med_cents
    }

    /// The MAD of the recent cents.
    pub fn get_debug_stab_mad_cents(&self) -> (x: i64)
        ensures
            x == self@.tracker.stats.mad_cents,
    {
        self.tracker.stats().mad_cents
    }

    /// The MAD of the recent ratios, in parts per million.
    pub fn get_debug_stab_mad_ppm(&self) -> (x: i64)
        ensures
            x == self@.tracker.stats.mad_ppm,
    {
        self.tracker.stats().mad_ppm
    }

    /// One if the long average has frozen, else zero.
    pub fn get_long2_ready(&self) -> (v: i32)
        ensures
            v == flag(self@.tracker.long.ready),
    {
        if self.tracker.long_ready() {
            1
        } else {
            0
        }
    }

    /// The frozen ratio of the long average.
    pub fn get_long2_ratio(&self) -> (x: i64)
        ensures
            x == self@.tracker.long.ratio,
    {
        self.tracker.long_ratio()
    }

    /// The offset of the strongest probe of the sweep around the
    /// fundamental, in cents.
    pub fn get_gz_best_cents(&self) -> (x: i64)
        ensures
            x == self@.gz_best_cents,
    {
        self.gz_best_cents
    }

    /// The magnitude of the strongest probe of the sweep around the
    /// fundamental.
    pub fn get_gz_best_mag(&self) -> (x: i64)
        ensures
            x == self@.gz_best_mag,
    {
        self.gz_best_mag
    }

    /// The offset of the strongest probe of the sweep around the second
    /// harmonic, in cents.
    pub fn get_gz2_best_cents(&self) -> (x: i64)
        ensures
            x == self@.gz2_best_cents,
    {
        self.gz2_best_cents
    }

    /// The magnitude of the strongest probe of the sweep around the second
    /// harmonic.
    pub fn get_gz2_best_mag(&self) -> (x: i64)
        ensures
            x == self@.gz2_best_mag,
    {
        self.gz2_best_mag
    }
}

/// A vector of `n` zeros.
fn zeros(n: usize) -> (v: Vec<i64>)
    ensures
        v@ == Seq::new(n as nat, |i: int| 0i64),
{
    let mut v: Vec<i64> = Vec::new();
    let mut i: usize = 0;
    while i < n
        invariant
            i <= n,
            v@ == Seq::new(i as nat, |k: int| 0i64),
        decreases n - i,
    {
        v.push(0);
        proof {
            assert(v@ == Seq::new((i + 1) as nat, |k: int| 0i64));
        }
        i += 1;
    }
    v
}

} // verus!
