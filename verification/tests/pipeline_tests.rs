//! End-to-end runs: a reference host does the signal arithmetic in floating
//! point and drives the engine through whole passes on synthetic tones.

use std::f64::consts::PI;
use std::sync::Arc;

use realfft::{RealFftPlanner, RealToComplex};
use rustfft::num_complex::Complex32;
use rustfft::{Fft, FftPlanner};

use tuner_core::fixed::UNIT;
use tuner_core::engine::{Engine, Quantum};
use tuner_core::lockin::Drift;
use tuner_core::params::{
    FFT_N, SWEEP_SPAN_1X, SWEEP_SPAN_2X, ZOOM_BINS, ZOOM_DECIM, ZOOM_N,
};
use tuner_core::zoom::{micro_bin, probe_cents, sweep_count, zoom_cents};

const CAPACITY: usize = 131072;
const RATE: f64 = 48000.0;
const SHIFTS: usize = 4;

fn to_fixed(x: f64) -> i64 {
    (x * 1e12).round() as i64
}

fn from_fixed(x: i64) -> f64 {
    x as f64 / 1e12
}

fn cents_of(ratio: f64) -> f64 {
    1200.0 * ratio.max(1e-12).log2()
}

struct Host {
    engine: Engine,
    real_fft: Arc<dyn RealToComplex<f32>>,
    zoom_fft: Arc<dyn Fft<f32>>,
    window: Vec<i64>,
    zoom_window: Vec<f32>,
    passes: usize,
    coarse_reference: bool,
}

impl Host {
    fn new() -> Host {
        let mut real_planner = RealFftPlanner::<f32>::new();
        let mut planner = FftPlanner::<f32>::new();
        let window: Vec<i64> = (0..FFT_N)
            .map(|i| {
                let x = i as f64 / (FFT_N - 1) as f64;
                to_fixed(
                    0.35875 - 0.48829 * (2.0 * PI * x).cos() + 0.14128 * (4.0 * PI * x).cos()
                        - 0.01168 * (6.0 * PI * x).cos(),
                )
            })
            .collect();
        let zoom_window: Vec<f32> = (0..ZOOM_N)
            .map(|i| (0.5 - 0.5 * (2.0 * PI * i as f64 / ZOOM_N as f64).cos()) as f32)
            .collect();
        Host {
            engine: Engine::init(CAPACITY),
            real_fft: real_planner.plan_fft_forward(FFT_N),
            zoom_fft: planner.plan_fft_forward(ZOOM_N),
            window,
            zoom_window,
            passes: 0,
            coarse_reference: false,
        }
    }

    /// Writes the samples at the write position, moves it on, and processes
    /// the quantum.
    fn feed(&mut self, samples: &[f32]) {
        let block: Vec<i64> = samples.iter().map(|s| to_fixed(*s as f64)).collect();
        self.engine.write_block(&block);
        if self.engine.process_quantum(samples.len()) == Quantum::Pass {
            self.pass();
        }
    }

    fn baseband(&self, time: &[f32], center_hz: f64, fs_eff: f64) -> Vec<Complex32> {
        let w = 2.0 * PI * center_hz / fs_eff;
        let mut out = Vec::with_capacity(ZOOM_N);
        for block in 0..ZOOM_N {
            let mut re = 0.0f64;
            let mut im = 0.0f64;
            for k in 0..ZOOM_DECIM {
                let n = block * ZOOM_DECIM + k;
                let angle = w * n as f64;
                re += time[n] as f64 * angle.cos();
                im -= time[n] as f64 * angle.sin();
            }
            out.push(Complex32::new(
                (re / ZOOM_DECIM as f64) as f32,
                (im / ZOOM_DECIM as f64) as f32,
            ));
        }
        out
    }

    fn sweep(&self, base: &[Complex32], center_hz: f64, span: usize, fs_zoom: f64) -> Vec<i64> {
        let count = sweep_count(span);
        let mut mags = Vec::with_capacity(count);
        for j in 0..count {
            let cents = from_fixed(probe_cents(span, j));
            let offset_hz = center_hz * (cents / 1200.0).exp2() - center_hz;
            let w = 2.0 * PI * offset_hz / fs_zoom;
            let mut re = 0.0f64;
            let mut im = 0.0f64;
            for (k, v) in base.iter().enumerate() {
                let angle = w * k as f64;
                let (s, c) = angle.sin_cos();
                re += v.re as f64 * c + v.im as f64 * s;
                im += v.im as f64 * c - v.re as f64 * s;
            }
            mags.push(to_fixed((re * re + im * im).sqrt()));
        }
        mags
    }

    /// Has the engine demodulate harmonic `k` at `f_k`, against the
    /// reference whose tables are built here.
    fn demodulate(&mut self, k: u32, f_k: f64, fs_eff: f64) {
        let w = 2.0 * PI * f_k / fs_eff;
        let cos: Vec<i64> = (0..FFT_N).map(|n| to_fixed((w * n as f64).cos())).collect();
        let sin: Vec<i64> = (0..FFT_N).map(|n| to_fixed((w * n as f64).sin())).collect();
        let origin = self.engine.window_origin_halves() as f64 * 0.5;
        let (s0, c0) = (w * origin).sin_cos();
        self.engine.demodulate(k, &self.window, &cos, &sin, to_fixed(c0), to_fixed(s0));
    }

    /// The drift of harmonic `k` in this pass; none where no earlier pass
    /// left an integral to compare with.
    fn drift(&self, k: u32) -> Drift {
        if !self.engine.lockin_has_history(k) {
            return Drift { delta_phi: 0, cents: 0 };
        }
        let (d_re, d_im) = self.engine.phase_product(k);
        // the phase of the aligned integral advances by 2 pi (f - f_k) dt
        let delta_phi = to_fixed((d_im as f64).atan2(d_re as f64));
        let ratio = from_fixed(self.engine.drift_ratio(k, delta_phi));
        Drift { delta_phi, cents: to_fixed(cents_of(ratio)) }
    }

    fn pass(&mut self) {
        self.passes += 1;
        let fs_eff = RATE * 0.5;
        let fs_zoom = fs_eff / ZOOM_DECIM as f64;
        let time: Vec<f32> =
            self.engine.time_buffer(&self.window).iter().map(|x| from_fixed(*x) as f32).collect();

        let mut input = time.clone();
        let mut bins = self.real_fft.make_output_vec();
        self.real_fft.process(&mut input, &mut bins).unwrap();
        let mags: Vec<i64> = bins.iter().map(|c| to_fixed(c.norm() as f64)).collect();
        self.engine.record_spectrum(&mags);

        let base1 = self.baseband(&time, 440.0, fs_eff);
        let base2 = self.baseband(&time, 880.0, fs_eff);
        let mut spectra: Vec<Vec<i64>> = Vec::with_capacity(SHIFTS);
        for s in 0..SHIFTS {
            let theta = -2.0 * PI * s as f64 / (ZOOM_N * SHIFTS) as f64;
            let mut buf: Vec<Complex32> = (0..ZOOM_N)
                .map(|k| {
                    let (sin, cos) = (theta * k as f64).sin_cos();
                    let v = base1[k] * Complex32::new(cos as f32, sin as f32);
                    v * self.zoom_window[k]
                })
                .collect();
            self.zoom_fft.process(&mut buf);
            spectra.push(buf.iter().map(|c| to_fixed(c.norm() as f64)).collect());
        }
        let micro: Vec<i64> = (0..ZOOM_BINS)
            .map(|i| {
                let cents = from_fixed(zoom_cents(i));
                let offset_hz = 440.0 * (cents / 1200.0).exp2() - 440.0;
                micro_bin(to_fixed(offset_hz), 48000 * UNIT, SHIFTS)
            })
            .collect();
        self.engine.record_zoom(&spectra, &micro);

        let probes1 = self.sweep(&base1, 440.0, SWEEP_SPAN_1X, fs_zoom);
        self.engine.record_sweep(&probes1);
        let probes2 = self.sweep(&base2, 880.0, SWEEP_SPAN_2X, fs_zoom);
        self.engine.record_harmonic_sweep(&probes2);

        let refined1 = if self.coarse_reference {
            0.0
        } else {
            440.0 * (from_fixed(self.engine.get_gz_best_cents()) / 1200.0).exp2()
        };
        let f_ref = from_fixed(self.engine.select_reference(to_fixed(refined1)));

        let mut drift2 = Drift { delta_phi: 0, cents: 0 };
        if self.engine.lockin_enabled(2) {
            self.demodulate(2, 2.0 * f_ref, fs_eff);
            drift2 = self.drift(2);
        }
        let mut drift1 = Drift { delta_phi: 0, cents: 0 };
        if self.engine.lockin_enabled(1) {
            self.demodulate(1, f_ref, fs_eff);
            drift1 = self.drift(1);
        }
        self.engine.conclude_pass(drift2, drift1);
    }

    /// Feeds `count` samples of `signal`, a function of the sample index,
    /// in quanta of 128.
    fn play(&mut self, start: usize, count: usize, signal: &dyn Fn(usize) -> f64) {
        let mut n = start;
        while n < start + count {
            let block: Vec<f32> = (n..n + 128).map(|i| signal(i) as f32).collect();
            self.feed(&block);
            n += 128;
        }
    }
}

fn tone(freq: f64, amplitude: f64, second: f64) -> impl Fn(usize) -> f64 {
    move |n: usize| {
        let t = n as f64 / RATE;
        amplitude * (2.0 * PI * freq * t).sin() + second * (2.0 * PI * 2.0 * freq * t).sin()
    }
}

#[test]
fn pipeline_no_pass_before_the_ring_holds_a_window() {
    let mut host = Host::new();
    host.play(0, 65536 - 128, &tone(440.0, 0.5, 0.0));
    assert_eq!(host.passes, 0);
    assert!(host.engine.get_last_rms() > 0);
    host.play(65536 - 128, 128, &tone(440.0, 0.5, 0.0));
    assert_eq!(host.passes, 1);
    host.play(65536, 1024, &tone(440.0, 0.5, 0.0));
    assert_eq!(host.passes, 2);
}

#[test]
fn pipeline_silence_is_captured_by_stability() {
    let mut host = Host::new();
    host.play(0, 65536, &|_| 0.0);
    assert_eq!(host.passes, 1);
    // the first pass has nothing to compare with: nothing is read
    assert_eq!(host.engine.get_capture_valid(), 0);
    host.play(65536, 1024, &|_| 0.0);
    assert_eq!(host.passes, 2);
    // the second pass reads a ratio of one: one reading has no deviation,
    // and with no gate on the energy the stability path latches it
    assert_eq!(host.engine.get_capture_valid(), 1);
    assert_eq!(host.engine.get_capture_ratio(), UNIT);
    assert_eq!(host.engine.get_capture_mag(), 0);
    assert_eq!(host.engine.get_lockin2_ratio(), UNIT);
}

#[test]
fn pipeline_silence() {
    let mut host = Host::new();
    host.play(0, 65536 + 4 * 1024, &|_| 0.0);
    assert_eq!(host.passes, 5);
    let e = &host.engine;
    assert_eq!(e.get_last_rms(), 0);
    assert_eq!(e.get_last_peak_mag(), 0);
    // nothing is positive in the band: the peak stays at its first bin
    assert_eq!(e.get_last_peak_bin(), 561);
    assert_eq!(e.get_lockin2_mag(), 0);
    assert_eq!(e.get_lockin1_mag(), 0);
    assert_eq!(e.get_gz_best_mag(), 0);
    assert_eq!(e.get_cap2_peak_val(), 0);
    assert!(e.get_zoom_ptr().iter().all(|m| *m == 0));
}

#[test]
fn pipeline_tone_at_the_band_centre() {
    let mut host = Host::new();
    host.play(0, 65536 + 8 * 1024, &tone(440.0, 0.5, 0.25));
    let e = &host.engine;
    // 440 Hz lies at 600.7 bins of 48000 / 65536 Hz
    assert_eq!(e.get_last_peak_bin(), 601);
    assert!(e.get_last_peak_mag() > 0);
    // the RMS of the last quantum; over whole periods it is
    // sqrt(0.5^2 / 2 + 0.25^2 / 2) = 0.395
    let rms = from_fixed(e.get_last_rms());
    assert!((rms - 0.395).abs() < 0.05, "rms {}", rms);
    // the sweep finds the fundamental at the centre
    let best = from_fixed(e.get_gz_best_cents());
    assert!(best.abs() <= 0.25, "sweep at {} cents", best);
    // the interpolated second harmonic lies at 880 Hz
    let h2 = from_fixed(e.get_harmonics_freq_ptr()[0]);
    assert!((h2 - 880.0).abs() < 0.2, "second harmonic at {} Hz", h2);
    // the strongest bin of the zoom grid is the middle one
    let zoom = e.get_zoom_ptr();
    let top = (0..zoom.len()).max_by_key(|i| zoom[*i]).unwrap();
    assert!((top as i64 - 1024).abs() <= 8, "zoom peak at bin {}", top);
}

#[test]
fn pipeline_lockin_measures_the_tone_against_the_reference() {
    let mut host = Host::new();
    host.play(0, 65536 + 8 * 1024, &tone(440.0, 0.5, 0.25));
    let e = &host.engine;
    let f_ref = 440.0 * (from_fixed(e.get_gz_best_cents()) / 1200.0).exp2();
    let r1 = from_fixed(e.get_lockin1_ratio());
    let r2 = from_fixed(e.get_lockin2_ratio());
    assert!((r1 * f_ref / 440.0 - 1.0).abs() < 1e-4, "fundamental ratio {}", r1);
    assert!((r2 * f_ref / 440.0 - 1.0).abs() < 1e-4, "second harmonic ratio {}", r2);
    assert!(e.get_lockin1_mag() > 0);
    assert!(e.get_lockin2_mag() > 0);
    // a steady tone is captured by stability
    assert_eq!(e.get_capture_valid(), 1);
    let best = from_fixed(e.get_best2_ratio());
    assert!((best * f_ref / 440.0 - 1.0).abs() < 1e-4, "best guess {}", best);
}

#[test]
fn pipeline_lockin_against_the_coarse_reference() {
    let mut host = Host::new();
    host.coarse_reference = true;
    host.play(0, 65536 + 8 * 1024, &tone(440.0, 0.5, 0.25));
    let e = &host.engine;
    // the coarse peak lies at bin 601: 440.1855 Hz
    let f_ref = 601.0 * 48000.0 / 65536.0;
    let want = 440.0 / f_ref;
    let r1 = from_fixed(e.get_lockin1_ratio());
    let r2 = from_fixed(e.get_lockin2_ratio());
    assert!((r1 - want).abs() < 2e-5, "fundamental ratio {} for {}", r1, want);
    assert!((r2 - want).abs() < 2e-5, "second harmonic ratio {} for {}", r2, want);
    let cents = from_fixed(e.get_lockin2_cents());
    assert!((cents - 1200.0 * want.log2()).abs() < 0.05, "cents {}", cents);
}

#[test]
fn pipeline_tone_ten_cents_sharp() {
    let freq = 440.0 * (10.0f64 / 1200.0).exp2();
    let mut host = Host::new();
    host.play(0, 65536 + 4 * 1024, &tone(freq, 0.5, 0.25));
    let e = &host.engine;
    let best = from_fixed(e.get_gz_best_cents());
    assert!((9.5..=10.5).contains(&best), "sweep at {} cents", best);
    let f_ref = 440.0 * (best / 1200.0).exp2();
    let r2 = from_fixed(e.get_lockin2_ratio());
    assert!((r2 * f_ref / freq - 1.0).abs() < 1e-4, "second harmonic ratio {}", r2);
    // the cents grid shows the peak ten cents above the middle: 85 bins
    let zoom = e.get_zoom_ptr();
    let top = (0..zoom.len()).max_by_key(|i| zoom[*i]).unwrap();
    assert!((top as i64 - 1109).abs() <= 8, "zoom peak at bin {}", top);
}

#[test]
fn pipeline_tone_below_the_band() {
    let mut host = Host::new();
    host.play(0, 65536 + 3 * 1024, &tone(200.0, 0.5, 0.0));
    let e = &host.engine;
    let bin = e.get_last_peak_bin();
    assert!((561..=643).contains(&bin), "peak bin {}", bin);
    // what leaks into the band is far below the tone
    assert!(from_fixed(e.get_last_peak_mag()) < 1.0);
    assert!(from_fixed(e.get_lockin2_mag()) < 1e-3);
}

#[test]
fn pipeline_pure_tone_reads_one_at_the_fundamental() {
    let mut host = Host::new();
    host.play(0, 65536 + 2 * 1024, &tone(440.0, 0.5, 0.0));
    let e = &host.engine;
    let r1 = from_fixed(e.get_lockin1_ratio());
    assert!((r1 - 1.0).abs() < 1e-4, "fundamental ratio {}", r1);
    assert_eq!(e.get_gz_best_cents(), 0);
    assert_eq!(e.get_capture_valid(), 1);
}

#[test]
fn pipeline_struck_tone_is_captured_by_its_attack() {
    let onset = 65536;
    let struck = move |n: usize| {
        if n < onset {
            0.0
        } else {
            let t = (n - onset) as f64 / RATE;
            (-t / 0.05).exp()
                * ((2.0 * PI * 441.0 * t).sin() + 0.5 * (2.0 * PI * 882.0 * t).sin())
        }
    };
    let mut host = Host::new();
    let mut fed = 0;
    // the onset enters at the end of the window and moves 16 envelope
    // indices toward its start with every pass
    let mut attack_pass = 0;
    while attack_pass == 0 && host.passes < 70 {
        host.play(fed, 1024, &struck);
        fed += 1024;
        let e = &host.engine;
        if e.get_capture_valid() == 1 && e.get_capture_peak_ms() > 0 {
            attack_pass = host.passes;
        }
    }
    assert!(attack_pass > 0, "no attack in {} passes", host.passes);
    {
        let e = &host.engine;
        // latched by the attack: the captured magnitude is the envelope peak
        assert_eq!(e.get_capture_mag(), e.get_cap2_peak_val());
        assert_eq!(e.get_capture_peak_ms(), e.get_cap2_peak_ms());
        assert!(e.get_cap2_peak_idx() > 0 && e.get_cap2_peak_idx() <= 256);
        assert!(from_fixed(e.get_capture_peak_ms()) <= 256.0 * 32.0 / 48.0);
        assert_eq!(e.get_long2_ready(), 0);
    }
    let captured = host.engine.get_capture_mag();
    while host.passes < attack_pass + 11 {
        host.play(fed, 1024, &struck);
        fed += 1024;
    }
    let e = &host.engine;
    // the capture was not replaced, and the long average froze on the
    // twelfth ratio after the attack
    assert_eq!(e.get_capture_mag(), captured);
    assert_eq!(e.get_long2_ready(), 1);
    let long = from_fixed(e.get_long2_ratio());
    assert!((long - 1.0).abs() < 5e-3, "long average {}", long);
}
