use tuner_core::capture::{
    attack_accepted, capture_initial, clear_capture, latch_attack, latch_stability, Capture,
};
use tuner_core::fixed::UNIT;
use tuner_core::lockin::Envelope;

fn strike(idx: usize, val: i64) -> Envelope {
    Envelope { len: 1024, peak_idx: idx, peak_val: val, peak_ms: 1234 }
}

fn held(mag: i64, last_samples: u64) -> Capture {
    Capture { valid: true, ratio: UNIT, mag, peak_ms: 0, peak_idx: 0, last_samples }
}

#[test]
fn capture_starts_invalid() {
    assert_eq!(
        capture_initial(),
        Capture { valid: false, ratio: UNIT, mag: 0, peak_ms: 0, peak_idx: 0, last_samples: 0 }
    );
}

#[test]
fn attack_accepted_on_an_early_strong_peak() {
    assert!(attack_accepted(capture_initial(), strike(10, UNIT / 2), 65536, 48000 * UNIT));
}

#[test]
fn attack_needs_a_peak_after_the_first_index() {
    assert!(!attack_accepted(capture_initial(), strike(0, UNIT / 2), 65536, 48000 * UNIT));
    assert!(attack_accepted(capture_initial(), strike(1, UNIT / 2), 65536, 48000 * UNIT));
}

#[test]
fn attack_needs_a_peak_in_the_early_region() {
    assert!(attack_accepted(capture_initial(), strike(256, UNIT / 2), 65536, 48000 * UNIT));
    assert!(!attack_accepted(capture_initial(), strike(257, UNIT / 2), 65536, 48000 * UNIT));
    assert!(!attack_accepted(capture_initial(), strike(1023, UNIT / 2), 65536, 48000 * UNIT));
}

#[test]
fn attack_early_region_ends_with_a_short_envelope() {
    let short = Envelope { len: 100, peak_idx: 99, peak_val: UNIT, peak_ms: 0 };
    assert!(attack_accepted(capture_initial(), short, 65536, 48000 * UNIT));
    let beyond = Envelope { len: 100, peak_idx: 100, peak_val: UNIT, peak_ms: 0 };
    assert!(!attack_accepted(capture_initial(), beyond, 65536, 48000 * UNIT));
    let empty = Envelope { len: 0, peak_idx: 1, peak_val: UNIT, peak_ms: 0 };
    assert!(!attack_accepted(capture_initial(), empty, 65536, 48000 * UNIT));
}

#[test]
fn attack_needs_the_least_peak() {
    // 1e-4 is 100_000_000 units
    assert!(attack_accepted(capture_initial(), strike(10, 100_000_000), 65536, 48000 * UNIT));
    assert!(!attack_accepted(capture_initial(), strike(10, 99_999_999), 65536, 48000 * UNIT));
}

#[test]
fn attack_waits_for_the_refractory_time() {
    // a quarter of a second at 48 kHz is 12000 samples
    let c = Capture { valid: false, ..held(0, 100_000) };
    assert!(!attack_accepted(c, strike(10, UNIT), 111_999, 48000 * UNIT));
    assert!(attack_accepted(c, strike(10, UNIT), 112_000, 48000 * UNIT));
    assert!(attack_accepted(c, strike(10, UNIT), 200_000, 48000 * UNIT));
}

#[test]
fn attack_refractory_time_at_an_odd_rate() {
    // a quarter of 44101 samples is 11025.25: 11026 samples are needed
    let c = Capture { valid: false, ..held(0, 1) };
    assert!(!attack_accepted(c, strike(10, UNIT), 1 + 11_025, 44101 * UNIT));
    assert!(attack_accepted(c, strike(10, UNIT), 1 + 11_026, 44101 * UNIT));
}

#[test]
fn attack_without_an_earlier_capture_does_not_wait() {
    let c = Capture { valid: false, ..held(0, 0) };
    assert!(attack_accepted(c, strike(10, UNIT), 5, 48000 * UNIT));
}

#[test]
fn attack_must_outdo_a_valid_capture() {
    let c = held(1_000_000_000, 1);
    // one and a half times 1e-3 is 1.5e-3
    assert!(!attack_accepted(c, strike(10, 1_499_999_999), 1_000_000, 48000 * UNIT));
    assert!(attack_accepted(c, strike(10, 1_500_000_000), 1_000_000, 48000 * UNIT));
    let odd = held(1_000_000_001, 1);
    assert!(!attack_accepted(odd, strike(10, 1_500_000_001), 1_000_000, 48000 * UNIT));
    assert!(attack_accepted(odd, strike(10, 1_500_000_002), 1_000_000, 48000 * UNIT));
}

#[test]
fn attack_need_not_outdo_an_invalid_capture() {
    let c = Capture { valid: false, ..held(i64::MAX, 0) };
    assert!(attack_accepted(c, strike(10, 100_000_000), 1_000_000, 48000 * UNIT));
}

#[test]
fn latch_attack_takes_the_peak() {
    let env = Envelope { len: 1024, peak_idx: 12, peak_val: 777, peak_ms: 8_000 };
    assert_eq!(
        latch_attack(env, UNIT + 3, 90_000),
        Capture {
            valid: true,
            ratio: UNIT + 3,
            mag: 777,
            peak_ms: 8_000,
            peak_idx: 12,
            last_samples: 90_000
        }
    );
}

#[test]
fn latch_stability_keeps_the_peak_of_an_earlier_attack() {
    let before =
        Capture { valid: false, ratio: 5, mag: 0, peak_ms: 8_000, peak_idx: 12, last_samples: 0 };
    assert_eq!(
        latch_stability(before, UNIT - 9, 44, 70_000),
        Capture {
            valid: true,
            ratio: UNIT - 9,
            mag: 44,
            peak_ms: 8_000,
            peak_idx: 12,
            last_samples: 70_000
        }
    );
}

#[test]
fn clear_capture_forgets_validity_magnitude_and_time() {
    let before =
        Capture { valid: true, ratio: 5, mag: 9, peak_ms: 8_000, peak_idx: 12, last_samples: 77 };
    assert_eq!(
        clear_capture(before),
        Capture { valid: false, ratio: 5, mag: 0, peak_ms: 8_000, peak_idx: 12, last_samples: 0 }
    );
}
