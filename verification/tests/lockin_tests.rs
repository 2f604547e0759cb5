use tuner_core::fixed::UNIT;
use tuner_core::lockin::{
    drift_ratio, envelope_peak, limit_cents, lockin_enabled, lockin_initial, lockin_magnitude,
    lockin_step, measure, phase_product, settle, Envelope, LockinSample, LockinState,
    Measurement, Phasor, Reading,
};
use tuner_core::params::{HALF_TURN, WHOLE_TURN};

const IDLE: Reading = Reading { ratio: UNIT, cents: 0, mag: 0 };
const ORIGIN: Phasor = Phasor { re: 0, im: 0 };
const Z: Phasor = Phasor { re: 30, im: -40 };

#[test]
fn lockin_starts_without_history() {
    assert_eq!(lockin_initial(), LockinState { has_prev: false, prev: ORIGIN, last: IDLE });
}

#[test]
fn lockin_enabled_below_nine_tenths_of_the_decimated_rate() {
    // 0.9 * 24000 = 21600 Hz
    assert!(lockin_enabled(440 * UNIT, 1, 48000 * UNIT));
    assert!(lockin_enabled(440 * UNIT, 2, 48000 * UNIT));
    assert!(lockin_enabled(21_600 * UNIT - 1, 1, 48000 * UNIT));
    assert!(!lockin_enabled(21_600 * UNIT, 1, 48000 * UNIT));
    assert!(lockin_enabled(10_800 * UNIT - 1, 2, 48000 * UNIT));
    assert!(!lockin_enabled(10_800 * UNIT, 2, 48000 * UNIT));
    assert!(!lockin_enabled(10_800 * UNIT + 1, 2, 48000 * UNIT));
}

#[test]
fn lockin_disabled_without_a_positive_reference() {
    assert!(!lockin_enabled(0, 2, 48000 * UNIT));
    assert!(!lockin_enabled(-440 * UNIT, 2, 48000 * UNIT));
    assert!(!lockin_enabled(440 * UNIT, 0, 48000 * UNIT));
    assert!(!lockin_enabled(440 * UNIT, 2, 0));
    assert!(!lockin_enabled(i64::MAX, u32::MAX, i64::MAX));
    assert!(!lockin_enabled(i64::MIN, u32::MAX, i64::MAX));
}

#[test]
fn settle_leaves_ordinary_readings_alone() {
    let r = Reading { ratio: UNIT + 5, cents: -3 * UNIT, mag: 77 };
    assert_eq!(settle(r), r);
    let edge = Reading { ratio: 1, cents: 50 * UNIT, mag: -1 };
    assert_eq!(settle(edge), edge);
}

#[test]
fn settle_raises_the_ratio_to_the_least() {
    let r = settle(Reading { ratio: 0, cents: 0, mag: 0 });
    assert_eq!(r.ratio, 1);
    let n = settle(Reading { ratio: i64::MIN, cents: 0, mag: 0 });
    assert_eq!(n.ratio, 1);
}

#[test]
fn settle_limits_the_cents() {
    assert_eq!(settle(Reading { ratio: UNIT, cents: 50 * UNIT + 1, mag: 0 }).cents, 50 * UNIT);
    assert_eq!(settle(Reading { ratio: UNIT, cents: i64::MAX, mag: 0 }).cents, 50 * UNIT);
    assert_eq!(settle(Reading { ratio: UNIT, cents: -50 * UNIT - 1, mag: 0 }).cents, -50 * UNIT);
    assert_eq!(settle(Reading { ratio: UNIT, cents: i64::MIN, mag: 0 }).cents, -50 * UNIT);
}

#[test]
fn lockin_first_pass_keeps_the_reading() {
    let raw = Reading { ratio: 2 * UNIT, cents: 7, mag: 9 };
    let next = lockin_step(lockin_initial(), true, Measurement { z: Z, reading: raw });
    assert_eq!(next, LockinState { has_prev: true, prev: Z, last: IDLE });
}

#[test]
fn lockin_later_passes_take_the_settled_reading() {
    let before = LockinState { has_prev: true, prev: ORIGIN, last: IDLE };
    let raw = Reading { ratio: -4, cents: 60 * UNIT, mag: 9 };
    let next = lockin_step(before, true, Measurement { z: Z, reading: raw });
    assert_eq!(
        next,
        LockinState {
            has_prev: true,
            prev: Z,
            last: Reading { ratio: 1, cents: 50 * UNIT, mag: 9 }
        }
    );
}

#[test]
fn lockin_disabled_reads_idle_and_keeps_its_history() {
    let raw = Reading { ratio: 2 * UNIT, cents: 7, mag: 9 };
    let m = Measurement { z: Phasor { re: 1, im: 1 }, reading: raw };
    let with = LockinState { has_prev: true, prev: Z, last: raw };
    assert_eq!(lockin_step(with, false, m), LockinState { has_prev: true, prev: Z, last: IDLE });
    let without = LockinState { has_prev: false, prev: ORIGIN, last: raw };
    assert_eq!(
        lockin_step(without, false, m),
        LockinState { has_prev: false, prev: ORIGIN, last: IDLE }
    );
}

#[test]
fn envelope_peak_and_its_time() {
    let mut env: Vec<i64> = vec![0; 1024];
    env[10] = 500;
    env[700] = 400;
    // 10 * 32 samples at 48 kHz: 6.666... ms
    assert_eq!(
        envelope_peak(&env, 48000 * UNIT),
        Envelope { len: 1024, peak_idx: 10, peak_val: 500, peak_ms: 6_666_666_666_666 }
    );
}

#[test]
fn envelope_peak_takes_the_first_of_equals() {
    let mut env: Vec<i64> = vec![1; 1024];
    env[256] = 9;
    env[300] = 9;
    let e = envelope_peak(&env, 44100 * UNIT);
    assert_eq!(e.peak_idx, 256);
    assert_eq!(e.peak_val, 9);
    assert_eq!(e.peak_ms, 185_759_637_188_208);
}

#[test]
fn envelope_without_a_positive_value() {
    let env: Vec<i64> = vec![0; 1024];
    assert_eq!(
        envelope_peak(&env, 48000 * UNIT),
        Envelope { len: 1024, peak_idx: 0, peak_val: 0, peak_ms: 0 }
    );
}

#[test]
fn envelope_of_nothing() {
    let env: Vec<i64> = vec![];
    assert_eq!(
        envelope_peak(&env, 48000 * UNIT),
        Envelope { len: 0, peak_idx: 0, peak_val: 0, peak_ms: 0 }
    );
}

#[test]
fn envelope_time_saturates() {
    let mut env: Vec<i64> = vec![0; 1024];
    env[1023] = 1;
    // 1023 * 32000 ms at 1 Hz does not fit
    assert_eq!(envelope_peak(&env, UNIT).peak_ms, i64::MAX);
    assert_eq!(envelope_peak(&env, 0).peak_ms, i64::MAX);
    assert_eq!(envelope_peak(&env, 48000 * UNIT).peak_ms, 682_000_000_000_000);
    let mut first: Vec<i64> = vec![0; 4];
    first[0] = 3;
    assert_eq!(envelope_peak(&first, 0).peak_ms, 0);
}

#[test]
fn limit_cents_at_fifty() {
    assert_eq!(limit_cents(0), 0);
    assert_eq!(limit_cents(50 * UNIT), 50 * UNIT);
    assert_eq!(limit_cents(50 * UNIT + 1), 50 * UNIT);
    assert_eq!(limit_cents(-50 * UNIT), -50 * UNIT);
    assert_eq!(limit_cents(-50 * UNIT - 1), -50 * UNIT);
    assert_eq!(limit_cents(i64::MAX), 50 * UNIT);
    assert_eq!(limit_cents(i64::MIN), -50 * UNIT);
}

#[test]
fn phase_constants() {
    assert_eq!(HALF_TURN, 3_141_592_653_590);
    assert_eq!(WHOLE_TURN, 6_283_185_307_180);
}

#[test]
fn drift_ratio_without_drift_is_one() {
    assert_eq!(drift_ratio(0, 1024, 48000 * UNIT, 440 * UNIT, 2), UNIT);
}

#[test]
fn drift_ratio_of_a_hundredth_of_a_turn() {
    // 0.01 turn in 1024 / 48000 s is 0.46875 Hz; against 880 Hz that is
    // 532.67 ppm
    let phi = WHOLE_TURN / 100;
    assert_eq!(drift_ratio(phi, 1024, 48000 * UNIT, 440 * UNIT, 2), 1_000_532_670_454);
    assert_eq!(drift_ratio(-phi, 1024, 48000 * UNIT, 440 * UNIT, 2), 999_467_329_545);
}

#[test]
fn drift_ratio_is_taken_against_the_harmonic() {
    // half a turn in 1024 / 48000 s is 23.4375 Hz
    assert_eq!(drift_ratio(HALF_TURN, 1024, 48000 * UNIT, 440 * UNIT, 2), 1_026_633_522_727);
    assert_eq!(drift_ratio(HALF_TURN, 1024, 48000 * UNIT, 440 * UNIT, 1), 1_053_267_045_454);
    assert_eq!(drift_ratio(HALF_TURN, 1024, 48000 * UNIT, 880 * UNIT, 1), 1_026_633_522_727);
}

#[test]
fn drift_ratio_limits_the_phase_to_half_a_turn() {
    assert_eq!(drift_ratio(i64::MAX, 1024, 48000 * UNIT, 440 * UNIT, 2), 1_026_633_522_727);
    assert_eq!(drift_ratio(i64::MIN, 1024, 48000 * UNIT, 440 * UNIT, 2), 973_366_477_272);
}

#[test]
fn drift_ratio_without_time_or_frequency_is_one() {
    assert_eq!(drift_ratio(HALF_TURN, 0, 48000 * UNIT, 440 * UNIT, 2), UNIT);
    assert_eq!(drift_ratio(HALF_TURN, 1024, 48000 * UNIT, 0, 2), UNIT);
    assert_eq!(drift_ratio(HALF_TURN, 1024, 48000 * UNIT, 440 * UNIT, 0), UNIT);
    assert_eq!(drift_ratio(HALF_TURN, 1024, 48000 * UNIT, -440 * UNIT, 2), UNIT);
    assert_eq!(drift_ratio(HALF_TURN, 1024, 0, 440 * UNIT, 2), UNIT);
}

#[test]
fn drift_ratio_saturates() {
    assert_eq!(drift_ratio(HALF_TURN, 1, i64::MAX, 1, 1), i64::MAX);
    assert_eq!(drift_ratio(-HALF_TURN, 1, i64::MAX, 1, 1), i64::MIN);
}

#[test]
fn lockin_magnitude_is_the_modulus_over_the_window_length() {
    assert_eq!(lockin_magnitude(Phasor { re: 0, im: 0 }), 0);
    assert_eq!(lockin_magnitude(Phasor { re: 3 * 32768, im: 4 * 32768 }), 5);
    assert_eq!(lockin_magnitude(Phasor { re: -3 * 32768, im: -4 * 32768 }), 5);
    assert_eq!(lockin_magnitude(Phasor { re: 0, im: 32768 * UNIT }), UNIT);
}

#[test]
fn lockin_magnitude_rounds_down() {
    assert_eq!(lockin_magnitude(Phasor { re: 32767, im: 0 }), 0);
    assert_eq!(lockin_magnitude(Phasor { re: 32768, im: 0 }), 1);
    // sqrt(2) * 32768 = 46340.95
    assert_eq!(lockin_magnitude(Phasor { re: 32768, im: 32768 }), 1);
    assert_eq!(lockin_magnitude(Phasor { re: 46341, im: 46341 }), 2);
}

#[test]
fn lockin_magnitude_of_extremes() {
    // sqrt(2) * 2^63 / 2^15
    assert_eq!(lockin_magnitude(Phasor { re: i64::MIN, im: i64::MIN }), 398_065_729_532_860);
    assert_eq!(lockin_magnitude(Phasor { re: i64::MAX, im: 0 }), 281_474_976_710_655);
}

#[test]
fn phase_product_multiplies_by_the_conjugate() {
    let z = Phasor { re: 3, im: 4 };
    assert_eq!(phase_product(z, Phasor { re: 1, im: 0 }), (3, 4));
    assert_eq!(phase_product(z, Phasor { re: 0, im: 1 }), (4, -3));
    assert_eq!(phase_product(z, Phasor { re: 1, im: -2 }), (-5, 10));
    assert_eq!(phase_product(z, z), (25, 0));
    assert_eq!(phase_product(z, Phasor { re: 0, im: 0 }), (0, 0));
}

#[test]
fn phase_product_of_extremes() {
    let top = Phasor { re: i64::MAX, im: i64::MAX };
    let square = (i64::MAX as i128) * (i64::MAX as i128);
    assert_eq!(phase_product(top, top), (2 * square, 0));
    // the least value counts as the negative of the greatest
    let low = Phasor { re: i64::MIN, im: i64::MIN };
    assert_eq!(phase_product(low, low), (2 * square, 0));
    assert_eq!(phase_product(low, top), (-2 * square, 0));
    assert_eq!(phase_product(Phasor { re: i64::MIN, im: i64::MAX }, top), (0, 2 * square));
}

#[test]
fn measure_gives_integral_ratio_cents_and_magnitude() {
    let z = Phasor { re: 123 * 32768, im: 0 };
    let sample = LockinSample { z, delta_phi: WHOLE_TURN / 100, cents: 77 };
    assert_eq!(
        measure(sample, 1024, 48000 * UNIT, 440 * UNIT, 2),
        Measurement { z, reading: Reading { ratio: 1_000_532_670_454, cents: 77, mag: 123 } }
    );
}
