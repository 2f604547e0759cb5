use tuner_core::fixed::UNIT;
use tuner_core::history::History;
use tuner_core::stability::{compute_mad_cents, compute_mad_ratio_ppm, is_within};

fn filled(values: &[i64]) -> History {
    let mut h = History::new(16);
    for v in values {
        h.push(*v);
    }
    h
}

#[test]
fn mad_cents_of_an_empty_history_is_not_finite() {
    let h = History::new(16);
    assert_eq!(compute_mad_cents(&h, 6), (0, None));
}

#[test]
fn mad_ratio_of_an_empty_history_is_not_finite() {
    let h = History::new(16);
    assert_eq!(compute_mad_ratio_ppm(&h, 6), (UNIT, None));
}

#[test]
fn mad_of_an_empty_window_is_not_finite() {
    let h = filled(&[1, 2, 3]);
    assert_eq!(compute_mad_cents(&h, 0), (0, None));
    assert_eq!(compute_mad_ratio_ppm(&h, 0), (UNIT, None));
}

#[test]
fn mad_cents_over_the_last_six() {
    // the last six: 10 20 30 40 50 60; median 35; distances 25 15 5 5 15 25: median 15
    let h = filled(&[1000, -1000, 10, 20, 30, 40, 50, 60]);
    assert_eq!(compute_mad_cents(&h, 6), (35, Some(15)));
}

#[test]
fn mad_cents_over_fewer_than_the_window() {
    let h = filled(&[10, 30]);
    assert_eq!(compute_mad_cents(&h, 6), (20, Some(10)));
    let one = filled(&[-7]);
    assert_eq!(compute_mad_cents(&one, 6), (-7, Some(0)));
}

#[test]
fn mad_ratio_in_ppm() {
    // ratios 1 - 100 ppm, 1, 1 + 300 ppm
    let h = filled(&[UNIT - 100_000_000, UNIT, UNIT + 300_000_000]);
    assert_eq!(compute_mad_ratio_ppm(&h, 6), (UNIT, Some(100 * UNIT)));
}

#[test]
fn mad_ratio_after_the_history_wrapped() {
    let mut h = History::new(16);
    for i in 0..40 {
        h.push(UNIT + i);
    }
    // the last six: 34..=39 above one; median 36.5 rounded down; distances
    // 2 1 0 1 2 3 units of 1e-12, each 1e-6 ppm: their median is 1.5e-6 ppm
    assert_eq!(compute_mad_ratio_ppm(&h, 6), (UNIT + 36, Some(1_500_000)));
}

#[test]
fn within_compares_finite_deviations() {
    assert!(is_within(Some(150), 150));
    assert!(is_within(Some(0), 150));
    assert!(!is_within(Some(151), 150));
    assert!(is_within(Some(-1), 0));
}

#[test]
fn within_rejects_a_deviation_that_is_not_finite() {
    assert!(!is_within(None, i64::MAX));
}
