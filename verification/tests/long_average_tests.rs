use tuner_core::fixed::UNIT;
use tuner_core::long_average::LongAverage;

#[test]
fn long_average_starts_idle() {
    let la = LongAverage::new();
    assert!(!la.is_active());
    assert!(!la.is_ready());
    assert_eq!(la.ratio(), UNIT);
}

#[test]
fn long_average_ignores_passes_while_idle() {
    let mut la = LongAverage::new();
    for _ in 0..200 {
        la.accumulate(UNIT + 5);
    }
    assert!(!la.is_active());
    assert!(!la.is_ready());
    assert_eq!(la.ratio(), UNIT);
}

#[test]
fn long_average_freezes_at_the_twelfth_steady_ratio() {
    let mut la = LongAverage::new();
    la.arm();
    assert!(la.is_active());
    for _ in 0..11 {
        la.accumulate(UNIT + 2_000_000);
        assert!(la.is_active());
        assert!(!la.is_ready());
        assert_eq!(la.ratio(), UNIT);
    }
    la.accumulate(UNIT + 2_000_000);
    assert!(la.is_ready());
    assert!(!la.is_active());
    assert_eq!(la.ratio(), UNIT + 2_000_000);
}

#[test]
fn long_average_freezes_on_the_median() {
    let mut la = LongAverage::new();
    la.arm();
    // eleven ratios within a few ppm and one far off
    let ratios: [i64; 12] = [
        UNIT + 1_000_000,
        UNIT + 2_000_000,
        UNIT + 3_000_000,
        UNIT + 4_000_000,
        UNIT + 5_000_000,
        UNIT + 6_000_000,
        UNIT + 7_000_000,
        UNIT + 8_000_000,
        UNIT + 9_000_000,
        UNIT + 10_000_000,
        UNIT + 11_000_000,
        2 * UNIT,
    ];
    for r in ratios {
        la.accumulate(r);
    }
    // median (6 + 7) / 2 ppm above one, rounded down; MAD 3 ppm
    assert!(la.is_ready());
    assert_eq!(la.ratio(), UNIT + 6_500_000);
}

#[test]
fn long_average_does_not_freeze_above_sixty_ppm() {
    let mut la = LongAverage::new();
    la.arm();
    for i in 0..12 {
        // six at one, six 122 ppm above: every distance from the median is 61 ppm
        la.accumulate(if i % 2 == 0 { UNIT } else { UNIT + 122_000_000 });
    }
    assert!(!la.is_ready());
    // a thirteenth at one makes one the median: seven distances are zero
    la.accumulate(UNIT);
    assert!(la.is_ready());
    assert_eq!(la.ratio(), UNIT);
}

#[test]
fn long_average_freezes_at_sixty_ppm_exactly() {
    let mut la = LongAverage::new();
    la.arm();
    for i in 0..12 {
        // six at one, six 120 ppm above: median 60 ppm above, every distance 60 ppm
        la.accumulate(if i % 2 == 0 { UNIT } else { UNIT + 120_000_000 });
    }
    assert!(la.is_ready());
    assert_eq!(la.ratio(), UNIT + 60_000_000);
}

#[test]
fn long_average_waits_while_the_ratios_disagree() {
    let mut la = LongAverage::new();
    la.arm();
    for i in 0..127 {
        // a ramp of 1000 ppm a pass never settles
        la.accumulate(UNIT + i * 1_000_000_000);
        assert!(!la.is_ready());
        assert!(la.is_active());
    }
    la.accumulate(UNIT + 127_000_000_000);
    // the 128th window freezes regardless, on the median of the last 64:
    // the mean of 95000 ppm and 96000 ppm above one
    assert!(la.is_ready());
    assert!(!la.is_active());
    assert_eq!(la.ratio(), UNIT + 95_500_000_000);
}

#[test]
fn long_average_freezes_later_once_the_ratios_agree() {
    let mut la = LongAverage::new();
    la.arm();
    for i in 0..20 {
        la.accumulate(UNIT + i * 1_000_000_000);
    }
    assert!(!la.is_ready());
    // the ring keeps 64: steady ratios have to outnumber the early ones
    let mut passes = 20;
    while !la.is_ready() {
        la.accumulate(UNIT);
        passes += 1;
    }
    // the first early ratio is one as well: with 19 more at one, 20 of 39 are,
    // the median is one and the median distance from it is zero
    assert_eq!(passes, 39);
    assert_eq!(la.ratio(), UNIT);
}

#[test]
fn long_average_stays_frozen() {
    let mut la = LongAverage::new();
    la.arm();
    for _ in 0..12 {
        la.accumulate(UNIT + 7);
    }
    assert!(la.is_ready());
    for _ in 0..50 {
        la.accumulate(3 * UNIT);
    }
    assert!(la.is_ready());
    assert_eq!(la.ratio(), UNIT + 7);
}

#[test]
fn long_average_rearmed_keeps_the_ratio_until_it_freezes_again() {
    let mut la = LongAverage::new();
    la.arm();
    for _ in 0..12 {
        la.accumulate(UNIT + 7);
    }
    la.arm();
    assert!(la.is_active());
    assert!(!la.is_ready());
    assert_eq!(la.ratio(), UNIT + 7);
    for _ in 0..12 {
        la.accumulate(UNIT - 9);
    }
    assert!(la.is_ready());
    assert_eq!(la.ratio(), UNIT - 9);
}

#[test]
fn long_average_rearmed_starts_counting_anew() {
    let mut la = LongAverage::new();
    la.arm();
    for i in 0..100 {
        la.accumulate(UNIT + i * 1_000_000_000);
    }
    assert!(!la.is_ready());
    la.arm();
    for i in 0..127 {
        la.accumulate(UNIT + i * 1_000_000_000);
    }
    assert!(!la.is_ready());
    la.accumulate(UNIT);
    assert!(la.is_ready());
}

#[test]
fn long_average_reset_returns_to_idle() {
    let mut la = LongAverage::new();
    la.arm();
    for _ in 0..12 {
        la.accumulate(UNIT + 7);
    }
    la.reset();
    assert!(!la.is_active());
    assert!(!la.is_ready());
    assert_eq!(la.ratio(), UNIT);
    la.accumulate(UNIT + 9);
    assert!(!la.is_ready());
}
