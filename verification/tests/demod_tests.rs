use tuner_core::demod::{demodulate, turn};
use tuner_core::engine::Engine;
use tuner_core::fixed::UNIT;
use tuner_core::lockin::{lockin_magnitude, Phasor};
use tuner_core::params::FFT_N;

fn table(value: i64) -> Vec<i64> {
    vec![value; FFT_N]
}

#[test]
fn demodulate_silence_gives_nothing() {
    let (z, envelope) = demodulate(&table(0), &table(UNIT), &table(-UNIT));
    assert_eq!(z, Phasor { re: 0, im: 0 });
    assert_eq!(envelope, vec![0; 1024]);
}

#[test]
fn demodulate_against_a_constant_reference_sums_the_buffer() {
    let time: Vec<i64> = (0..FFT_N as i64).map(|n| n * 1000).collect();
    let (z, envelope) = demodulate(&time, &table(UNIT), &table(0));
    // 1000 * (0 + 1 + .. + 32767)
    assert_eq!(z, Phasor { re: 536_854_528_000, im: 0 });
    assert_eq!(envelope.len(), 1024);
    // the mean of block b is 1000 * (32 b + 15.5)
    assert_eq!(envelope[0], 15_500);
    assert_eq!(envelope[1], 47_500);
    assert_eq!(envelope[1023], 32_751_500);
}

#[test]
fn demodulate_takes_the_sine_with_a_minus() {
    let (z, envelope) = demodulate(&table(6 * UNIT), &table(UNIT / 2), &table(UNIT / 3));
    // 32768 * 6 / 2 and -32768 * 6 * 0.333333333333
    assert_eq!(z, Phasor { re: 98_304 * UNIT, im: -65_535_999_999_934_464 });
    // a block has the mean 3 - 1.999999999998j, a third being cut short in
    // fixed point: its magnitude is just under sqrt(13) = 3.605551275463
    assert_eq!(envelope[7], 3_605_551_275_462);
}

#[test]
fn demodulate_limits_a_coefficient_to_one() {
    let mut time = table(0);
    time[0] = 7;
    let mut cos = table(0);
    cos[0] = 5 * UNIT;
    let mut sin = table(0);
    sin[0] = -5 * UNIT;
    let (z, _) = demodulate(&time, &cos, &sin);
    assert_eq!(z, Phasor { re: 7, im: 7 });
}

#[test]
fn demodulate_extremes_saturate() {
    let (z, envelope) = demodulate(&table(i64::MAX), &table(UNIT), &table(UNIT));
    assert_eq!(z, Phasor { re: i64::MAX, im: i64::MIN });
    assert_eq!(envelope[0], i64::MAX);
    let (low, _) = demodulate(&table(i64::MIN), &table(UNIT), &table(UNIT));
    assert_eq!(low, Phasor { re: i64::MIN, im: i64::MAX });
}

#[test]
fn turn_by_no_phase_changes_nothing() {
    let z = Phasor { re: 3 * UNIT, im: -4 * UNIT };
    assert_eq!(turn(z, UNIT, 0), z);
}

#[test]
fn turn_by_a_quarter_turn() {
    let z = Phasor { re: 3 * UNIT, im: 4 * UNIT };
    // (3 + 4j) * (0 - j) = 4 - 3j
    assert_eq!(turn(z, 0, UNIT), Phasor { re: 4 * UNIT, im: -3 * UNIT });
    assert_eq!(turn(z, 0, -UNIT), Phasor { re: -4 * UNIT, im: 3 * UNIT });
    assert_eq!(turn(z, -UNIT, 0), Phasor { re: -3 * UNIT, im: -4 * UNIT });
}

#[test]
fn turn_keeps_nothing_at_nothing_and_limits_its_phase() {
    assert_eq!(turn(Phasor { re: 0, im: 0 }, 123, -456), Phasor { re: 0, im: 0 });
    let z = Phasor { re: 10, im: 0 };
    assert_eq!(turn(z, 9 * UNIT, 0), z);
    assert_eq!(turn(z, UNIT / 3, 0), Phasor { re: 3, im: 0 });
    assert_eq!(turn(z, 0, UNIT / 3), Phasor { re: 0, im: -4 });
}

#[test]
fn engine_demodulates_its_window() {
    let mut e = Engine::init(131072);
    e.write_block(&vec![9 * UNIT; 65536]);
    e.process_quantum(65536);
    // a window of one half halves the buffer; the reference is constant and
    // the integral is turned by a quarter turn
    e.demodulate(2, &table(UNIT / 2), &table(UNIT), &table(0), 0, UNIT);
    assert_eq!(e.get_cap2_ptr(), &vec![9 * UNIT / 2; 1024]);
    // the integral is kept: its product with nothing kept before is nothing
    assert_eq!(e.phase_product(2), (0, 0));
    assert_eq!(lockin_magnitude(Phasor { re: 0, im: -147_456 * UNIT }), 9 * UNIT / 2);
}
