use tuner_core::fixed::{ceil_div, floor_div, floor_div_signed, modulo, mul_wide, saturate, UNIT};

#[test]
fn unit_is_ten_to_the_twelfth() {
    assert_eq!(UNIT, 1_000_000_000_000);
}

#[test]
fn saturate_keeps_values_in_range() {
    assert_eq!(saturate(0), 0);
    assert_eq!(saturate(-5), -5);
    assert_eq!(saturate(i64::MAX as i128), i64::MAX);
    assert_eq!(saturate(i64::MIN as i128), i64::MIN);
}

#[test]
fn saturate_clamps_at_both_ends() {
    assert_eq!(saturate(i64::MAX as i128 + 1), i64::MAX);
    assert_eq!(saturate(i128::MAX), i64::MAX);
    assert_eq!(saturate(i64::MIN as i128 - 1), i64::MIN);
    assert_eq!(saturate(i128::MIN), i64::MIN);
}

#[test]
fn floor_div_rounds_toward_minus_infinity() {
    assert_eq!(floor_div(7, 2), 3);
    assert_eq!(floor_div(-7, 2), -4);
    assert_eq!(floor_div(-8, 2), -4);
    assert_eq!(floor_div(-1, 5), -1);
    assert_eq!(floor_div(0, 5), 0);
    assert_eq!(floor_div(i128::MIN, 1), i128::MIN);
}

#[test]
fn floor_div_signed_handles_negative_divisors() {
    assert_eq!(floor_div_signed(7, -2), -4);
    assert_eq!(floor_div_signed(-7, -2), 3);
    assert_eq!(floor_div_signed(-7, 2), -4);
    assert_eq!(floor_div_signed(6, -3), -2);
}

#[test]
fn ceil_div_rounds_up() {
    assert_eq!(ceil_div(7, 2), 4);
    assert_eq!(ceil_div(8, 2), 4);
    assert_eq!(ceil_div(0, 3), 0);
    assert_eq!(ceil_div(1, 1_000_000), 1);
}

#[test]
fn modulo_is_never_negative() {
    assert_eq!(modulo(7, 5), 2);
    assert_eq!(modulo(-1, 5), 4);
    assert_eq!(modulo(-5, 5), 0);
    assert_eq!(modulo(-6, 5), 4);
    assert_eq!(modulo(0, 5), 0);
}

#[test]
fn mul_wide_does_not_overflow() {
    assert_eq!(mul_wide(i64::MAX, i64::MAX), (i64::MAX as i128) * (i64::MAX as i128));
    assert_eq!(mul_wide(i64::MIN, i64::MIN), (i64::MIN as i128) * (i64::MIN as i128));
    assert_eq!(mul_wide(-3, 4), -12);
}
