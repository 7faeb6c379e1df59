use breathe::fixed::{
    fx_abs, fx_add, fx_clamp, fx_cos, fx_div, fx_exp2, fx_length, fx_max, fx_min, fx_mul, fx_seconds,
    fx_sin, fx_sub, fx_unit, fx_wrap, isqrt, narrow, HALF_PI, ONE, PI, TAU,
};

#[test]
fn arithmetic_on_ordinary_values() {
    assert_eq!(fx_add(1_500_000, 2_250_000), 3_750_000);
    assert_eq!(fx_sub(1_500_000, 2_250_000), -750_000);
    assert_eq!(fx_mul(1_500_000, 2_000_000), 3_000_000);
    assert_eq!(fx_mul(-1_500_000, 2_000_000), -3_000_000);
    assert_eq!(fx_div(3_000_000, 2_000_000), 1_500_000);
    assert_eq!(fx_div(-3_000_000, 2_000_000), -1_500_000);
    assert_eq!(fx_div(3_000_000, -2_000_000), -1_500_000);
    assert_eq!(fx_div(-3_000_000, -2_000_000), 1_500_000);
}

#[test]
fn products_and_quotients_round_toward_zero() {
    assert_eq!(fx_mul(1, 999_999), 0);
    assert_eq!(fx_mul(-1, 999_999), 0);
    assert_eq!(fx_mul(3, 500_000), 1);
    assert_eq!(fx_mul(-3, 500_000), -1);
    assert_eq!(fx_div(1, 3_000_000), 0);
    assert_eq!(fx_div(2_000_000, 3_000_000), 666_666);
    assert_eq!(fx_div(-2_000_000, 3_000_000), -666_666);
}

#[test]
fn results_are_held_at_the_ends_of_the_range() {
    assert_eq!(fx_add(i64::MAX, 1), i64::MAX);
    assert_eq!(fx_sub(i64::MIN, 1), i64::MIN);
    assert_eq!(fx_mul(i64::MAX, 2 * ONE), i64::MAX);
    assert_eq!(fx_mul(i64::MIN, 2 * ONE), i64::MIN);
    assert_eq!(fx_div(i64::MAX, 1), i64::MAX);
    assert_eq!(fx_div(i64::MAX, -1), i64::MIN);
    assert_eq!(fx_abs(i64::MIN), i64::MAX);
    assert_eq!(narrow(i128::MAX), i64::MAX);
    assert_eq!(narrow(i128::MIN), i64::MIN);
    assert_eq!(narrow(-5), -5);
    assert_eq!(fx_seconds(u64::MAX), i64::MAX);
    assert_eq!(fx_seconds(16_000), 16_000);
}

#[test]
fn clamping() {
    assert_eq!(fx_min(3, 4), 3);
    assert_eq!(fx_max(3, 4), 4);
    assert_eq!(fx_clamp(5, 0, 3), 3);
    assert_eq!(fx_clamp(-5, 0, 3), 0);
    assert_eq!(fx_clamp(2, 0, 3), 2);
    assert_eq!(fx_unit(-1), 0);
    assert_eq!(fx_unit(ONE + 1), ONE);
    assert_eq!(fx_unit(400_000), 400_000);
    assert_eq!(fx_abs(-7), 7);
}

#[test]
fn integer_square_roots() {
    assert_eq!(isqrt(0), 0);
    assert_eq!(isqrt(1), 1);
    assert_eq!(isqrt(3), 1);
    assert_eq!(isqrt(4), 2);
    assert_eq!(isqrt(99), 9);
    assert_eq!(isqrt(1_000_000_000_000), 1_000_000);
    assert_eq!(isqrt(u128::MAX), u64::MAX as u128);
    let mut n: u128 = 0;
    while n < 5_000 {
        let r = isqrt(n);
        assert!(r * r <= n && n < (r + 1) * (r + 1));
        n += 1;
    }
}

#[test]
fn lengths_of_vectors() {
    assert_eq!(fx_length(3_000_000, 4_000_000), 5_000_000);
    assert_eq!(fx_length(-3_000_000, 4_000_000), 5_000_000);
    assert_eq!(fx_length(0, 0), 0);
    assert_eq!(fx_length(0, -2_500_000), 2_500_000);
    assert_eq!(fx_length(i64::MIN, i64::MIN), i64::MAX);
}

#[test]
fn sine_and_cosine_at_the_quarters() {
    assert_eq!(fx_sin(0), 0);
    assert_eq!(fx_sin(HALF_PI), ONE);
    assert_eq!(fx_cos(0), ONE);
    assert_eq!(fx_cos(PI), -ONE);
    assert_eq!(fx_sin(523_599), 500_000);
    assert_eq!(fx_cos(1_047_198), 500_000);
    assert_eq!(fx_sin(ONE), 841_471);
}

#[test]
fn sine_and_cosine_follow_the_real_functions() {
    let mut angle = -2 * TAU;
    while angle < 2 * TAU {
        let x = angle as f64 / 1e6;
        assert!((fx_sin(angle) as f64 / 1e6 - x.sin()).abs() < 2e-5);
        assert!((fx_cos(angle) as f64 / 1e6 - x.cos()).abs() < 2e-5);
        assert!(fx_sin(angle).abs() <= ONE);
        angle += 7_919;
    }
}

#[test]
fn angles_wrap_into_one_turn() {
    assert_eq!(fx_wrap(0), 0);
    assert_eq!(fx_wrap(TAU), 0);
    assert_eq!(fx_wrap(TAU + 5), 5);
    assert_eq!(fx_wrap(-5), TAU - 5);
    assert_eq!(fx_wrap(-TAU), 0);
}

#[test]
fn powers_of_two() {
    assert_eq!(fx_exp2(0), ONE);
    assert_eq!(fx_exp2(ONE), 2 * ONE);
    assert_eq!(fx_exp2(3 * ONE), 8 * ONE);
    assert_eq!(fx_exp2(-ONE), 500_000);
    assert_eq!(fx_exp2(-2 * ONE), 250_000);
    assert_eq!(fx_exp2(-30 * ONE), 0);
    assert_eq!(fx_exp2(i64::MIN), 0);
    assert_eq!(fx_exp2(i64::MAX), i64::MAX);
    assert_eq!(fx_exp2(50 * ONE), i64::MAX);
    let mut x = -12 * ONE;
    while x < 12 * ONE {
        let expected = 2.0_f64.powf(x as f64 / 1e6);
        let got = fx_exp2(x) as f64 / 1e6;
        assert!((got - expected).abs() <= 1e-5 * expected.max(1.0));
        x += 77_777;
    }
}
