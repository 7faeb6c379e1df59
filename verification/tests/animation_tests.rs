use breathe::animation::{
    ease_breath, ease_in_out_cubic, ease_in_out_sine, ease_in_quad, ease_out_cubic,
    ease_out_elastic, ease_out_quad, lerp, lerp_color, lerp_u8, pulse_breath, pulse_sine, pulse_triangle,
    smooth_damp, smooth_damp_angle,
};
use breathe::fixed::{HALF, ONE, PI, TAU};
use breathe::theme::Color;

/// One thousandth, the tolerance of the comparisons below.
const MILLI: i64 = 1_000;

#[test]
fn test_easing_bounds() {
    // All easing functions should return 0 at t=0 and 1 at t=1
    assert!((ease_in_out_sine(0) - 0).abs() < MILLI);
    assert!((ease_in_out_sine(ONE) - ONE).abs() < MILLI);

    assert!((ease_in_out_cubic(0) - 0).abs() < MILLI);
    assert!((ease_in_out_cubic(ONE) - ONE).abs() < MILLI);

    assert!((ease_out_cubic(0) - 0).abs() < MILLI);
    assert!((ease_out_cubic(ONE) - ONE).abs() < MILLI);

    assert!((ease_breath(0) - 0).abs() < MILLI);
    assert!((ease_breath(ONE) - ONE).abs() < MILLI);
}

#[test]
fn test_lerp() {
    assert!((lerp(0, 10_000_000, 0) - 0).abs() < MILLI);
    assert!((lerp(0, 10_000_000, HALF) - 5_000_000).abs() < MILLI);
    assert!((lerp(0, 10_000_000, ONE) - 10_000_000).abs() < MILLI);
}

#[test]
fn test_lerp_color() {
    let black = Color::Rgb(0, 0, 0);
    let white = Color::Rgb(255, 255, 255);

    let mid = lerp_color(black, white, HALF);
    if let Color::Rgb(r, g, b) = mid {
        assert!((r as i32 - 128).abs() <= 1);
        assert!((g as i32 - 128).abs() <= 1);
        assert!((b as i32 - 128).abs() <= 1);
    }
}

#[test]
fn easing_endpoints_are_exact() {
    for f in [ease_in_out_sine, ease_in_out_cubic, ease_out_cubic, ease_breath, ease_in_quad, ease_out_quad] {
        assert_eq!(f(0), 0);
        assert_eq!(f(ONE), ONE);
    }
}

#[test]
fn easing_values_inside_the_range() {
    assert_eq!(ease_in_out_sine(250_000), 146_446);
    assert_eq!(ease_in_out_sine(750_000), 853_553);
    assert_eq!(ease_in_out_cubic(250_000), 62_500);
    assert_eq!(ease_in_out_cubic(HALF), 500_000);
    assert_eq!(ease_in_out_cubic(750_000), 937_500);
    assert_eq!(ease_out_cubic(250_000), 578_125);
    assert_eq!(ease_out_cubic(HALF), 875_000);
    assert_eq!(ease_in_quad(HALF), 250_000);
    assert_eq!(ease_out_quad(HALF), 750_000);
    assert_eq!(ease_breath(250_000), 121_262);
    assert_eq!(ease_breath(750_000), 878_737);
}

#[test]
fn easing_follows_the_real_curves() {
    let mut t = 0i64;
    while t <= ONE {
        let x = t as f64 / 1e6;
        let sine = -((std::f64::consts::PI * x).cos() - 1.0) / 2.0;
        let cubic = if x < 0.5 { 4.0 * x * x * x } else { 1.0 - (-2.0 * x + 2.0).powi(3) / 2.0 };
        assert!((ease_in_out_sine(t) as f64 / 1e6 - sine).abs() < 1e-4);
        assert!((ease_in_out_cubic(t) as f64 / 1e6 - cubic).abs() < 1e-4);
        assert!((ease_breath(t) as f64 / 1e6 - (sine * 0.7 + cubic * 0.3)).abs() < 1e-4);
        assert!((ease_out_cubic(t) as f64 / 1e6 - (1.0 - (1.0 - x).powi(3))).abs() < 1e-4);
        t += 12_500;
    }
}

#[test]
fn breath_curve_stays_in_range() {
    let mut t = 0i64;
    while t <= ONE {
        let v = ease_breath(t);
        assert!((0..=ONE).contains(&v));
        t += 3_333;
    }
}

#[test]
fn lerp_ends_and_midpoint() {
    for (a, b) in [(0i64, 10_000_000i64), (-7, 7), (5, -11), (i64::MIN, i64::MAX), (i64::MAX, i64::MIN), (3, 3)] {
        assert_eq!(lerp(a, b, 0), a);
        assert_eq!(lerp(a, b, ONE), b);
        let mid = lerp(a, b, HALF) as i128;
        let twice = 2 * mid - (a as i128 + b as i128);
        assert!((-1..=1).contains(&twice));
    }
}

#[test]
fn lerp_clamps_the_parameter() {
    assert_eq!(lerp(2_000_000, 4_000_000, -5 * ONE), 2_000_000);
    assert_eq!(lerp(2_000_000, 4_000_000, 5 * ONE), 4_000_000);
    assert_eq!(lerp(2_000_000, 4_000_000, 250_000), 2_500_000);
}

#[test]
fn lerp_u8_rounds_to_nearest() {
    assert_eq!(lerp_u8(0, 255, HALF), 128);
    assert_eq!(lerp_u8(0, 255, 0), 0);
    assert_eq!(lerp_u8(0, 255, ONE), 255);
    assert_eq!(lerp_u8(255, 0, HALF), 128);
    assert_eq!(lerp_u8(10, 20, 250_000), 13);
    assert_eq!(lerp_u8(10, 20, 240_000), 12);
    assert_eq!(lerp_u8(200, 100, 2 * ONE), 100);
    assert_eq!(lerp_u8(200, 100, -ONE), 200);
}

#[test]
fn lerp_color_mixes_rgb_exactly() {
    assert_eq!(
        lerp_color(Color::Rgb(0, 0, 0), Color::Rgb(255, 255, 255), HALF),
        Color::Rgb(128, 128, 128)
    );
    assert_eq!(
        lerp_color(Color::Rgb(10, 20, 30), Color::Rgb(20, 10, 30), ONE),
        Color::Rgb(20, 10, 30)
    );
}

#[test]
fn lerp_color_switches_named_colors_at_the_middle() {
    assert_eq!(lerp_color(Color::Red, Color::Blue, 499_999), Color::Red);
    assert_eq!(lerp_color(Color::Red, Color::Blue, HALF), Color::Blue);
    assert_eq!(lerp_color(Color::Rgb(1, 2, 3), Color::White, 100_000), Color::Rgb(1, 2, 3));
    assert_eq!(lerp_color(Color::Indexed(4), Color::Rgb(1, 2, 3), 900_000), Color::Rgb(1, 2, 3));
}

#[test]
fn smooth_damp_first_steps() {
    let mut velocity = 0i64;
    let mut value = 0i64;
    let expected = [(19_496, 2_298_613), (68_331, 3_715_055), (134_528, 4_503_252)];
    for (v, vel) in expected {
        value = smooth_damp(value, ONE, &mut velocity, 150_000, 16_000);
        assert_eq!((value, velocity), (v, vel));
    }
}

#[test]
fn smooth_damp_converges_without_overshoot() {
    let mut velocity = 0i64;
    let mut value = 0i64;
    let mut steps = 0;
    while value != ONE {
        let next = smooth_damp(value, ONE, &mut velocity, 150_000, 16_000);
        assert!(next >= value);
        assert!(next <= ONE);
        value = next;
        steps += 1;
        assert!(steps < 1_000);
    }
    assert_eq!(steps, 79);
    // At the target the next step rests there with no velocity.
    let rest = smooth_damp(value, ONE, &mut velocity, 150_000, 16_000);
    assert_eq!(rest, ONE);
    assert_eq!(velocity, 0);
}

#[test]
fn smooth_damp_from_above_does_not_cross() {
    let mut velocity = 0i64;
    let mut value = 3 * ONE;
    for _ in 0..500 {
        let next = smooth_damp(value, ONE, &mut velocity, 150_000, 16_000);
        assert!(next <= value);
        assert!(next >= ONE);
        value = next;
    }
    assert_eq!(value, ONE);
    assert_eq!(velocity, 0);
}

#[test]
fn smooth_damp_snaps_when_the_step_would_overshoot() {
    // A large velocity toward the target carries the value past it.
    let mut velocity = 100 * ONE;
    let value = smooth_damp(0, 10_000, &mut velocity, 150_000, 16_000);
    assert_eq!(value, 10_000);
    assert_eq!(velocity, 0);
}

#[test]
fn smooth_damp_floors_the_smoothing_time() {
    let mut a = 0i64;
    let mut b = 0i64;
    let with_zero = smooth_damp(0, ONE, &mut a, 0, 16_000);
    let with_floor = smooth_damp(0, ONE, &mut b, 100, 16_000);
    assert_eq!(with_zero, with_floor);
    assert_eq!(a, b);
}

#[test]
fn smooth_damp_angle_turns_the_short_way() {
    // From 0.1 to TAU - 0.1 the short way is backwards through zero.
    let mut velocity = 0i64;
    let next = smooth_damp_angle(100_000, TAU - 100_000, &mut velocity, 150_000, 16_000);
    assert!(next < 100_000);
    // From 0.1 to 0.3 it is forwards.
    let mut velocity = 0i64;
    let next = smooth_damp_angle(100_000, 300_000, &mut velocity, 150_000, 16_000);
    assert!(next > 100_000 && next <= 300_000);
    // A whole turn away is no way at all.
    let mut velocity = 0i64;
    let next = smooth_damp_angle(100_000, 100_000 + TAU, &mut velocity, 150_000, 16_000);
    assert_eq!(next, 100_000);
    // Exactly half a turn back counts as half a turn forward.
    let mut velocity = 0i64;
    let next = smooth_damp_angle(PI, 0, &mut velocity, 150_000, 16_000);
    assert!(next > PI);
    let mut velocity = 0i64;
    let next = smooth_damp_angle(0, PI, &mut velocity, 150_000, 16_000);
    assert!(next > 0);
}

#[test]
fn pulse_sine_quarters() {
    assert_eq!(pulse_sine(0, ONE), 500_000);
    assert_eq!(pulse_sine(250_000, ONE), ONE);
    assert_eq!(pulse_sine(750_000, ONE), 0);
    assert_eq!(pulse_sine(1_250_000, ONE), ONE);
    assert_eq!(pulse_sine(125_000, 2 * ONE), ONE);
}

#[test]
fn pulse_triangle_rises_and_falls() {
    assert_eq!(pulse_triangle(0, ONE), 0);
    assert_eq!(pulse_triangle(250_000, ONE), 500_000);
    assert_eq!(pulse_triangle(500_000, ONE), ONE);
    assert_eq!(pulse_triangle(750_000, ONE), 500_000);
    assert_eq!(pulse_triangle(1_250_000, ONE), 500_000);
}

#[test]
fn pulse_triangle_stays_in_range_for_negative_times() {
    assert_eq!(pulse_triangle(-250_000, ONE), 500_000);
    assert_eq!(pulse_triangle(-100_000, ONE), 200_000);
    assert_eq!(pulse_triangle(-ONE, ONE), 0);
    assert_eq!(pulse_triangle(250_000, -ONE), 500_000);
    let mut time = -3 * ONE;
    while time < 3 * ONE {
        let v = pulse_triangle(time, 700_000);
        assert!((0..=ONE).contains(&v));
        time += 12_347;
    }
}

#[test]
fn pulse_breath_stays_in_range_and_follows_the_harmonics() {
    let mut time = 0i64;
    while time < 10 * ONE {
        let v = pulse_breath(time, 300_000);
        assert!((0..=ONE).contains(&v));
        let x = time as f64 / 1e6 * 0.3;
        let tau = std::f64::consts::TAU;
        let primary = (x * tau).sin();
        let secondary = (x * 0.5 * tau).sin() * 0.3;
        let tertiary = (x * 2.3 * tau).sin() * 0.1;
        let expected = ((primary + secondary + tertiary) / 1.4 + 1.0) / 2.0;
        assert!((v as f64 / 1e6 - expected).abs() < 1e-4);
        time += 37_000;
    }
}

#[test]
fn elastic_easing_follows_the_real_curve() {
    assert_eq!(ease_out_elastic(0), 0);
    assert_eq!(ease_out_elastic(ONE), ONE);
    let c4 = 2.0 * std::f64::consts::PI / 3.0;
    let mut t = 1i64;
    while t < ONE {
        let x = t as f64 / 1e6;
        let expected = 2.0_f64.powf(-10.0 * x) * ((x * 10.0 - 0.75) * c4).sin() + 1.0;
        assert!((ease_out_elastic(t) as f64 / 1e6 - expected).abs() < 1e-4);
        t += 4_999;
    }
}
