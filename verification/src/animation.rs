//! Easing curves, interpolation and a critically damped smoother, all in
//! fixed-point numbers.

use vstd::prelude::*;
use crate::theme::Color;
use crate::fixed::{
    cosine, exp2, fraction, fx_add, fx_cos, fx_div, fx_exp2, fx_fraction, fx_max, fx_mul, fx_seconds, fx_sin, fx_sub, fx_unit, greater,
    lemma_over_fraction, lemma_times_fraction, lemma_times_monotone, lemma_times_nonnegative,
    lemma_times_shrinks, lemma_times_sign, minus, over, plus, saturate, seconds, sine, sine_first_quarter,
    times, trunc_div, unit, wrapped, HALF, HALF_PI, ONE, PI, TAU,
};

verus! {

/// The third power.
pub open spec fn cube(x: i64) -> i64 {
    times(times(x, x), x)
}

/// Half of one minus the cosine of `t` half turns.
pub open spec fn sine_in_out(t: i64) -> i64 {
    saturate(trunc_div(minus(ONE, cosine(times(PI, t))) as int, 2))
}

/// `4 t^3` in the first half, `1 - (2 - 2t)^3 / 2` in the second.
pub open spec fn cubic_in_out(t: i64) -> i64 {
    if t < HALF {
        times(4_000_000, cube(t))
    } else {
        minus(ONE, saturate(trunc_div(cube(minus(2_000_000, times(2_000_000, t))) as int, 2)))
    }
}

/// `1 - (1 - t)^3`.
pub open spec fn cubic_out(t: i64) -> i64 {
    minus(ONE, cube(minus(ONE, t)))
}

/// Seven parts sine curve, three parts cubic curve.
pub open spec fn breath_curve(t: i64) -> i64 {
    plus(times(sine_in_out(t), 700_000), times(cubic_in_out(t), 300_000))
}

/// `t^2`.
pub open spec fn quad_in(t: i64) -> i64 {
    times(t, t)
}

/// `1 - (1 - t)^2`.
pub open spec fn quad_out(t: i64) -> i64 {
    minus(ONE, times(minus(ONE, t), minus(ONE, t)))
}

fn fx_cube(x: i64) -> (r: i64)
    ensures
        r == cube(x),
{
    fx_mul(fx_mul(x, x), x)
}

/// The sine of a quarter turn is one.
pub proof fn lemma_quarter_turn()
    ensures
        sine_first_quarter(HALF_PI) == ONE,
{
    assert(1_570_796int * 1_570_796int == 2_467_400_073_616int);
    let x2 = times(HALF_PI, HALF_PI);
    assert(x2 == 2_467_400);
    let t4 = minus(ONE, saturate(trunc_div(x2 as int, 72)));
    assert(t4 == 965_731);
    assert(2_467_400int * 965_731int == 2_382_844_669_400int);
    let t3 = minus(ONE, saturate(trunc_div(times(x2, t4) as int, 42)));
    assert(t3 == 943_266);
    assert(2_467_400int * 943_266int == 2_327_414_528_400int);
    let t2 = minus(ONE, saturate(trunc_div(times(x2, t3) as int, 20)));
    assert(t2 == 883_630);
    assert(2_467_400int * 883_630int == 2_180_268_662_000int);
    let t1 = minus(ONE, saturate(trunc_div(times(x2, t2) as int, 6)));
    assert(t1 == 636_622);
    assert(1_570_796int * 636_622int == 1_000_003_291_112int);
    assert(times(HALF_PI, t1) == 1_000_003);
}

/// Every curve starts at zero.
pub proof fn lemma_curves_start()
    ensures
        sine_in_out(0) == 0,
        cubic_in_out(0) == 0,
        cubic_out(0) == 0,
        breath_curve(0) == 0,
        quad_in(0) == 0,
        quad_out(0) == 0,
{
    lemma_quarter_turn();
    assert(times(PI, 0) == 0);
    assert(wrapped(0) == 0);
    assert(cosine(0) == sine(HALF_PI));
    assert(wrapped(HALF_PI) == HALF_PI);
    assert(cube(0) == 0);
    assert(cube(ONE) == ONE);
}

/// Every curve ends at one.
pub proof fn lemma_curves_end()
    ensures
        sine_in_out(ONE) == ONE,
        cubic_in_out(ONE) == ONE,
        cubic_out(ONE) == ONE,
        breath_curve(ONE) == ONE,
        quad_in(ONE) == ONE,
        quad_out(ONE) == ONE,
{
    lemma_quarter_turn();
    assert(times(PI, ONE) == PI);
    assert(wrapped(PI) == PI);
    assert(wrapped((PI + HALF_PI) as i64) == PI + HALF_PI);
    assert(cosine(PI) == sine((PI + HALF_PI) as i64));
    assert(cosine(PI) == -ONE);
    assert(cube(0) == 0);
    assert(times(2_000_000, ONE) == 2_000_000);
}

/// The sine curve never leaves the range from zero to one.
pub proof fn lemma_sine_curve_range(t: i64)
    ensures
        0 <= sine_in_out(t) <= ONE,
{
    let c = cosine(times(PI, t));
    assert(-ONE <= c <= ONE);
}

/// Between zero and one the cubic curve stays between zero and one.
pub proof fn lemma_cubic_curve_range(t: i64)
    requires
        0 <= t <= ONE,
    ensures
        0 <= cubic_in_out(t) <= ONE,
{
    if t < HALF {
        lemma_times_monotone(t, t, HALF, HALF);
        assert(times(HALF, HALF) == 250_000);
        lemma_times_monotone(times(t, t), t, 250_000, HALF);
        assert(times(250_000, HALF) == 125_000);
        lemma_times_monotone(4_000_000, cube(t), 4_000_000, 125_000);
        assert(times(4_000_000, 125_000) == 500_000);
    } else {
        lemma_times_monotone(2_000_000, HALF, 2_000_000, t);
        lemma_times_monotone(2_000_000, t, 2_000_000, ONE);
        assert(times(2_000_000, HALF) == ONE);
        assert(times(2_000_000, ONE) == 2_000_000);
        let u = minus(2_000_000, times(2_000_000, t));
        assert(0 <= u <= ONE);
        lemma_times_fraction(u, u);
        lemma_times_fraction(times(u, u), u);
    }
}

/// Between zero and one the breathing curve stays between zero and one.
pub proof fn lemma_breath_curve_range(t: i64)
    requires
        0 <= t <= ONE,
    ensures
        0 <= breath_curve(t) <= ONE,
{
    lemma_sine_curve_range(t);
    lemma_cubic_curve_range(t);
    lemma_times_monotone(sine_in_out(t), 700_000, ONE, 700_000);
    lemma_times_monotone(cubic_in_out(t), 300_000, ONE, 300_000);
    assert(times(ONE, 700_000) == 700_000);
    assert(times(ONE, 300_000) == 300_000);
}

/// A third of a turn.
pub const THIRD_TURN: i64 = 2_094_395;

/// Zero at zero, one at one, and between them one plus a sine wave that
/// dies away: `2^(-10 t) sin((10 t - 0.75) c) + 1`, with `c` a third of
/// a turn.
pub open spec fn elastic_out(t: i64) -> i64 {
    if t == 0 {
        0
    } else if t == ONE {
        ONE
    } else {
        plus(
            times(
                exp2(minus(0, times(10_000_000, t))),
                sine(times(minus(times(t, 10_000_000), 750_000), THIRD_TURN)),
            ),
            ONE,
        )
    }
}

/// Elastic ease out: it overshoots and swings in.
pub fn ease_out_elastic(t: i64) -> (r: i64)
    ensures
        r == elastic_out(t),
        t == 0 ==> r == 0,
        t == ONE ==> r == ONE,
{
    if t == 0 {
        0
    } else if t == ONE {
        ONE
    } else {
        let decay = fx_exp2(fx_sub(0, fx_mul(10_000_000, t)));
        let wave = fx_sin(fx_mul(fx_sub(fx_mul(t, 10_000_000), 750_000), THIRD_TURN));
        fx_add(fx_mul(decay, wave), ONE)
    }
}

/// Sine easing: a slow start and a slow end.
pub fn ease_in_out_sine(t: i64) -> (r: i64)
    ensures
        r == sine_in_out(t),
        0 <= r <= ONE,
        t == 0 ==> r == 0,
        t == ONE ==> r == ONE,
{
    proof {
        lemma_curves_start();
        lemma_curves_end();
    }
    fx_sub(ONE, fx_cos(fx_mul(PI, t))) / 2
}

/// Cubic easing: speeds up, then slows down.
pub fn ease_in_out_cubic(t: i64) -> (r: i64)
    ensures
        r == cubic_in_out(t),
        t == 0 ==> r == 0,
        t == ONE ==> r == ONE,
        0 <= t <= ONE ==> 0 <= r <= ONE,
{
    proof {
        lemma_curves_start();
        lemma_curves_end();
        if 0 <= t <= ONE {
            lemma_cubic_curve_range(t);
        }
    }
    if t < HALF {
        fx_mul(4_000_000, fx_cube(t))
    } else {
        fx_sub(ONE, fx_cube(fx_sub(2_000_000, fx_mul(2_000_000, t))) / 2)
    }
}

/// Cubic ease out: a fast start and a slow end.
pub fn ease_out_cubic(t: i64) -> (r: i64)
    ensures
        r == cubic_out(t),
        t == 0 ==> r == 0,
        t == ONE ==> r == ONE,
{
    proof {
        lemma_curves_start();
        lemma_curves_end();
    }
    fx_sub(ONE, fx_cube(fx_sub(ONE, t)))
}

/// The breathing curve: mostly sine, with some cubic for a natural rhythm.
pub fn ease_breath(t: i64) -> (r: i64)
    ensures
        r == breath_curve(t),
        t == 0 ==> r == 0,
        t == ONE ==> r == ONE,
        0 <= t <= ONE ==> 0 <= r <= ONE,
{
    proof {
        lemma_curves_start();
        lemma_curves_end();
        if 0 <= t <= ONE {
            lemma_breath_curve_range(t);
        }
    }
    let sine_part = ease_in_out_sine(t);
    let cubic_part = ease_in_out_cubic(t);
    fx_add(fx_mul(sine_part, 700_000), fx_mul(cubic_part, 300_000))
}

/// Quadratic ease in: a slow start.
pub fn ease_in_quad(t: i64) -> (r: i64)
    ensures
        r == quad_in(t),
        t == 0 ==> r == 0,
        t == ONE ==> r == ONE,
{
    proof {
        lemma_curves_start();
        lemma_curves_end();
    }
    fx_mul(t, t)
}

/// Quadratic ease out: a slow end.
pub fn ease_out_quad(t: i64) -> (r: i64)
    ensures
        r == quad_out(t),
        t == 0 ==> r == 0,
        t == ONE ==> r == ONE,
{
    proof {
        lemma_curves_start();
        lemma_curves_end();
    }
    let rest = fx_sub(ONE, t);
    fx_sub(ONE, fx_mul(rest, rest))
}

/// The point that lies the share `t` of the way from `a` to `b`, with `t`
/// held between zero and one. It never leaves the span from `a` to `b`.
pub open spec fn lerp_value(a: i64, b: i64, t: i64) -> int {
    a + trunc_div((b - a) * unit(t), ONE as int)
}

/// A step from `a` toward `b` stays between the two.
pub proof fn lemma_lerp_between(a: i64, b: i64, t: i64)
    ensures
        a <= b ==> a <= lerp_value(a, b, t) <= b,
        b <= a ==> b <= lerp_value(a, b, t) <= a,
{
    let u = unit(t) as int;
    let d = b - a;
    if d >= 0 {
        assert(0 <= d * u <= d * 1_000_000) by (nonlinear_arith)
            requires
                0 <= u <= 1_000_000,
                d >= 0,
        ;
    } else {
        assert(0 <= (-d) * u <= (-d) * 1_000_000) by (nonlinear_arith)
            requires
                0 <= u <= 1_000_000,
                d < 0,
        ;
        assert(d * u == -((-d) * u)) by (nonlinear_arith);
    }
}

/// Interpolation gives the start at zero and the end at one, and at one
/// half a point whose double is within one step of the sum of the two.
pub proof fn lemma_lerp_ends(a: i64, b: i64)
    ensures
        lerp_value(a, b, 0) == a,
        lerp_value(a, b, ONE) == b,
        -1 <= 2 * lerp_value(a, b, HALF) - (a + b) <= 1,
{
    let d = b - a;
    assert(d * 0 == 0);
    assert(unit(0) == 0);
    assert(unit(ONE) == ONE);
    assert(unit(HALF) == HALF);
    assert(d * 1_000_000 == 1_000_000 * d);
    assert(d * 500_000 == 500_000 * d);
}

/// Linear interpolation between two values, `t` held between zero and one.
pub fn lerp(a: i64, b: i64, t: i64) -> (r: i64)
    ensures
        r == lerp_value(a, b, t),
        t <= 0 ==> r == a,
        t >= ONE ==> r == b,
        a <= b ==> a <= r <= b,
        b <= a ==> b <= r <= a,
{
    let u: i128 = fx_unit(t) as i128;
    let d: i128 = b as i128 - a as i128;
    proof {
        lemma_lerp_between(a, b, t);
        lemma_lerp_ends(a, b);
        assert(-0x1_0000_0000_0000_0000 * 1_000_000 <= d * u <= 0x1_0000_0000_0000_0000
            * 1_000_000) by (nonlinear_arith)
            requires
                0 <= u <= 1_000_000,
                -0x1_0000_0000_0000_0000 <= d <= 0x1_0000_0000_0000_0000,
        ;
        assert(unit(t) == if t <= 0 { 0 } else if t >= ONE { ONE } else { t });
    }
    let step: i128 = (d * u) / 1_000_000;
    (a as i128 + step) as i64
}

/// The byte nearest to the point that lies the share `t` of the way from
/// `a` to `b`, a half rounded up.
pub open spec fn lerp_byte(a: u8, b: u8, t: i64) -> int {
    (a * ONE + (b - a) * unit(t) + HALF) / (ONE as int)
}

/// Linear interpolation between two bytes, rounded to the nearest.
pub fn lerp_u8(a: u8, b: u8, t: i64) -> (r: u8)
    ensures
        r == lerp_byte(a, b, t),
        t <= 0 ==> r == a,
        t >= ONE ==> r == b,
        a <= b ==> a <= r <= b,
        b <= a ==> b <= r <= a,
{
    let u: i64 = fx_unit(t);
    let d: i64 = b as i64 - a as i64;
    proof {
        if d >= 0 {
            assert(0 <= d * u <= d * 1_000_000) by (nonlinear_arith)
                requires
                    0 <= u <= 1_000_000,
                    d >= 0,
            ;
        } else {
            assert(d * 1_000_000 <= d * u <= 0) by (nonlinear_arith)
                requires
                    0 <= u <= 1_000_000,
                    d < 0,
            ;
        }
        assert(unit(t) == if t <= 0 { 0 } else if t >= ONE { ONE } else { t });
        assert(d * 0 == 0);
    }
    let scaled: i64 = a as i64 * 1_000_000 + d * u + 500_000;
    (scaled / 1_000_000) as u8
}

/// The least smoothing time the smoother works with.
pub const MIN_SMOOTH_TIME: i64 = 100;

/// How fast the smoother closes in, for a smoothing time: two over the
/// time, the time held at `MIN_SMOOTH_TIME` or above.
pub open spec fn stiffness(smooth_time: i64) -> i64 {
    over(2_000_000, greater(smooth_time, MIN_SMOOTH_TIME))
}

/// The stiffness times the time step: the `x` of the formulas below.
pub open spec fn damp_rate(smooth_time: i64, dt: u64) -> i64 {
    times(stiffness(smooth_time), seconds(dt))
}

/// The denominator of the decay: `1 + x + 0.48 x^2 + 0.235 x^3`.
pub open spec fn damp_denominator(x: i64) -> i64 {
    plus(plus(plus(ONE, x), times(480_000, times(x, x))), times(235_000, times(times(x, x), x)))
}

/// Where one step takes the value before it is held at the target: with
/// `c` the distance `current - target`, `w` the stiffness and `e` the
/// decay `1 / (1 + x + 0.48 x^2 + 0.235 x^3)`, the value becomes
/// `target + c (1 + x) e + v dt e` and the velocity `(v - v x - w c x) e`.
pub open spec fn damp_raw(current: i64, target: i64, velocity: i64, smooth_time: i64, dt: u64) -> (
    i64,
    i64,
) {
    let omega = stiffness(smooth_time);
    let x = damp_rate(smooth_time, dt);
    let denominator = damp_denominator(x);
    let decay = over(ONE, denominator);
    let keep = over(plus(ONE, x), denominator);
    let change = minus(current, target);
    let drift = times(times(velocity, seconds(dt)), decay);
    let result = plus(target, plus(times(change, keep), drift));
    let next_velocity = times(
        minus(minus(velocity, times(velocity, x)), times(times(omega, change), x)),
        decay,
    );
    (result, next_velocity)
}

/// One step of the critically damped smoother: the new value and the new
/// velocity. Where the step would carry the value past the target, the
/// value is the target and the velocity is zero.
pub open spec fn damp_step(current: i64, target: i64, velocity: i64, smooth_time: i64, dt: u64) -> (
    i64,
    i64,
) {
    let raw = damp_raw(current, target, velocity, smooth_time, dt);
    if (target > current) == (raw.0 > target) {
        (target, 0i64)
    } else {
        raw
    }
}

/// The velocity is zero, or it points from `current` to `target`.
pub open spec fn heads_for(current: i64, target: i64, velocity: i64) -> bool {
    ||| velocity == 0
    ||| current < target && velocity > 0
    ||| current > target && velocity < 0
}

proof fn lemma_damp_parts(smooth_time: i64, dt: u64)
    ensures
        stiffness(smooth_time) >= 0,
        damp_rate(smooth_time, dt) >= 0,
        damp_denominator(damp_rate(smooth_time, dt)) >= plus(ONE, damp_rate(smooth_time, dt)),
        plus(ONE, damp_rate(smooth_time, dt)) >= ONE,
        0 <= over(ONE, damp_denominator(damp_rate(smooth_time, dt))) <= ONE,
        0 <= over(plus(ONE, damp_rate(smooth_time, dt)), damp_denominator(damp_rate(smooth_time, dt)))
            <= ONE,
{
    let floor = greater(smooth_time, MIN_SMOOTH_TIME);
    let omega = stiffness(smooth_time);
    assert(omega >= 0) by (nonlinear_arith)
        requires
            omega == over(2_000_000, floor),
            floor >= 100,
    ;
    let x = damp_rate(smooth_time, dt);
    lemma_times_nonnegative(omega, seconds(dt));
    lemma_times_nonnegative(x, x);
    lemma_times_nonnegative(times(x, x), x);
    lemma_times_nonnegative(480_000, times(x, x));
    lemma_times_nonnegative(235_000, times(times(x, x), x));
    lemma_over_fraction(ONE, damp_denominator(x));
    lemma_over_fraction(plus(ONE, x), damp_denominator(x));
}

/// A step of the smoother never crosses the target, and a step that
/// would cross it ends on it, at rest. Where the velocity is zero or
/// heads for the target, the step does not lead away from the target
/// either: the new value lies between the old one and the target. And
/// where the time step is at most half the smoothing time, a velocity
/// that heads for the target still does so after the step, unless the
/// step has arrived.
pub proof fn lemma_damp_closes_in(current: i64, target: i64, velocity: i64, smooth_time: i64, dt: u64)
    ensures
        ({
            let raw = damp_raw(current, target, velocity, smooth_time, dt);
            let step = damp_step(current, target, velocity, smooth_time, dt);
            &&& current < target ==> step.0 <= target
            &&& current >= target ==> step.0 >= target
            &&& (current < target && raw.0 > target) || (current >= target && raw.0 <= target)
                ==> step == (target, 0i64)
            &&& heads_for(current, target, velocity) ==> {
                &&& current <= target ==> current <= step.0
                &&& current >= target ==> step.0 <= current
            }
            &&& heads_for(current, target, velocity) && damp_rate(smooth_time, dt) <= ONE
                && step.0 != target ==> heads_for(step.0, target, step.1)
        }),
{
    lemma_damp_parts(smooth_time, dt);
    let omega = stiffness(smooth_time);
    let x = damp_rate(smooth_time, dt);
    let denominator = damp_denominator(x);
    let decay = over(ONE, denominator);
    let keep = over(plus(ONE, x), denominator);
    let change = minus(current, target);
    let drift = times(times(velocity, seconds(dt)), decay);
    let kept = times(change, keep);
    let raw = damp_raw(current, target, velocity, smooth_time, dt);
    let step = damp_step(current, target, velocity, smooth_time, dt);
    if heads_for(current, target, velocity) {
        lemma_times_shrinks(change, keep);
        lemma_times_sign(velocity, seconds(dt));
        lemma_times_sign(times(velocity, seconds(dt)), decay);
        lemma_times_sign(omega, change);
        lemma_times_sign(times(omega, change), x);
        if x <= ONE {
            lemma_times_shrinks(velocity, x);
        }
        let inner = minus(minus(velocity, times(velocity, x)), times(times(omega, change), x));
        lemma_times_sign(inner, decay);
        if current < target {
            assert(change <= 0);
            assert(change <= kept <= 0);
            assert(drift >= 0);
            assert(raw.0 >= current);
        } else if current > target {
            assert(change >= 0);
            assert(0 <= kept <= change);
            assert(drift <= 0);
            assert(raw.0 <= current);
        } else {
            assert(change == 0);
            assert(kept == 0);
            assert(times(velocity, seconds(dt)) == 0);
            assert(drift == 0);
        }
    }
}

/// A value that rests on its target stays there, at rest.
pub proof fn lemma_damp_rests(target: i64, smooth_time: i64, dt: u64)
    ensures
        damp_step(target, target, 0, smooth_time, dt) == (target, 0i64),
{
    let x = damp_rate(smooth_time, dt);
    let denominator = damp_denominator(x);
    let decay = over(ONE, denominator);
    let keep = over(plus(ONE, x), denominator);
    lemma_times_sign(0, keep);
    lemma_times_sign(0, seconds(dt));
    lemma_times_sign(0, decay);
    assert(times(0, keep) == 0);
    assert(times(0, seconds(dt)) == 0);
    assert(times(0, decay) == 0);
}

/// The value and the velocity after a run of steps of the smoother, each
/// with its own time step, the velocity carried from one step to the
/// next.
pub open spec fn damp_run(current: i64, target: i64, velocity: i64, smooth_time: i64, steps: Seq<u64>) -> (
    i64,
    i64,
)
    decreases steps.len(),
{
    if steps.len() == 0 {
        (current, velocity)
    } else {
        let before = damp_run(current, target, velocity, smooth_time, steps.drop_last());
        damp_step(before.0, target, before.1, smooth_time, steps.last())
    }
}

/// A run of the smoother closes in on its target step by step. Let the
/// run begin at rest, or with a velocity that heads for the target, and
/// let every time step be at most half the smoothing time. Then as long
/// as the run has not arrived, its value lies between where it began and
/// the target, its velocity still heads for the target, and one more
/// step brings it nearer to the target or onto it, never past it.
pub proof fn lemma_damp_run_closes_in(
    current: i64,
    target: i64,
    velocity: i64,
    smooth_time: i64,
    steps: Seq<u64>,
    dt: u64,
)
    requires
        heads_for(current, target, velocity),
        forall|k: int| 0 <= k < steps.len() ==> damp_rate(smooth_time, #[trigger] steps[k]) <= ONE,
        damp_rate(smooth_time, dt) <= ONE,
        forall|j: int|
            0 <= j <= steps.len() ==> (#[trigger] damp_run(
                current,
                target,
                velocity,
                smooth_time,
                steps.take(j),
            )).0 != target,
    ensures
        ({
            let here = damp_run(current, target, velocity, smooth_time, steps);
            let next = damp_step(here.0, target, here.1, smooth_time, dt);
            &&& heads_for(here.0, target, here.1)
            &&& current < target ==> current <= here.0 <= next.0 <= target
            &&& current > target ==> target <= next.0 <= here.0 <= current
        }),
    decreases steps.len(),
{
    assert(steps.take(steps.len() as int) =~= steps);
    assert(steps.take(0) =~= Seq::<u64>::empty());
    if steps.len() > 0 {
        let head = steps.drop_last();
        assert forall|j: int| 0 <= j <= head.len() implies (#[trigger] damp_run(
            current,
            target,
            velocity,
            smooth_time,
            head.take(j),
        )).0 != target by {
            assert(head.take(j) =~= steps.take(j));
        }
        lemma_damp_run_closes_in(current, target, velocity, smooth_time, head, steps.last());
        let before = damp_run(current, target, velocity, smooth_time, head);
        lemma_damp_closes_in(before.0, target, before.1, smooth_time, steps.last());
    }
    let here = damp_run(current, target, velocity, smooth_time, steps);
    assert(here == damp_run(current, target, velocity, smooth_time, steps.take(steps.len() as int)));
    assert(here.0 != target);
    assert(damp_run(current, target, velocity, smooth_time, steps.take(0)).0 == current);
    lemma_damp_closes_in(here.0, target, here.1, smooth_time, dt);
}

/// Moves `current` toward `target` like a critically damped spring and
/// keeps the velocity in `velocity`. `dt` is in microseconds.
pub fn smooth_damp(current: i64, target: i64, velocity: &mut i64, smooth_time: i64, dt: u64) -> (r: i64)
    ensures
        (r, *final(velocity)) == damp_step(current, target, *old(velocity), smooth_time, dt),
        current < target ==> r <= target,
        current >= target ==> r >= target,
        heads_for(current, target, *old(velocity)) ==> {
            &&& current <= target ==> current <= r
            &&& current >= target ==> r <= current
        },
{
    proof {
        lemma_damp_parts(smooth_time, dt);
        lemma_damp_closes_in(current, target, *velocity, smooth_time, dt);
    }
    let smooth_time = fx_max(smooth_time, MIN_SMOOTH_TIME);
    let omega = fx_div(2_000_000, smooth_time);
    let step = fx_seconds(dt);
    let x = fx_mul(omega, step);
    let denominator = fx_add(
        fx_add(fx_add(ONE, x), fx_mul(480_000, fx_mul(x, x))),
        fx_mul(235_000, fx_mul(fx_mul(x, x), x)),
    );
    let decay = fx_div(ONE, denominator);
    let keep = fx_div(fx_add(ONE, x), denominator);
    let change = fx_sub(current, target);
    let drift = fx_mul(fx_mul(*velocity, step), decay);
    let result = fx_add(target, fx_add(fx_mul(change, keep), drift));
    let next_velocity = fx_mul(
        fx_sub(fx_sub(*velocity, fx_mul(*velocity, x)), fx_mul(fx_mul(omega, change), x)),
        decay,
    );
    if (target > current) == (result > target) {
        *velocity = 0;
        target
    } else {
        *velocity = next_velocity;
        result
    }
}

/// The remainder of `a` by `b` with the sign of `a`.
pub open spec fn trunc_rem(a: int, b: int) -> int
    recommends
        b != 0,
{
    a - b * trunc_div(a, b)
}

/// The short way round from `current` to `target`: the difference of the
/// two angles, brought to more than minus half a turn and at most half a
/// turn.
pub open spec fn short_way(current: i64, target: i64) -> i64 {
    let d = trunc_rem(minus(target, current) as int, TAU as int);
    if d > PI {
        (d - TAU) as i64
    } else if d <= -PI {
        (d + TAU) as i64
    } else {
        d as i64
    }
}

/// The smoother for angles: it turns the short way round.
pub fn smooth_damp_angle(current: i64, target: i64, velocity: &mut i64, smooth_time: i64, dt: u64) -> (r: i64)
    ensures
        -PI < short_way(current, target) <= PI,
        (r, *final(velocity)) == damp_step(
            current,
            plus(current, short_way(current, target)),
            *old(velocity),
            smooth_time,
            dt,
        ),
{
    let mut delta: i64 = fx_sub(target, current) % TAU;
    if delta > PI {
        delta = delta - TAU;
    } else if delta <= -PI {
        delta = delta + TAU;
    }
    smooth_damp(current, fx_add(current, delta), velocity, smooth_time, dt)
}

/// The angle, in radians, of the fractional part of a number of turns.
pub open spec fn turn_angle(turns: i64) -> i64 {
    times(fraction(turns), TAU)
}

/// A sine wave between zero and one.
pub open spec fn sine_wave(time: i64, frequency: i64) -> i64 {
    saturate(trunc_div(plus(sine(turn_angle(times(time, frequency))), ONE) as int, 2))
}

/// A triangle wave: it rises to one over the first half of each period
/// and falls back over the second. The place in the period is the
/// fractional part of `time` times `frequency`, which is never negative.
pub open spec fn triangle_wave(time: i64, frequency: i64) -> i64 {
    let t = fraction(times(time, frequency));
    if t < HALF {
        (2 * t) as i64
    } else {
        (2 * ONE - 2 * t) as i64
    }
}

/// Three sine waves at the rates 1, 0.5 and 2.3 with the weights 1, 0.3
/// and 0.1, brought to the range from zero to one.
pub open spec fn breath_wave(time: i64, base_freq: i64) -> i64 {
    let turns = times(time, base_freq);
    let primary = sine(turn_angle(turns));
    let secondary = times(sine(turn_angle(times(turns, HALF))), 300_000);
    let tertiary = times(sine(turn_angle(times(turns, 2_300_000))), 100_000);
    unit(saturate(trunc_div(plus(over(plus(plus(primary, secondary), tertiary), 1_400_000), ONE) as int, 2)))
}

fn fx_turn_angle(turns: i64) -> (r: i64)
    ensures
        r == turn_angle(turns),
{
    fx_mul(fx_fraction(turns), TAU)
}

/// A sine pulse between zero and one. `time` is in seconds.
pub fn pulse_sine(time: i64, frequency: i64) -> (r: i64)
    ensures
        r == sine_wave(time, frequency),
        0 <= r <= ONE,
{
    fx_add(fx_sin(fx_turn_angle(fx_mul(time, frequency))), ONE) / 2
}

/// A triangle pulse between zero and one.
pub fn pulse_triangle(time: i64, frequency: i64) -> (r: i64)
    ensures
        r == triangle_wave(time, frequency),
        0 <= r <= ONE,
{
    let t: i64 = fx_fraction(fx_mul(time, frequency));
    if t < HALF {
        t * 2
    } else {
        2 * ONE - t * 2
    }
}

/// An organic pulse for visuals, between zero and one.
pub fn pulse_breath(time: i64, base_freq: i64) -> (r: i64)
    ensures
        r == breath_wave(time, base_freq),
        0 <= r <= ONE,
{
    let turns = fx_mul(time, base_freq);
    let primary = fx_sin(fx_turn_angle(turns));
    let secondary = fx_mul(fx_sin(fx_turn_angle(fx_mul(turns, HALF))), 300_000);
    let tertiary = fx_mul(fx_sin(fx_turn_angle(fx_mul(turns, 2_300_000))), 100_000);
    let mixed = fx_div(fx_add(fx_add(primary, secondary), tertiary), 1_400_000);
    fx_unit(fx_add(mixed, ONE) / 2)
}

/// The color the share `t` of the way from `a` to `b`. Two colors given
/// as red, green and blue are mixed channel by channel; of any other pair
/// it is `a` below one half and `b` from there on.
pub open spec fn color_between(a: Color, b: Color, t: i64) -> Color {
    match (a, b) {
        (Color::Rgb(r1, g1, b1), Color::Rgb(r2, g2, b2)) => Color::Rgb(
            lerp_byte(r1, r2, t) as u8,
            lerp_byte(g1, g2, t) as u8,
            lerp_byte(b1, b2, t) as u8,
        ),
        _ => if t < HALF {
            a
        } else {
            b
        },
    }
}

/// Linear interpolation between two colors.
pub fn lerp_color(a: Color, b: Color, t: i64) -> (color: Color)
    ensures
        color == color_between(a, b, t),
{
    match (a, b) {
        (Color::Rgb(r1, g1, b1), Color::Rgb(r2, g2, b2)) => Color::Rgb(
            lerp_u8(r1, r2, t),
            lerp_u8(g1, g2, t),
            lerp_u8(b1, b2, t),
        ),
        _ => if t < HALF {
            a
        } else {
            b
        },
    }
}

} // verus!
