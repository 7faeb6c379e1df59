//! Fixed-point numbers with six decimal places, held in an `i64`.
//!
//! A value `v` stands for `v / 1_000_000`. Seconds in this form are
//! microseconds. Every operation is total: a result that would leave the
//! range of `i64` is held at the nearest end of it, and division rounds
//! toward zero.

use vstd::prelude::*;

verus! {

/// The number one.
pub const ONE: i64 = 1_000_000;

/// One half.
pub const HALF: i64 = 500_000;

/// The circle constant, rounded to six places.
pub const PI: i64 = 3_141_593;

/// A quarter turn.
pub const HALF_PI: i64 = 1_570_796;

/// A full turn.
pub const TAU: i64 = 6_283_185;

/// `v` held within the range of `i64`.
pub open spec fn saturate(v: int) -> i64 {
    if v < i64::MIN {
        i64::MIN
    } else if v > i64::MAX {
        i64::MAX
    } else {
        v as i64
    }
}

/// The quotient of `a` by `b`, rounded toward zero.
pub open spec fn trunc_div(a: int, b: int) -> int
    recommends
        b != 0,
{
    if a >= 0 && b > 0 {
        a / b
    } else if a < 0 && b > 0 {
        -((-a) / b)
    } else if a >= 0 && b < 0 {
        -(a / (-b))
    } else {
        (-a) / (-b)
    }
}

/// The sum, held within the range.
pub open spec fn plus(a: i64, b: i64) -> i64 {
    saturate(a + b)
}

/// The difference, held within the range.
pub open spec fn minus(a: i64, b: i64) -> i64 {
    saturate(a - b)
}

/// The product of two fixed-point numbers.
pub open spec fn times(a: i64, b: i64) -> i64 {
    saturate(trunc_div(a * b, ONE as int))
}

/// The quotient of two fixed-point numbers.
pub open spec fn over(a: i64, b: i64) -> i64
    recommends
        b != 0,
{
    saturate(trunc_div(a * ONE, b as int))
}

/// The lesser of two numbers.
pub open spec fn lesser(a: i64, b: i64) -> i64 {
    if a <= b {
        a
    } else {
        b
    }
}

/// The greater of two numbers.
pub open spec fn greater(a: i64, b: i64) -> i64 {
    if a >= b {
        a
    } else {
        b
    }
}

/// `v` held between `lo` and `hi`; `lo` wins where the two cross.
pub open spec fn clamped(v: i64, lo: i64, hi: i64) -> i64 {
    greater(lo, lesser(v, hi))
}

/// `v` held between zero and one.
pub open spec fn unit(v: i64) -> i64 {
    clamped(v, 0, ONE)
}

/// The magnitude of `v`.
pub open spec fn magnitude(v: i64) -> i64 {
    if v >= 0 {
        v
    } else {
        saturate(-v)
    }
}

/// A count of microseconds as a fixed-point number of seconds.
pub open spec fn seconds(micros: u64) -> i64 {
    saturate(micros as int)
}

/// Brings a wide number into the range of `i64`.
pub fn narrow(v: i128) -> (r: i64)
    ensures
        r == saturate(v as int),
{
    if v < i64::MIN as i128 {
        i64::MIN
    } else if v > i64::MAX as i128 {
        i64::MAX
    } else {
        v as i64
    }
}

/// Adds; the sum is held within the range.
pub fn fx_add(a: i64, b: i64) -> (r: i64)
    ensures
        r == plus(a, b),
{
    narrow(a as i128 + b as i128)
}

/// Subtracts; the difference is held within the range.
pub fn fx_sub(a: i64, b: i64) -> (r: i64)
    ensures
        r == minus(a, b),
{
    narrow(a as i128 - b as i128)
}

proof fn lemma_product_range(a: i64, b: i64)
    ensures
        -0x4000_0000_0000_0000_0000_0000_0000_0000 <= a * b
            <= 0x4000_0000_0000_0000_0000_0000_0000_0000,
{
    assert(-0x4000_0000_0000_0000_0000_0000_0000_0000 <= a * b
        <= 0x4000_0000_0000_0000_0000_0000_0000_0000) by (nonlinear_arith)
        requires
            -0x8000_0000_0000_0000 <= a <= 0x7fff_ffff_ffff_ffff,
            -0x8000_0000_0000_0000 <= b <= 0x7fff_ffff_ffff_ffff,
    ;
}

/// Multiplies two fixed-point numbers.
pub fn fx_mul(a: i64, b: i64) -> (r: i64)
    ensures
        r == times(a, b),
{
    proof {
        lemma_product_range(a, b);
    }
    let wide: i128 = (a as i128) * (b as i128);
    narrow(wide / 1_000_000)
}

/// Divides one fixed-point number by another that is not zero.
pub fn fx_div(a: i64, b: i64) -> (r: i64)
    requires
        b != 0,
    ensures
        r == over(a, b),
{
    let wide: i128 = (a as i128) * 1_000_000;
    let divisor: i128 = b as i128;
    if wide >= 0 && divisor > 0 {
        narrow(wide / divisor)
    } else if wide < 0 && divisor > 0 {
        narrow(-((-wide) / divisor))
    } else if wide >= 0 {
        narrow(-(wide / (-divisor)))
    } else {
        narrow((-wide) / (-divisor))
    }
}

/// The lesser of two numbers.
pub fn fx_min(a: i64, b: i64) -> (r: i64)
    ensures
        r == lesser(a, b),
{
    if a <= b {
        a
    } else {
        b
    }
}

/// The greater of two numbers.
pub fn fx_max(a: i64, b: i64) -> (r: i64)
    ensures
        r == greater(a, b),
{
    if a >= b {
        a
    } else {
        b
    }
}

/// Holds `v` between `lo` and `hi`.
pub fn fx_clamp(v: i64, lo: i64, hi: i64) -> (r: i64)
    ensures
        r == clamped(v, lo, hi),
{
    fx_max(lo, fx_min(v, hi))
}

/// Holds `v` between zero and one.
pub fn fx_unit(v: i64) -> (r: i64)
    ensures
        r == unit(v),
        0 <= r <= ONE,
{
    fx_clamp(v, 0, ONE)
}

/// The magnitude of `v`.
pub fn fx_abs(v: i64) -> (r: i64)
    ensures
        r == magnitude(v),
        r >= 0,
{
    if v >= 0 {
        v
    } else {
        narrow(-(v as i128))
    }
}

/// A count of microseconds as seconds.
pub fn fx_seconds(micros: u64) -> (r: i64)
    ensures
        r == seconds(micros),
        r >= 0,
{
    if micros > i64::MAX as u64 {
        i64::MAX
    } else {
        micros as i64
    }
}

/// `r` is the square root of `n`, rounded down.
pub open spec fn is_root(r: int, n: int) -> bool {
    r >= 0 && r * r <= n < (r + 1) * (r + 1)
}

/// The square root of `n`, rounded down.
pub open spec fn root(n: int) -> int {
    choose|r: int| is_root(r, n)
}

/// Only one number is the rounded-down square root of `n`.
pub proof fn lemma_root_unique(r: int, n: int)
    requires
        is_root(r, n),
    ensures
        root(n) == r,
{
    let s = root(n);
    assert(is_root(s, n));
    if s < r {
        assert((s + 1) * (s + 1) <= r * r) by (nonlinear_arith)
            requires
                0 <= s + 1 <= r,
        ;
    }
    if r < s {
        assert((r + 1) * (r + 1) <= s * s) by (nonlinear_arith)
            requires
                0 <= r + 1 <= s,
        ;
    }
}

/// The square root of `n`, rounded down.
pub fn isqrt(n: u128) -> (r: u128)
    ensures
        r == root(n as int),
        is_root(r as int, n as int),
        r < 0x1_0000_0000_0000_0000,
{
    let mut lo: u128 = 0;
    let mut hi: u128 = 0x1_0000_0000_0000_0000;
    assert(hi * hi > n) by (nonlinear_arith)
        requires
            hi == 0x1_0000_0000_0000_0000,
            n < 0x1_0000_0000_0000_0000_0000_0000_0000_0000,
    ;
    while hi - lo > 1
        invariant
            lo < hi <= 0x1_0000_0000_0000_0000,
            lo * lo <= n < hi * hi,
        decreases hi - lo,
    {
        let mid: u128 = lo + (hi - lo) / 2;
        assert(mid * mid <= 0xffff_ffff_ffff_ffff * 0xffff_ffff_ffff_ffff) by (nonlinear_arith)
            requires
                0 <= mid <= 0xffff_ffff_ffff_ffff,
        ;
        if mid * mid <= n {
            lo = mid;
        } else {
            hi = mid;
        }
    }
    proof {
        assert(hi == lo + 1);
        lemma_root_unique(lo as int, n as int);
    }
    lo
}

/// The length of the vector `(dx, dy)`.
pub open spec fn length(dx: i64, dy: i64) -> i64 {
    saturate(root(dx * dx + dy * dy))
}

/// The length of the vector `(dx, dy)`.
pub fn fx_length(dx: i64, dy: i64) -> (r: i64)
    ensures
        r == length(dx, dy),
        r >= 0,
{
    proof {
        lemma_product_range(dx, dx);
        lemma_product_range(dy, dy);
        assert(dx * dx >= 0) by (nonlinear_arith);
        assert(dy * dy >= 0) by (nonlinear_arith);
    }
    let xx: i128 = (dx as i128) * (dx as i128);
    let yy: i128 = (dy as i128) * (dy as i128);
    let sum: u128 = (xx as u128) + (yy as u128);
    let r = isqrt(sum);
    if r > i64::MAX as u128 {
        i64::MAX
    } else {
        r as i64
    }
}

/// The sine of an angle between zero and a quarter turn: the series
/// `x - x^3/3! + x^5/5! - x^7/7! + x^9/9!`, nested, in fixed-point steps,
/// held between zero and one.
pub open spec fn sine_first_quarter(x: i64) -> i64 {
    let x2 = times(x, x);
    let t4 = minus(ONE, saturate(trunc_div(x2 as int, 72)));
    let t3 = minus(ONE, saturate(trunc_div(times(x2, t4) as int, 42)));
    let t2 = minus(ONE, saturate(trunc_div(times(x2, t3) as int, 20)));
    let t1 = minus(ONE, saturate(trunc_div(times(x2, t2) as int, 6)));
    unit(times(x, t1))
}

/// An angle brought into one turn: at least zero, less than `TAU`.
pub open spec fn wrapped(angle: i64) -> i64 {
    (angle as int % TAU as int) as i64
}

/// The sine of an angle in radians.
pub open spec fn sine(angle: i64) -> i64 {
    let a = wrapped(angle);
    if a <= HALF_PI {
        sine_first_quarter(a)
    } else if a <= PI {
        sine_first_quarter((PI - a) as i64)
    } else if a <= PI + HALF_PI {
        (-sine_first_quarter((a - PI) as i64)) as i64
    } else {
        (-sine_first_quarter(lesser((TAU - a) as i64, HALF_PI))) as i64
    }
}

/// The cosine of an angle in radians: the sine a quarter turn further on.
pub open spec fn cosine(angle: i64) -> i64 {
    sine((wrapped(angle) + HALF_PI) as i64)
}

fn fx_sine_first_quarter(x: i64) -> (r: i64)
    ensures
        r == sine_first_quarter(x),
        0 <= r <= ONE,
{
    let x2 = fx_mul(x, x);
    let t4 = fx_sub(ONE, x2 / 72);
    let t3 = fx_sub(ONE, fx_mul(x2, t4) / 42);
    let t2 = fx_sub(ONE, fx_mul(x2, t3) / 20);
    let t1 = fx_sub(ONE, fx_mul(x2, t2) / 6);
    fx_unit(fx_mul(x, t1))
}

/// Brings an angle into one turn.
pub fn fx_wrap(angle: i64) -> (r: i64)
    ensures
        r == wrapped(angle),
        0 <= r < TAU,
{
    let m: i64 = angle % TAU;
    if m < 0 {
        m + TAU
    } else {
        m
    }
}

/// The sine of an angle in radians.
pub fn fx_sin(angle: i64) -> (r: i64)
    ensures
        r == sine(angle),
        -ONE <= r <= ONE,
{
    let a = fx_wrap(angle);
    if a <= HALF_PI {
        fx_sine_first_quarter(a)
    } else if a <= PI {
        fx_sine_first_quarter(PI - a)
    } else if a <= PI + HALF_PI {
        -fx_sine_first_quarter(a - PI)
    } else {
        -fx_sine_first_quarter(fx_min(TAU - a, HALF_PI))
    }
}

/// The cosine of an angle in radians.
pub fn fx_cos(angle: i64) -> (r: i64)
    ensures
        r == cosine(angle),
        -ONE <= r <= ONE,
{
    fx_sin(fx_wrap(angle) + HALF_PI)
}

/// The product of two numbers that are not negative is not negative.
pub proof fn lemma_times_nonnegative(a: i64, b: i64)
    requires
        a >= 0,
        b >= 0,
    ensures
        times(a, b) >= 0,
{
    assert(a * b >= 0) by (nonlinear_arith)
        requires
            a >= 0,
            b >= 0,
    ;
}

/// Multiplying by a number between zero and one does not enlarge.
pub proof fn lemma_times_fraction(a: i64, b: i64)
    requires
        0 <= a <= ONE,
        b >= 0,
    ensures
        0 <= times(a, b) <= b,
{
    assert(0 <= a * b <= 1_000_000 * b) by (nonlinear_arith)
        requires
            0 <= a <= 1_000_000,
            b >= 0,
    ;
}

/// A product has the sign that its factors give it.
pub proof fn lemma_times_sign(a: i64, b: i64)
    ensures
        a >= 0 && b >= 0 ==> times(a, b) >= 0,
        a <= 0 && b <= 0 ==> times(a, b) >= 0,
        a >= 0 && b <= 0 ==> times(a, b) <= 0,
        a <= 0 && b >= 0 ==> times(a, b) <= 0,
{
    if a >= 0 && b >= 0 {
        assert(a * b >= 0) by (nonlinear_arith)
            requires
                a >= 0,
                b >= 0,
        ;
    }
    if a <= 0 && b <= 0 {
        assert(a * b >= 0) by (nonlinear_arith)
            requires
                a <= 0,
                b <= 0,
        ;
    }
    if a >= 0 && b <= 0 {
        assert(a * b <= 0) by (nonlinear_arith)
            requires
                a >= 0,
                b <= 0,
        ;
    }
    if a <= 0 && b >= 0 {
        assert(a * b <= 0) by (nonlinear_arith)
            requires
                a <= 0,
                b >= 0,
        ;
    }
}

/// Multiplying by a number between zero and one brings a number nearer
/// to zero, or leaves it.
pub proof fn lemma_times_shrinks(a: i64, f: i64)
    requires
        0 <= f <= ONE,
    ensures
        a >= 0 ==> 0 <= times(a, f) <= a,
        a <= 0 ==> a <= times(a, f) <= 0,
{
    if a >= 0 {
        assert(0 <= a * f <= a * 1_000_000) by (nonlinear_arith)
            requires
                0 <= f <= 1_000_000,
                a >= 0,
        ;
    } else {
        assert(0 <= (-a) * f <= (-a) * 1_000_000) by (nonlinear_arith)
            requires
                0 <= f <= 1_000_000,
                a < 0,
        ;
        assert(a * f == -((-a) * f)) by (nonlinear_arith);
    }
}

/// A part of a whole is a fraction between zero and one.
pub proof fn lemma_over_fraction(part: i64, whole: i64)
    requires
        0 <= part <= whole,
        whole > 0,
    ensures
        0 <= over(part, whole) <= ONE,
{
    assert(0 <= (part * 1_000_000) / (whole as int) <= 1_000_000) by (nonlinear_arith)
        requires
            0 <= part <= whole,
            whole > 0,
    ;
}

/// Among numbers that are not negative the product grows with its factors.
pub proof fn lemma_times_monotone(a: i64, b: i64, c: i64, d: i64)
    requires
        0 <= a <= c,
        0 <= b <= d,
    ensures
        0 <= times(a, b) <= times(c, d),
{
    assert(0 <= a * b <= c * d) by (nonlinear_arith)
        requires
            0 <= a <= c,
            0 <= b <= d,
    ;
    lemma_product_range(c, d);
}

/// The fractional part of `v`: what is left of `v` above the next whole
/// number below it. It is never negative.
pub open spec fn fraction(v: i64) -> i64 {
    (v as int % ONE as int) as i64
}

/// The fractional part of `v`.
pub fn fx_fraction(v: i64) -> (r: i64)
    ensures
        r == fraction(v),
        0 <= r < ONE,
{
    let rem: i64 = v % 1_000_000;
    let quot: i64 = v / 1_000_000;
    let part: i64 = if rem < 0 {
        rem + 1_000_000
    } else {
        rem
    };
    proof {
        let whole: int = if rem < 0 {
            quot - 1
        } else {
            quot as int
        };
        assert(v == 1_000_000 * whole + part);
        vstd::arithmetic::div_mod::lemma_fundamental_div_mod_converse(
            v as int,
            1_000_000,
            whole,
            part as int,
        );
    }
    part
}

/// The natural logarithm of two, rounded to six places.
pub const LN_2: i64 = 693_147;

/// Two to the power `f`, for `f` between zero and one: the series of the
/// exponential of `f` times the logarithm of two, up to the eighth power,
/// nested, in fixed-point steps.
pub open spec fn exp2_fraction(f: i64) -> i64 {
    let y = times(f, LN_2);
    let t8 = plus(ONE, saturate(trunc_div(y as int, 8)));
    let t7 = plus(ONE, saturate(trunc_div(times(y, t8) as int, 7)));
    let t6 = plus(ONE, saturate(trunc_div(times(y, t7) as int, 6)));
    let t5 = plus(ONE, saturate(trunc_div(times(y, t6) as int, 5)));
    let t4 = plus(ONE, saturate(trunc_div(times(y, t5) as int, 4)));
    let t3 = plus(ONE, saturate(trunc_div(times(y, t4) as int, 3)));
    let t2 = plus(ONE, saturate(trunc_div(times(y, t3) as int, 2)));
    plus(ONE, times(y, t2))
}

/// `v` doubled `n` times.
pub open spec fn doubled(v: i64, n: nat) -> i64
    decreases n,
{
    if n == 0 {
        v
    } else {
        doubled(plus(v, v), (n - 1) as nat)
    }
}

/// `v` halved `n` times.
pub open spec fn halved(v: i64, n: nat) -> i64
    decreases n,
{
    if n == 0 {
        v
    } else {
        halved(saturate(trunc_div(v as int, 2)), (n - 1) as nat)
    }
}

/// Two to the power `x`: two to the fractional part of `x`, doubled or
/// halved as often as the whole part of `x` says, at most 64 times.
pub open spec fn exp2(x: i64) -> i64 {
    let whole = x as int / ONE as int;
    let part = (x as int % ONE as int) as i64;
    if whole >= 0 {
        doubled(exp2_fraction(part), (if whole > 64 { 64 } else { whole }) as nat)
    } else {
        halved(exp2_fraction(part), (if -whole > 64 { 64 } else { -whole }) as nat)
    }
}

fn fx_exp2_fraction(f: i64) -> (r: i64)
    ensures
        r == exp2_fraction(f),
{
    let y = fx_mul(f, LN_2);
    let t8 = fx_add(ONE, y / 8);
    let t7 = fx_add(ONE, fx_mul(y, t8) / 7);
    let t6 = fx_add(ONE, fx_mul(y, t7) / 6);
    let t5 = fx_add(ONE, fx_mul(y, t6) / 5);
    let t4 = fx_add(ONE, fx_mul(y, t5) / 4);
    let t3 = fx_add(ONE, fx_mul(y, t4) / 3);
    let t2 = fx_add(ONE, fx_mul(y, t3) / 2);
    fx_add(ONE, fx_mul(y, t2))
}

/// Two to the power `x`.
pub fn fx_exp2(x: i64) -> (r: i64)
    ensures
        r == exp2(x),
{
    let rem: i64 = x % ONE;
    let quot: i64 = x / ONE;
    let (whole, part): (i64, i64) = if rem < 0 {
        (quot - 1, rem + ONE)
    } else {
        (quot, rem)
    };
    assert(whole == x as int / ONE as int && part == x as int % ONE as int) by {
        assert(x == quot * 1_000_000 + rem);
        vstd::arithmetic::div_mod::lemma_fundamental_div_mod_converse(
            x as int,
            1_000_000,
            whole as int,
            part as int,
        );
    }
    let mut value = fx_exp2_fraction(part);
    let ghost start = value;
    if whole >= 0 {
        let steps: i64 = if whole > 64 {
            64
        } else {
            whole
        };
        let mut done: i64 = 0;
        while done < steps
            invariant
                0 <= done <= steps,
                doubled(value, (steps - done) as nat) == doubled(start, steps as nat),
            decreases steps - done,
        {
            value = fx_add(value, value);
            done += 1;
        }
    } else {
        let steps: i64 = if whole < -64 {
            64
        } else {
            -whole
        };
        let mut done: i64 = 0;
        while done < steps
            invariant
                0 <= done <= steps,
                halved(value, (steps - done) as nat) == halved(start, steps as nat),
            decreases steps - done,
        {
            value = value / 2;
            done += 1;
        }
    }
    value
}

} // verus!
