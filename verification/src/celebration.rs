//! The burst of falling sparks that marks a finished session.

use vstd::prelude::*;
use crate::animation::{cubic_out, ease_out_cubic};
use crate::fixed::{
    cosine, fx_add, fx_cos, fx_div, fx_mul, fx_seconds, fx_sin, fx_sub, fx_unit, minus, plus,
    seconds, sine, times, HALF, ONE, TAU,
};
use crate::particles::{extended, life_share, Draws};
use crate::random::rand_unit;
use crate::theme::Color;

verus! {

/// The most positions the trail of a spark keeps.
pub const SPARK_TRAIL_LENGTH: usize = 6;

/// How many sparks leave in evenly spaced directions.
pub const STREAK_COUNT: usize = 80;

/// How many more sparks leave in any direction.
pub const SPARKLE_COUNT: usize = 20;

/// How long the celebration lasts, in seconds.
pub const CELEBRATION_SECONDS: i64 = 4_000_000;

/// One spark of the celebration.
#[derive(Debug)]
pub struct CelebrationParticle {
    pub x: i64,
    pub y: i64,
    pub vx: i64,
    pub vy: i64,
    pub life: i64,
    pub max_life: i64,
    pub color: Color,
    pub size: i64,
    pub trail: Vec<(i64, i64)>,
}

/// A spark as a value: its trail is a sequence, oldest position first.
pub ghost struct SparkView {
    pub x: i64,
    pub y: i64,
    pub vx: i64,
    pub vy: i64,
    pub life: i64,
    pub max_life: i64,
    pub color: Color,
    pub size: i64,
    pub trail: Seq<(i64, i64)>,
}

impl View for CelebrationParticle {
    type V = SparkView;

    open spec fn view(&self) -> SparkView {
        SparkView {
            x: self.x,
            y: self.y,
            vx: self.vx,
            vy: self.vy,
            life: self.life,
            max_life: self.max_life,
            color: self.color,
            size: self.size,
            trail: self.trail@,
        }
    }
}

/// A spark set off at `(x, y)`: its life is 2 to 3.5 seconds and its size
/// 1 to 1.5, each by its draw.
pub open spec fn lit(x: i64, y: i64, angle: i64, speed: i64, color: Color, life: i64, size: i64) -> SparkView {
    SparkView {
        x,
        y,
        vx: times(cosine(angle), speed),
        vy: times(sine(angle), speed),
        life: plus(2_000_000, times(life, 1_500_000)),
        max_life: plus(2_000_000, times(life, 1_500_000)),
        color,
        size: plus(ONE, times(size, HALF)),
        trail: Seq::empty(),
    }
}

/// A spark `dt` microseconds later: it falls under gravity, the air
/// slows it, and its position joins the trail.
pub open spec fn fallen(p: SparkView, dt: u64) -> SparkView {
    let vx = times(p.vx, 980_000);
    let vy = times(minus(p.vy, times(15_000_000, seconds(dt))), 990_000);
    SparkView {
        x: plus(p.x, times(vx, seconds(dt))),
        y: plus(p.y, times(vy, seconds(dt))),
        vx,
        vy,
        life: minus(p.life, seconds(dt)),
        max_life: p.max_life,
        color: p.color,
        size: p.size,
        trail: extended(p.trail, (p.x, p.y), SPARK_TRAIL_LENGTH as nat),
    }
}

/// The colors that the streaks take in turn.
pub open spec fn palette(index: int) -> Color {
    if index == 0 {
        Color::Rgb(255, 215, 0)
    } else if index == 1 {
        Color::Rgb(34, 197, 94)
    } else if index == 2 {
        Color::Rgb(74, 144, 217)
    } else if index == 3 {
        Color::Rgb(139, 92, 246)
    } else if index == 4 {
        Color::Rgb(244, 63, 94)
    } else if index == 5 {
        Color::Rgb(251, 146, 60)
    } else {
        Color::Rgb(255, 255, 255)
    }
}

/// The streak with the number `index`: it leaves near the direction that
/// is `index` eightieths of a turn, at most 0.15 radians off, with a
/// speed from 15 to 40.
pub open spec fn streak(index: int, cx: i64, cy: i64, draws: Draws) -> SparkView {
    let base = times(((index * ONE) / (STREAK_COUNT as int)) as i64, TAU);
    lit(
        cx,
        cy,
        plus(base, times(minus(draws.place, HALF), 300_000)),
        plus(15_000_000, times(draws.speed, 25_000_000)),
        palette(index % 7),
        draws.life,
        draws.size,
    )
}

/// A white sparkle: any direction, a speed from 20 to 35.
pub open spec fn sparkle(cx: i64, cy: i64, draws: Draws) -> SparkView {
    lit(
        cx,
        cy,
        times(draws.place, TAU),
        plus(20_000_000, times(draws.speed, 15_000_000)),
        Color::Rgb(255, 255, 255),
        draws.life,
        draws.size,
    )
}

/// `p` can be the spark with the number `index` of a burst at `(cx, cy)`.
pub open spec fn may_be_spark(index: int, cx: i64, cy: i64, p: SparkView) -> bool {
    exists|draws: Draws| #[trigger]
        draws.in_range() && p == if index < STREAK_COUNT {
            streak(index, cx, cy, draws)
        } else {
            sparkle(cx, cy, draws)
        }
}

/// The sparks of a list as values, in order.
pub open spec fn spark_views(sparks: Seq<CelebrationParticle>) -> Seq<SparkView> {
    Seq::new(sparks.len(), |i: int| sparks[i]@)
}

/// `after` is `before` with one burst at `(cx, cy)` added behind it.
pub open spec fn is_burst(before: Seq<SparkView>, after: Seq<SparkView>, cx: i64, cy: i64) -> bool {
    &&& after.len() == before.len() + STREAK_COUNT + SPARKLE_COUNT
    &&& after.take(before.len() as int) == before
    &&& forall|i: int|
        0 <= i < STREAK_COUNT + SPARKLE_COUNT ==> may_be_spark(
            i,
            cx,
            cy,
            #[trigger] after[before.len() + i],
        )
}

/// The sparks that still glow after `dt` microseconds, each `dt` later,
/// in their old order.
pub open spec fn glowing(sparks: Seq<SparkView>, dt: u64) -> Seq<SparkView>
    decreases sparks.len(),
{
    if sparks.len() == 0 {
        Seq::empty()
    } else {
        let rest = glowing(sparks.drop_last(), dt);
        let last = fallen(sparks.last(), dt);
        if last.life > 0 {
            rest.push(last)
        } else {
            rest
        }
    }
}

impl CelebrationParticle {
    /// The spark for the given draws of its life and its size.
    pub fn with_draws(x: i64, y: i64, angle: i64, speed: i64, color: Color, life: i64, size: i64) -> (p:
        Self)
        ensures
            p@ == lit(x, y, angle, speed, color, life, size),
    {
        let life = fx_add(2_000_000, fx_mul(life, 1_500_000));
        Self {
            x,
            y,
            vx: fx_mul(fx_cos(angle), speed),
            vy: fx_mul(fx_sin(angle), speed),
            life,
            max_life: life,
            color,
            size: fx_add(ONE, fx_mul(size, HALF)),
            trail: Vec::with_capacity(SPARK_TRAIL_LENGTH),
        }
    }

    /// A spark with a random life and size.
    pub fn new(x: i64, y: i64, angle: i64, speed: i64, color: Color) -> (p: Self)
        ensures
            exists|life: i64, size: i64|
                0 <= life <= ONE && 0 <= size <= ONE && p@ == #[trigger] lit(
                    x,
                    y,
                    angle,
                    speed,
                    color,
                    life,
                    size,
                ),
    {
        let life = rand_unit();
        let size = rand_unit();
        Self::with_draws(x, y, angle, speed, color, life, size)
    }

    /// Moves the spark on by `dt` microseconds.
    pub fn update(&mut self, dt: u64)
        ensures
            final(self)@ == fallen(old(self)@, dt),
    {
        if self.trail.len() >= SPARK_TRAIL_LENGTH && self.trail.len() > 0 {
            self.trail.remove(0);
        }
        self.trail.push((self.x, self.y));
        assert(self.trail@ =~= extended(old(self).trail@, (self.x, self.y), SPARK_TRAIL_LENGTH as nat));

        let step = fx_seconds(dt);
        self.vy = fx_sub(self.vy, fx_mul(15_000_000, step));
        self.vx = fx_mul(self.vx, 980_000);
        self.vy = fx_mul(self.vy, 990_000);
        self.x = fx_add(self.x, fx_mul(self.vx, step));
        self.y = fx_add(self.y, fx_mul(self.vy, step));
        self.life = fx_sub(self.life, step);
    }

    /// How opaque the spark is drawn: the share of its life it has left,
    /// eased so that it fades late.
    pub fn opacity(&self) -> (share: i64)
        ensures
            share == cubic_out(life_share(self.life, self.max_life)),
    {
        let left = if self.max_life == 0 {
            if self.life > 0 {
                ONE
            } else {
                0
            }
        } else {
            fx_unit(fx_div(self.life, self.max_life))
        };
        ease_out_cubic(left)
    }

    /// A spark glows while it has life left.
    pub fn is_alive(&self) -> (alive: bool)
        ensures
            alive == (self.life > 0),
    {
        self.life > 0
    }
}

/// The celebration: one burst of sparks and the time it has run.
#[derive(Debug)]
pub struct CelebrationAnimation {
    pub particles: Vec<CelebrationParticle>,
    /// Seconds since the celebration began.
    pub progress: i64,
    /// Seconds the celebration lasts.
    pub duration: i64,
    pub center_x: i64,
    pub center_y: i64,
    pub burst_complete: bool,
}

impl CelebrationAnimation {
    /// The celebration is over when it has run for longer than it lasts,
    /// or when the burst has been set off and every spark has gone out.
    pub open spec fn finished(&self) -> bool {
        self.progress > self.duration || (self.burst_complete && self.particles@.len() == 0)
    }

    /// `self` is `before` one tick of `dt` microseconds later: the time
    /// has run on, the burst has been set off if it had not been, and
    /// the sparks have fallen or gone out.
    pub open spec fn follows(self, before: CelebrationAnimation, dt: u64) -> bool {
        &&& self.progress == plus(before.progress, seconds(dt))
        &&& self.burst_complete
        &&& before.burst_complete ==> spark_views(self.particles@) == glowing(
            spark_views(before.particles@),
            dt,
        )
        &&& !before.burst_complete ==> exists|lit_up: Seq<SparkView>| #[trigger]
            is_burst(spark_views(before.particles@), lit_up, before.center_x, before.center_y)
                && spark_views(self.particles@) == glowing(lit_up, dt)
        &&& self.duration == before.duration
        &&& self.center_x == before.center_x
        &&& self.center_y == before.center_y
    }

    /// A celebration that has not begun: no sparks, four seconds to run.
    pub fn new() -> (c: Self)
        ensures
            c.particles@.len() == 0,
            c.progress == 0,
            c.duration == CELEBRATION_SECONDS,
            c.center_x == 0,
            c.center_y == 0,
            !c.burst_complete,
    {
        Self {
            particles: Vec::with_capacity(100),
            progress: 0,
            duration: CELEBRATION_SECONDS,
            center_x: 0,
            center_y: 0,
            burst_complete: false,
        }
    }

    /// Moves the point that the burst starts from.
    pub fn set_center(&mut self, x: i64, y: i64)
        ensures
            final(self).center_x == x,
            final(self).center_y == y,
            final(self).particles == old(self).particles,
            final(self).progress == old(self).progress,
            final(self).duration == old(self).duration,
            final(self).burst_complete == old(self).burst_complete,
    {
        self.center_x = x;
        self.center_y = y;
    }

    /// The color of the streak with the number `index`.
    fn streak_color(index: usize) -> (color: Color)
        ensures
            color == palette(index as int % 7),
    {
        let turn = index % 7;
        if turn == 0 {
            Color::Rgb(255, 215, 0)
        } else if turn == 1 {
            Color::Rgb(34, 197, 94)
        } else if turn == 2 {
            Color::Rgb(74, 144, 217)
        } else if turn == 3 {
            Color::Rgb(139, 92, 246)
        } else if turn == 4 {
            Color::Rgb(244, 63, 94)
        } else if turn == 5 {
            Color::Rgb(251, 146, 60)
        } else {
            Color::Rgb(255, 255, 255)
        }
    }

    /// The spark with the number `index` of a burst at `(cx, cy)`, for
    /// the given draws.
    pub fn spark_with(index: usize, cx: i64, cy: i64, draws: Draws) -> (p: CelebrationParticle)
        requires
            index < STREAK_COUNT + SPARKLE_COUNT,
        ensures
            p@ == if index < STREAK_COUNT {
                streak(index as int, cx, cy, draws)
            } else {
                sparkle(cx, cy, draws)
            },
    {
        if index < STREAK_COUNT {
            let base = fx_mul((index as i64 * 1_000_000) / 80, TAU);
            let angle = fx_add(base, fx_mul(fx_sub(draws.place, HALF), 300_000));
            let speed = fx_add(15_000_000, fx_mul(draws.speed, 25_000_000));
            CelebrationParticle::with_draws(
                cx,
                cy,
                angle,
                speed,
                Self::streak_color(index),
                draws.life,
                draws.size,
            )
        } else {
            let angle = fx_mul(draws.place, TAU);
            let speed = fx_add(20_000_000, fx_mul(draws.speed, 15_000_000));
            CelebrationParticle::with_draws(
                cx,
                cy,
                angle,
                speed,
                Color::Rgb(255, 255, 255),
                draws.life,
                draws.size,
            )
        }
    }

    /// Sets the burst off: eighty streaks and twenty sparkles. A burst
    /// that has been set off is not set off again.
    pub fn spawn_burst(&mut self)
        ensures
            old(self).burst_complete ==> *final(self) == *old(self),
            !old(self).burst_complete ==> is_burst(
                spark_views(old(self).particles@),
                spark_views(final(self).particles@),
                old(self).center_x,
                old(self).center_y,
            ),
            final(self).burst_complete,
            final(self).progress == old(self).progress,
            final(self).duration == old(self).duration,
            final(self).center_x == old(self).center_x,
            final(self).center_y == old(self).center_y,
    {
        if self.burst_complete {
            return;
        }
        let ghost before = spark_views(self.particles@);
        let mut index: usize = 0;
        while index < STREAK_COUNT + SPARKLE_COUNT
            invariant
                index <= STREAK_COUNT + SPARKLE_COUNT,
                before == spark_views(old(self).particles@),
                self.particles@.len() == before.len() + index,
                spark_views(self.particles@).take(before.len() as int) == before,
                forall|i: int|
                    0 <= i < index ==> may_be_spark(
                        i,
                        self.center_x,
                        self.center_y,
                        #[trigger] spark_views(self.particles@)[before.len() + i],
                    ),
                self.progress == old(self).progress,
                self.duration == old(self).duration,
                self.center_x == old(self).center_x,
                self.center_y == old(self).center_y,
            decreases STREAK_COUNT + SPARKLE_COUNT - index,
        {
            let draws = Draws {
                place: rand_unit(),
                speed: rand_unit(),
                life: rand_unit(),
                size: rand_unit(),
            };
            assert(draws.in_range());
            let ghost earlier = spark_views(self.particles@);
            let p = Self::spark_with(index, self.center_x, self.center_y, draws);
            self.particles.push(p);
            proof {
                let now = spark_views(self.particles@);
                assert(now =~= earlier.push(p@));
                assert(now.take(before.len() as int) =~= earlier.take(before.len() as int));
                assert forall|i: int| 0 <= i < index + 1 implies may_be_spark(
                    i,
                    self.center_x,
                    self.center_y,
                    #[trigger] now[before.len() + i],
                ) by {
                    if i < index {
                        assert(now[before.len() + i] == earlier[before.len() + i]);
                    }
                }
            }
            index += 1;
        }
        self.burst_complete = true;
    }

    /// Moves every spark on by `dt` microseconds and drops those that
    /// have gone out.
    fn advance_sparks(&mut self, dt: u64)
        ensures
            spark_views(final(self).particles@) == glowing(spark_views(old(self).particles@), dt),
            final(self).progress == old(self).progress,
            final(self).duration == old(self).duration,
            final(self).center_x == old(self).center_x,
            final(self).center_y == old(self).center_y,
            final(self).burst_complete == old(self).burst_complete,
    {
        let mut kept: Vec<CelebrationParticle> = Vec::new();
        let mut i: usize = 0;
        assert(spark_views(old(self).particles@).take(0) =~= Seq::<SparkView>::empty());
        assert(spark_views(kept@) =~= Seq::<SparkView>::empty());
        while i < self.particles.len()
            invariant
                i <= self.particles@.len(),
                self.particles@.len() == old(self).particles@.len(),
                forall|j: int|
                    i <= j < self.particles@.len() ==> self.particles@[j] == old(self).particles@[j],
                spark_views(kept@) == glowing(spark_views(old(self).particles@).take(i as int), dt),
                self.progress == old(self).progress,
                self.duration == old(self).duration,
                self.center_x == old(self).center_x,
                self.center_y == old(self).center_y,
                self.burst_complete == old(self).burst_complete,
            decreases self.particles@.len() - i,
        {
            let mut p = CelebrationParticle {
                x: 0,
                y: 0,
                vx: 0,
                vy: 0,
                life: 0,
                max_life: 0,
                color: Color::Reset,
                size: 0,
                trail: Vec::new(),
            };
            self.particles.set_and_swap(i, &mut p);
            p.update(dt);
            proof {
                let all = spark_views(old(self).particles@);
                assert(all.take(i + 1).drop_last() =~= all.take(i as int));
                assert(all.take(i + 1).last() == old(self).particles@[i as int]@);
            }
            if p.is_alive() {
                let ghost before = kept@;
                kept.push(p);
                assert(spark_views(kept@) =~= spark_views(before).push(p@));
            }
            i += 1;
        }
        assert(spark_views(old(self).particles@).take(i as int) =~= spark_views(
            old(self).particles@,
        ));
        self.particles = kept;
    }

    /// Lets `dt` microseconds pass. The first tick sets the burst off if
    /// nothing has done so before.
    pub fn tick(&mut self, dt: u64)
        ensures
            final(self).follows(*old(self), dt),
    {
        self.progress = fx_add(self.progress, fx_seconds(dt));
        if !self.burst_complete {
            self.spawn_burst();
        }
        let ghost lit_up = spark_views(self.particles@);
        self.advance_sparks(dt);
        proof {
            if !old(self).burst_complete {
                assert(is_burst(
                    spark_views(old(self).particles@),
                    lit_up,
                    old(self).center_x,
                    old(self).center_y,
                ));
            }
        }
    }

    /// Whether the celebration is over.
    pub fn is_complete(&self) -> (done: bool)
        ensures
            done == self.finished(),
    {
        self.progress > self.duration || (self.burst_complete && self.particles.len() == 0)
    }
}

impl Default for CelebrationAnimation {
    fn default() -> (c: Self)
        ensures
            c.particles@.len() == 0,
            c.progress == 0,
            c.duration == CELEBRATION_SECONDS,
            c.center_x == 0,
            c.center_y == 0,
            !c.burst_complete,
    {
        Self::new()
    }
}

} // verus!
