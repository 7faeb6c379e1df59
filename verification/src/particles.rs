//! A bounded particle field with trails, driven by emitters.

use vstd::prelude::*;
use crate::fixed::{
    cosine, fx_add, fx_cos, fx_div, fx_length, fx_max, fx_mul, fx_seconds, fx_sin, fx_sub,
    fx_unit, greater, length, minus, over, plus, seconds, sine, times, unit, HALF, ONE, PI, TAU,
};
use crate::random::{between, rand_unit, spread};
use crate::techniques::PhaseName;

verus! {

/// The most positions a trail keeps.
pub const MAX_TRAIL_LENGTH: usize = 8;

/// How a particle moves.
#[derive(Debug, Clone, Copy, PartialEq, Eq, Structural)]
pub enum ParticleType {
    /// Floats and slows down a little.
    Standard,
    /// Flows toward the center.
    Inward,
    /// Disperses from the center.
    Outward,
    /// Circles the center.
    Orbital,
    /// Background drift.
    Ambient,
    /// Falls under gravity.
    Celebration,
}

/// A particle with a trail of the positions it came through.
#[derive(Debug)]
pub struct Particle {
    pub x: i64,
    pub y: i64,
    pub vx: i64,
    pub vy: i64,
    pub life: i64,
    pub max_life: i64,
    pub size: i64,
    pub trail: Vec<(i64, i64)>,
    pub particle_type: ParticleType,
}

/// A particle as a value: its trail is a sequence, oldest position first.
pub ghost struct ParticleView {
    pub x: i64,
    pub y: i64,
    pub vx: i64,
    pub vy: i64,
    pub life: i64,
    pub max_life: i64,
    pub size: i64,
    pub trail: Seq<(i64, i64)>,
    pub particle_type: ParticleType,
}

impl View for Particle {
    type V = ParticleView;

    open spec fn view(&self) -> ParticleView {
        ParticleView {
            x: self.x,
            y: self.y,
            vx: self.vx,
            vy: self.vy,
            life: self.life,
            max_life: self.max_life,
            size: self.size,
            trail: self.trail@,
            particle_type: self.particle_type,
        }
    }
}

/// A particle set off at `(x, y)` in the direction `angle` with the given
/// speed, its whole life ahead of it and no trail yet.
pub open spec fn launched(
    x: i64,
    y: i64,
    angle: i64,
    speed: i64,
    life: i64,
    size: i64,
    particle_type: ParticleType,
) -> ParticleView {
    ParticleView {
        x,
        y,
        vx: times(cosine(angle), speed),
        vy: times(sine(angle), speed),
        life,
        max_life: life,
        size,
        trail: Seq::empty(),
        particle_type,
    }
}

/// A trail with one more position, the oldest dropped where the trail
/// already holds `limit` of them.
pub open spec fn extended(trail: Seq<(i64, i64)>, point: (i64, i64), limit: nat) -> Seq<(i64, i64)> {
    if trail.len() >= limit && trail.len() > 0 {
        trail.drop_first().push(point)
    } else {
        trail.push(point)
    }
}

/// The velocity of a particle after `dt` seconds under the rule of its
/// kind, with the center of the field at `(cx, cy)`.
pub open spec fn steered(p: ParticleView, dt: i64, cx: i64, cy: i64) -> (i64, i64) {
    match p.particle_type {
        ParticleType::Inward => {
            let dx = minus(cx, p.x);
            let dy = minus(cy, p.y);
            let dist = greater(length(dx, dy), ONE);
            let accel = over(15_000_000, dist);
            (
                plus(p.vx, times(times(over(dx, dist), accel), dt)),
                plus(p.vy, times(times(over(dy, dist), accel), dt)),
            )
        },
        ParticleType::Outward => (times(p.vx, 980_000), times(p.vy, 980_000)),
        ParticleType::Orbital => {
            let dx = minus(p.x, cx);
            let dy = minus(p.y, cy);
            let dist = greater(length(dx, dy), ONE);
            (times(over(minus(0, dy), dist), 2_000_000), times(over(dx, dist), 2_000_000))
        },
        ParticleType::Celebration => (times(p.vx, 990_000), minus(p.vy, times(5_000_000, dt))),
        ParticleType::Ambient | ParticleType::Standard => (
            times(p.vx, 995_000),
            times(p.vy, 995_000),
        ),
    }
}

/// A particle `dt` microseconds later: its position joins the trail, its
/// velocity follows the rule of its kind, it moves by that velocity, and
/// its life is shorter by `dt`.
pub open spec fn stepped(p: ParticleView, dt: u64, cx: i64, cy: i64) -> ParticleView {
    let v = steered(p, seconds(dt), cx, cy);
    ParticleView {
        x: plus(p.x, times(v.0, seconds(dt))),
        y: plus(p.y, times(v.1, seconds(dt))),
        vx: v.0,
        vy: v.1,
        life: minus(p.life, seconds(dt)),
        max_life: p.max_life,
        size: p.size,
        trail: extended(p.trail, (p.x, p.y), MAX_TRAIL_LENGTH as nat),
        particle_type: p.particle_type,
    }
}

/// The share of its life that a particle has left, between zero and one.
/// A particle that never had a life to live is opaque while it lives.
pub open spec fn life_share(life: i64, max_life: i64) -> i64 {
    if max_life == 0 {
        if life > 0 {
            ONE
        } else {
            0
        }
    } else {
        unit(over(life, max_life))
    }
}

/// Each step takes exactly the time that passed from the life of a
/// particle, as long as the life stays within the range of the numbers.
pub proof fn lemma_life_runs_down(p: ParticleView, dt: u64, cx: i64, cy: i64)
    requires
        dt <= i64::MAX,
        p.life - dt >= i64::MIN,
    ensures
        stepped(p, dt, cx, cy).life == p.life - dt,
        dt > 0 ==> stepped(p, dt, cx, cy).life < p.life,
{
}

/// A trail that is within the limit stays within it.
pub proof fn lemma_trail_bounded(p: ParticleView, dt: u64, cx: i64, cy: i64)
    requires
        p.trail.len() <= MAX_TRAIL_LENGTH,
    ensures
        stepped(p, dt, cx, cy).trail.len() <= MAX_TRAIL_LENGTH,
        stepped(p, dt, cx, cy).trail.last() == (p.x, p.y),
{
}

impl Particle {
    /// A particle of size one.
    pub fn new(x: i64, y: i64, angle: i64, speed: i64, life: i64, particle_type: ParticleType) -> (p: Self)
        ensures
            p@ == launched(x, y, angle, speed, life, ONE, particle_type),
    {
        Self::new_with_size(x, y, angle, speed, life, ONE, particle_type)
    }

    /// A particle set off at `(x, y)` in the direction `angle`.
    pub fn new_with_size(
        x: i64,
        y: i64,
        angle: i64,
        speed: i64,
        life: i64,
        size: i64,
        particle_type: ParticleType,
    ) -> (p: Self)
        ensures
            p@ == launched(x, y, angle, speed, life, size, particle_type),
    {
        Self {
            x,
            y,
            vx: fx_mul(fx_cos(angle), speed),
            vy: fx_mul(fx_sin(angle), speed),
            life,
            max_life: life,
            size,
            trail: Vec::with_capacity(MAX_TRAIL_LENGTH),
            particle_type,
        }
    }

    /// Moves the particle on by `dt` microseconds.
    pub fn update(&mut self, dt: u64, center_x: i64, center_y: i64)
        ensures
            final(self)@ == stepped(old(self)@, dt, center_x, center_y),
    {
        if self.trail.len() >= MAX_TRAIL_LENGTH && self.trail.len() > 0 {
            self.trail.remove(0);
        }
        self.trail.push((self.x, self.y));
        assert(self.trail@ =~= extended(old(self).trail@, (self.x, self.y), MAX_TRAIL_LENGTH as nat));

        let step = fx_seconds(dt);
        match self.particle_type {
            ParticleType::Inward => {
                let dx = fx_sub(center_x, self.x);
                let dy = fx_sub(center_y, self.y);
                let dist = fx_max(fx_length(dx, dy), ONE);
                let accel = fx_div(15_000_000, dist);
                self.vx = fx_add(self.vx, fx_mul(fx_mul(fx_div(dx, dist), accel), step));
                self.vy = fx_add(self.vy, fx_mul(fx_mul(fx_div(dy, dist), accel), step));
            },
            ParticleType::Outward => {
                self.vx = fx_mul(self.vx, 980_000);
                self.vy = fx_mul(self.vy, 980_000);
            },
            ParticleType::Orbital => {
                let dx = fx_sub(self.x, center_x);
                let dy = fx_sub(self.y, center_y);
                let dist = fx_max(fx_length(dx, dy), ONE);
                self.vx = fx_mul(fx_div(fx_sub(0, dy), dist), 2_000_000);
                self.vy = fx_mul(fx_div(dx, dist), 2_000_000);
            },
            ParticleType::Celebration => {
                self.vy = fx_sub(self.vy, fx_mul(5_000_000, step));
                self.vx = fx_mul(self.vx, 990_000);
            },
            ParticleType::Ambient | ParticleType::Standard => {
                self.vx = fx_mul(self.vx, 995_000);
                self.vy = fx_mul(self.vy, 995_000);
            },
        }
        self.x = fx_add(self.x, fx_mul(self.vx, step));
        self.y = fx_add(self.y, fx_mul(self.vy, step));
        self.life = fx_sub(self.life, step);
    }

    /// How opaque the particle is drawn: the share of its life it has left.
    pub fn opacity(&self) -> (share: i64)
        ensures
            share == life_share(self.life, self.max_life),
            0 <= share <= ONE,
    {
        if self.max_life == 0 {
            if self.life > 0 {
                ONE
            } else {
                0
            }
        } else {
            fx_unit(fx_div(self.life, self.max_life))
        }
    }

    /// A particle lives while it has life left.
    pub fn is_alive(&self) -> (alive: bool)
        ensures
            alive == (self.life > 0),
    {
        self.life > 0
    }
}

impl Clone for Particle {
    fn clone(&self) -> (out: Self)
        ensures
            out@ == self@,
    {
        let mut trail: Vec<(i64, i64)> = Vec::new();
        let mut i: usize = 0;
        while i < self.trail.len()
            invariant
                i <= self.trail@.len(),
                trail@ == self.trail@.take(i as int),
            decreases self.trail@.len() - i,
        {
            trail.push(self.trail[i]);
            assert(trail@ =~= self.trail@.take(i + 1));
            i += 1;
        }
        assert(self.trail@.take(i as int) =~= self.trail@);
        Particle {
            x: self.x,
            y: self.y,
            vx: self.vx,
            vy: self.vy,
            life: self.life,
            max_life: self.max_life,
            size: self.size,
            trail,
            particle_type: self.particle_type,
        }
    }
}

/// Where an emitter sets its particles off.
#[derive(Debug, Clone, Copy, PartialEq, Eq, Structural)]
pub enum EmitterShape {
    /// A single point; the particles leave in all directions.
    Point { x: i64, y: i64 },
    /// A circle; the particles start on it.
    Ring { cx: i64, cy: i64, radius: i64 },
    /// A point; the particles leave within `spread` around `direction`.
    Cone { x: i64, y: i64, direction: i64, spread: i64 },
}

/// The rate-time that releases one particle: one particle, in millionths
/// of a particle per second times microseconds.
pub const EMIT_UNIT: u64 = 1_000_000_000_000;

/// A rule that spawns particles: where, how many a second, and the ranges
/// of their speed, life and size.
///
/// `rate` is in millionths of a particle per second. `accumulator` holds
/// the rate-time that has not yet released a particle.
#[derive(Debug, Clone, Copy, PartialEq, Eq, Structural)]
pub struct Emitter {
    pub shape: EmitterShape,
    pub rate: u64,
    pub speed_min: i64,
    pub speed_max: i64,
    pub life_min: i64,
    pub life_max: i64,
    pub size_min: i64,
    pub size_max: i64,
    pub particle_type: ParticleType,
    pub accumulator: u64,
}

/// The four fractions that decide one spawned particle: where on the
/// shape it starts, and how far into each range its speed, life and size
/// lie.
#[derive(Debug, Clone, Copy)]
pub struct Draws {
    pub place: i64,
    pub speed: i64,
    pub life: i64,
    pub size: i64,
}

impl Draws {
    /// Every fraction lies between zero and one.
    pub open spec fn in_range(self) -> bool {
        &&& 0 <= self.place <= ONE
        &&& 0 <= self.speed <= ONE
        &&& 0 <= self.life <= ONE
        &&& 0 <= self.size <= ONE
    }
}

impl Emitter {
    /// What the accumulator holds is less than what releases a particle.
    pub open spec fn well_formed(self) -> bool {
        self.accumulator < EMIT_UNIT
    }

    /// The rate-time gathered once `dt` microseconds have passed.
    pub open spec fn gathered(self, dt: u64) -> nat {
        (self.accumulator + dt * self.rate) as nat
    }

    /// How many particles `dt` microseconds release.
    pub open spec fn due(self, dt: u64) -> nat {
        self.gathered(dt) / (EMIT_UNIT as nat)
    }

    /// The emitter after `dt` microseconds: what did not release a
    /// particle is carried over.
    pub open spec fn advanced(self, dt: u64) -> Emitter {
        Emitter { accumulator: (self.gathered(dt) % (EMIT_UNIT as nat)) as u64, ..self }
    }

    /// Where a particle starts and which way it heads, for a fraction
    /// `place`: `(x, y, angle)`.
    pub open spec fn origin(self, place: i64) -> (i64, i64, i64) {
        match self.shape {
            EmitterShape::Point { x, y } => (x, y, times(place, TAU)),
            EmitterShape::Ring { cx, cy, radius } => {
                let angle = times(place, TAU);
                (
                    plus(cx, times(cosine(angle), radius)),
                    plus(cy, times(sine(angle), radius)),
                    if self.particle_type == ParticleType::Inward {
                        plus(angle, PI)
                    } else {
                        angle
                    },
                )
            },
            EmitterShape::Cone { x, y, direction, spread } => (
                x,
                y,
                plus(direction, times(minus(place, HALF), spread)),
            ),
        }
    }

    /// The particle that the emitter spawns for the given draws.
    pub open spec fn spawned(self, draws: Draws) -> ParticleView {
        let start = self.origin(draws.place);
        launched(
            start.0,
            start.1,
            start.2,
            between(self.speed_min, self.speed_max, draws.speed),
            between(self.life_min, self.life_max, draws.life),
            between(self.size_min, self.size_max, draws.size),
            self.particle_type,
        )
    }

    /// `p` is a particle that the emitter can spawn.
    pub open spec fn may_spawn(self, p: ParticleView) -> bool {
        exists|draws: Draws| #[trigger] draws.in_range() && p == self.spawned(draws)
    }

    /// An emitter with the usual ranges: speed 2 to 5, life 1 to 3
    /// seconds, size 0.5 to 1.5.
    pub fn new(shape: EmitterShape, rate: u64, particle_type: ParticleType) -> (e: Self)
        ensures
            e.well_formed(),
            e == (Emitter {
                shape,
                rate,
                speed_min: 2_000_000,
                speed_max: 5_000_000,
                life_min: 1_000_000,
                life_max: 3_000_000,
                size_min: 500_000,
                size_max: 1_500_000,
                particle_type,
                accumulator: 0,
            }),
    {
        Self {
            shape,
            rate,
            speed_min: 2_000_000,
            speed_max: 5_000_000,
            life_min: 1_000_000,
            life_max: 3_000_000,
            size_min: 500_000,
            size_max: 1_500_000,
            particle_type,
            accumulator: 0,
        }
    }

    /// The same emitter with another range of speed.
    pub fn with_speed(self, min: i64, max: i64) -> (e: Self)
        ensures
            e == (Emitter { speed_min: min, speed_max: max, ..self }),
    {
        let mut e = self;
        e.speed_min = min;
        e.speed_max = max;
        e
    }

    /// The same emitter with another range of life.
    pub fn with_life(self, min: i64, max: i64) -> (e: Self)
        ensures
            e == (Emitter { life_min: min, life_max: max, ..self }),
    {
        let mut e = self;
        e.life_min = min;
        e.life_max = max;
        e
    }

    /// The same emitter with another range of size.
    pub fn with_size(self, min: i64, max: i64) -> (e: Self)
        ensures
            e == (Emitter { size_min: min, size_max: max, ..self }),
    {
        let mut e = self;
        e.size_min = min;
        e.size_max = max;
        e
    }

    /// The particle for the given draws.
    pub fn spawn_with(&self, draws: Draws) -> (p: Particle)
        ensures
            p@ == self.spawned(draws),
    {
        let (x, y, angle) = match self.shape {
            EmitterShape::Point { x, y } => (x, y, fx_mul(draws.place, TAU)),
            EmitterShape::Ring { cx, cy, radius } => {
                let angle = fx_mul(draws.place, TAU);
                let x = fx_add(cx, fx_mul(fx_cos(angle), radius));
                let y = fx_add(cy, fx_mul(fx_sin(angle), radius));
                let dir = match self.particle_type {
                    ParticleType::Inward => fx_add(angle, PI),
                    _ => angle,
                };
                (x, y, dir)
            },
            EmitterShape::Cone { x, y, direction, spread } => {
                (x, y, fx_add(direction, fx_mul(fx_sub(draws.place, HALF), spread)))
            },
        };
        let speed = spread(self.speed_min, self.speed_max, draws.speed);
        let life = spread(self.life_min, self.life_max, draws.life);
        let size = spread(self.size_min, self.size_max, draws.size);
        Particle::new_with_size(x, y, angle, speed, life, size, self.particle_type)
    }

    /// Spawns one particle at a random place of the shape, with a random
    /// speed, life and size from the ranges.
    pub fn spawn_particle(&self) -> (spawn: Option<Particle>)
        ensures
            spawn is Some,
            self.may_spawn(spawn->Some_0@),
    {
        let place = rand_unit();
        let speed = rand_unit();
        let life = rand_unit();
        let size = rand_unit();
        let draws = Draws { place, speed, life, size };
        assert(draws.in_range());
        Some(self.spawn_with(draws))
    }

    /// Lets `dt` microseconds pass and spawns the particles that are due:
    /// one for each whole `EMIT_UNIT` of rate-time gathered. What is left
    /// over stays in the accumulator.
    pub fn emit(&mut self, dt: u64) -> (particles: Vec<Particle>)
        ensures
            particles@.len() == old(self).due(dt),
            *final(self) == old(self).advanced(dt),
            final(self).well_formed(),
            forall|i: int|
                0 <= i < particles@.len() ==> old(self).may_spawn(#[trigger] particles@[i]@),
    {
        proof {
            assert(dt * self.rate <= 0xffff_ffff_ffff_ffff * 0xffff_ffff_ffff_ffff)
                by (nonlinear_arith)
                requires
                    0 <= dt <= 0xffff_ffff_ffff_ffff,
                    0 <= self.rate <= 0xffff_ffff_ffff_ffff,
            ;
        }
        let gathered: u128 = self.accumulator as u128 + (dt as u128) * (self.rate as u128);
        let due: u128 = gathered / 1_000_000_000_000;
        self.accumulator = (gathered % 1_000_000_000_000) as u64;
        let mut particles: Vec<Particle> = Vec::new();
        let mut made: u128 = 0;
        while made < due
            invariant
                made <= due,
                particles@.len() == made,
                *self == old(self).advanced(dt),
                forall|i: int|
                    0 <= i < particles@.len() ==> old(self).may_spawn(#[trigger] particles@[i]@),
            decreases due - made,
        {
            if let Some(p) = self.spawn_particle() {
                assert(old(self).may_spawn(p@)) by {
                    let draws = choose|draws: Draws| #[trigger]
                        draws.in_range() && p@ == self.spawned(draws);
                    assert(old(self).spawned(draws) == self.spawned(draws));
                }
                particles.push(p);
            }
            made += 1;
        }
        particles
    }
}

/// The sum of a list of time steps.
pub open spec fn total_time(steps: Seq<u64>) -> nat
    decreases steps.len(),
{
    if steps.len() == 0 {
        0
    } else {
        total_time(steps.drop_last()) + steps.last() as nat
    }
}

/// The emitter after a list of time steps, one after the other.
pub open spec fn emitter_after(e: Emitter, steps: Seq<u64>) -> Emitter
    decreases steps.len(),
{
    if steps.len() == 0 {
        e
    } else {
        emitter_after(e, steps.drop_last()).advanced(steps.last())
    }
}

/// How many particles an emitter releases over a list of time steps.
pub open spec fn released(e: Emitter, steps: Seq<u64>) -> nat
    decreases steps.len(),
{
    if steps.len() == 0 {
        0
    } else {
        released(e, steps.drop_last()) + emitter_after(e, steps.drop_last()).due(steps.last())
    }
}

proof fn lemma_carry(unit: nat, whole: nat, more: nat)
    requires
        unit > 0,
    ensures
        (whole + more) / unit == whole / unit + (whole % unit + more) / unit,
        (whole + more) % unit == (whole % unit + more) % unit,
{
    let q = whole / unit;
    let r = whole % unit;
    assert(whole == unit * q + r) by (nonlinear_arith)
        requires
            q == whole / unit,
            r == whole % unit,
            unit > 0,
    ;
    vstd::arithmetic::div_mod::lemma_div_multiples_vanish_fancy(
        q as int,
        (r + more) as int % unit as int,
        unit as int,
    );
    let s = (r + more) / unit;
    let t = (r + more) % unit;
    assert(r + more == unit * s + t) by (nonlinear_arith)
        requires
            s == (r + more) / unit,
            t == (r + more) % unit,
            unit > 0,
    ;
    assert(whole + more == unit * (q + s) + t) by (nonlinear_arith)
        requires
            whole == unit * q + r,
            r + more == unit * s + t,
    ;
    vstd::arithmetic::div_mod::lemma_fundamental_div_mod_converse(
        (whole + more) as int,
        unit as int,
        (q + s) as int,
        t as int,
    );
}

/// What an emitter releases depends only on the time that passed in all,
/// not on how that time was cut into steps: it is the whole part of what
/// it held at first plus its rate times the time, counted in `EMIT_UNIT`,
/// and the rest is what it holds afterwards.
pub proof fn lemma_emission_is_exact(e: Emitter, steps: Seq<u64>)
    requires
        e.well_formed(),
    ensures
        released(e, steps) == (e.accumulator + e.rate * total_time(steps)) / (EMIT_UNIT as int),
        emitter_after(e, steps).accumulator == (e.accumulator + e.rate * total_time(steps)) % (
        EMIT_UNIT as int),
        emitter_after(e, steps) == (Emitter {
            accumulator: emitter_after(e, steps).accumulator,
            ..e
        }),
    decreases steps.len(),
{
    if steps.len() == 0 {
        assert(e.rate * 0 == 0);
    } else {
        let head = steps.drop_last();
        let dt = steps.last();
        lemma_emission_is_exact(e, head);
        let before = emitter_after(e, head);
        let whole = (e.accumulator + e.rate * total_time(head)) as nat;
        assert(e.rate * total_time(head) >= 0) by (nonlinear_arith);
        assert(dt * e.rate >= 0) by (nonlinear_arith);
        let more = (dt * e.rate) as nat;
        lemma_carry(EMIT_UNIT as nat, whole, more);
        assert(e.rate * total_time(steps) == e.rate * total_time(head) + dt * e.rate)
            by (nonlinear_arith)
            requires
                total_time(steps) == total_time(head) + dt,
        ;
        assert(before.gathered(dt) == whole % (EMIT_UNIT as nat) + more);
    }
}

/// Two ways of cutting the same time into steps release the same number
/// of particles and leave the emitter in the same state.
pub proof fn lemma_emission_ignores_split(e: Emitter, first: Seq<u64>, second: Seq<u64>)
    requires
        e.well_formed(),
        total_time(first) == total_time(second),
    ensures
        released(e, first) == released(e, second),
        emitter_after(e, first) == emitter_after(e, second),
{
    lemma_emission_is_exact(e, first);
    lemma_emission_is_exact(e, second);
}

/// A particle field that never grows past `max_particles`.
#[derive(Debug)]
pub struct ParticleSystem {
    pub particles: Vec<Particle>,
    pub max_particles: usize,
    pub emitters: Vec<Emitter>,
    pub center_x: i64,
    pub center_y: i64,
}

/// The particles of a list as values, in order.
pub open spec fn views(particles: Seq<Particle>) -> Seq<ParticleView> {
    Seq::new(particles.len(), |i: int| particles[i]@)
}

/// The particles that are still alive after a step of `dt` microseconds,
/// each moved on by that step, in their old order.
pub open spec fn survivors(particles: Seq<ParticleView>, dt: u64, cx: i64, cy: i64) -> Seq<
    ParticleView,
>
    decreases particles.len(),
{
    if particles.len() == 0 {
        Seq::empty()
    } else {
        let rest = survivors(particles.drop_last(), dt, cx, cy);
        let last = stepped(particles.last(), dt, cx, cy);
        if last.life > 0 {
            rest.push(last)
        } else {
            rest
        }
    }
}

/// No particle whose life has run out is among the survivors: each of
/// them has life left, and they are no more than there were particles.
pub proof fn lemma_survivors_are_alive(particles: Seq<ParticleView>, dt: u64, cx: i64, cy: i64)
    ensures
        survivors(particles, dt, cx, cy).len() <= particles.len(),
        forall|i: int|
            0 <= i < survivors(particles, dt, cx, cy).len() ==> (#[trigger] survivors(
                particles,
                dt,
                cx,
                cy,
            )[i]).life > 0,
    decreases particles.len(),
{
    if particles.len() > 0 {
        lemma_survivors_are_alive(particles.drop_last(), dt, cx, cy);
    }
}

/// How many particles a field of `count` particles and room for `max`
/// holds once the given emitters have had their turn, one after the
/// other. An emitter gets its turn only while there is room, and what it
/// spawns beyond the room is dropped.
pub open spec fn count_after(emitters: Seq<Emitter>, dt: u64, count: nat, max: nat) -> nat
    decreases emitters.len(),
{
    if emitters.len() == 0 {
        count
    } else {
        let before = count_after(emitters.drop_last(), dt, count, max);
        if before < max {
            if before + emitters.last().due(dt) <= max {
                before + emitters.last().due(dt)
            } else {
                max
            }
        } else {
            before
        }
    }
}

/// The place `place` in the field is one that the emitter at `index`
/// fills in its turn.
pub open spec fn in_turn(emitters: Seq<Emitter>, index: int, dt: u64, count: nat, max: nat, place: int) -> bool {
    count_after(emitters.take(index), dt, count, max) <= place < count_after(
        emitters.take(index + 1),
        dt,
        count,
        max,
    )
}

/// The emitter at `index` after its turn: advanced by `dt` where the
/// field still had room when its turn came, untouched where it had not.
pub open spec fn turn_taken(emitters: Seq<Emitter>, index: int, dt: u64, count: nat, max: nat) -> Emitter {
    if count_after(emitters.take(index), dt, count, max) < max {
        emitters[index].advanced(dt)
    } else {
        emitters[index]
    }
}

/// The emitter that a phase calls for, around `(cx, cy)`, at the
/// breathing scale `scale`: a wide ring flowing inward for inhaling, an
/// orbiting ring for holding, a point dispersing outward for exhaling and
/// a sparse ambient ring for resting.
pub open spec fn phase_emitter(phase: PhaseName, scale: i64, cx: i64, cy: i64) -> Emitter {
    match phase {
        PhaseName::Inhale => Emitter {
            shape: EmitterShape::Ring {
                cx,
                cy,
                radius: plus(25_000_000, times(scale, 10_000_000)),
            },
            rate: 30_000_000,
            speed_min: 8_000_000,
            speed_max: 15_000_000,
            life_min: 1_500_000,
            life_max: 2_500_000,
            size_min: 800_000,
            size_max: 1_200_000,
            particle_type: ParticleType::Inward,
            accumulator: 0,
        },
        PhaseName::Exhale => Emitter {
            shape: EmitterShape::Point { x: cx, y: cy },
            rate: 25_000_000,
            speed_min: 5_000_000,
            speed_max: 12_000_000,
            life_min: 2_000_000,
            life_max: 3_500_000,
            size_min: 600_000,
            size_max: 1_000_000,
            particle_type: ParticleType::Outward,
            accumulator: 0,
        },
        PhaseName::Hold => Emitter {
            shape: EmitterShape::Ring {
                cx,
                cy,
                radius: plus(12_000_000, times(scale, 5_000_000)),
            },
            rate: 15_000_000,
            speed_min: 1_000_000,
            speed_max: 2_000_000,
            life_min: 3_000_000,
            life_max: 5_000_000,
            size_min: 500_000,
            size_max: 800_000,
            particle_type: ParticleType::Orbital,
            accumulator: 0,
        },
        PhaseName::HoldAfterExhale => Emitter {
            shape: EmitterShape::Ring { cx, cy, radius: 15_000_000 },
            rate: 5_000_000,
            speed_min: 500_000,
            speed_max: 1_500_000,
            life_min: 2_000_000,
            life_max: 4_000_000,
            size_min: 300_000,
            size_max: 600_000,
            particle_type: ParticleType::Ambient,
            accumulator: 0,
        },
    }
}

/// A particle of a burst at `(x, y)`: it leaves in any direction with a
/// speed from 10 to 30, a life from 1.5 to 3.5 seconds and a size from
/// 0.8 to 1.6.
pub open spec fn burst_particle(x: i64, y: i64, particle_type: ParticleType, draws: Draws) -> ParticleView {
    launched(
        x,
        y,
        times(draws.place, TAU),
        plus(10_000_000, times(draws.speed, 20_000_000)),
        plus(1_500_000, times(draws.life, 2_000_000)),
        plus(800_000, times(draws.size, 800_000)),
        particle_type,
    )
}

/// `p` is a particle that a burst at `(x, y)` can hold.
pub open spec fn may_burst(x: i64, y: i64, particle_type: ParticleType, p: ParticleView) -> bool {
    exists|draws: Draws| #[trigger] draws.in_range() && p == burst_particle(x, y, particle_type, draws)
}

proof fn lemma_count_after_bounded(emitters: Seq<Emitter>, dt: u64, count: nat, max: nat)
    ensures
        count <= count_after(emitters, dt, count, max),
        count <= max ==> count_after(emitters, dt, count, max) <= max,
        count >= max ==> count_after(emitters, dt, count, max) == count,
    decreases emitters.len(),
{
    if emitters.len() > 0 {
        lemma_count_after_bounded(emitters.drop_last(), dt, count, max);
    }
}

proof fn lemma_count_after_grows(emitters: Seq<Emitter>, fewer: int, more: int, dt: u64, count: nat, max: nat)
    requires
        0 <= fewer <= more <= emitters.len(),
    ensures
        count_after(emitters.take(fewer), dt, count, max) <= count_after(
            emitters.take(more),
            dt,
            count,
            max,
        ),
    decreases more - fewer,
{
    if fewer < more {
        lemma_count_after_grows(emitters, fewer, more - 1, dt, count, max);
        assert(emitters.take(more).drop_last() =~= emitters.take(more - 1));
    }
}

impl ParticleSystem {
    /// The field holds no more particles than it has room for, and every
    /// emitter is well formed.
    pub open spec fn well_formed(&self) -> bool {
        &&& self.particles@.len() <= self.max_particles
        &&& forall|i: int| 0 <= i < self.emitters@.len() ==> (#[trigger] self.emitters@[i]).well_formed()
    }

    /// The particles are what an update by `dt` microseconds leaves of
    /// those of `before`: first the survivors, then what the emitters of
    /// `before` spawned, one emitter after the other, as far as there was
    /// room.
    pub open spec fn particles_follow(self, before: ParticleSystem, dt: u64) -> bool {
        let alive = survivors(views(before.particles@), dt, before.center_x, before.center_y);
        let max = before.max_particles as nat;
        &&& self.particles@.len() == count_after(before.emitters@, dt, alive.len(), max)
        &&& views(self.particles@).take(alive.len() as int) == alive
        &&& forall|k: int, i: int|
            0 <= k < before.emitters@.len() && #[trigger] in_turn(
                before.emitters@,
                k,
                dt,
                alive.len(),
                max,
                i,
            ) ==> 0 <= i < self.particles@.len() && before.emitters@[k].may_spawn(
                self.particles@[i]@,
            )
    }

    /// The emitters are those of `before` after an update by `dt`
    /// microseconds: each has taken its turn.
    pub open spec fn emitters_follow(self, before: ParticleSystem, dt: u64) -> bool {
        let alive = survivors(views(before.particles@), dt, before.center_x, before.center_y);
        let max = before.max_particles as nat;
        &&& self.emitters@.len() == before.emitters@.len()
        &&& forall|k: int|
            0 <= k < before.emitters@.len() ==> #[trigger] self.emitters@[k] == turn_taken(
                before.emitters@,
                k,
                dt,
                alive.len(),
                max,
            )
    }

    /// Tests whether the field is well formed.
    pub fn is_well_formed(&self) -> (ok: bool)
        ensures
            ok == self.well_formed(),
    {
        if self.particles.len() > self.max_particles {
            return false;
        }
        let mut i: usize = 0;
        while i < self.emitters.len()
            invariant
                i <= self.emitters@.len(),
                forall|j: int| 0 <= j < i ==> (#[trigger] self.emitters@[j]).well_formed(),
            decreases self.emitters@.len() - i,
        {
            if self.emitters[i].accumulator >= EMIT_UNIT {
                return false;
            }
            i += 1;
        }
        true
    }

    /// An empty field with room for `max_particles`, centered at the origin.
    pub fn new(max_particles: usize) -> (system: Self)
        ensures
            system.particles@.len() == 0,
            system.emitters@.len() == 0,
            system.max_particles == max_particles,
            system.center_x == 0,
            system.center_y == 0,
            system.well_formed(),
    {
        Self {
            particles: Vec::with_capacity(max_particles),
            max_particles,
            emitters: Vec::new(),
            center_x: 0,
            center_y: 0,
        }
    }

    /// Moves the center that inward, outward and orbital particles refer
    /// to. Nothing else changes until the next update.
    pub fn set_center(&mut self, x: i64, y: i64)
        ensures
            final(self).center_x == x,
            final(self).center_y == y,
            final(self).particles == old(self).particles,
            final(self).emitters == old(self).emitters,
            final(self).max_particles == old(self).max_particles,
    {
        self.center_x = x;
        self.center_y = y;
    }

    /// Adds an emitter behind those that are there.
    pub fn add_emitter(&mut self, emitter: Emitter)
        ensures
            final(self).emitters@ == old(self).emitters@.push(emitter),
            final(self).particles == old(self).particles,
            final(self).max_particles == old(self).max_particles,
            final(self).center_x == old(self).center_x,
            final(self).center_y == old(self).center_y,
    {
        self.emitters.push(emitter);
    }

    /// Removes every emitter. The particles stay.
    pub fn clear_emitters(&mut self)
        ensures
            final(self).emitters@.len() == 0,
            final(self).particles == old(self).particles,
            final(self).max_particles == old(self).max_particles,
            final(self).center_x == old(self).center_x,
            final(self).center_y == old(self).center_y,
    {
        self.emitters.clear();
    }

    /// Replaces all emitters by the one that `phase` calls for, sized by
    /// the breathing scale. The particles stay.
    pub fn configure_for_phase(&mut self, phase: PhaseName, scale: i64)
        ensures
            final(self).emitters@ == seq![
                phase_emitter(phase, scale, old(self).center_x, old(self).center_y),
            ],
            final(self).particles == old(self).particles,
            final(self).max_particles == old(self).max_particles,
            final(self).center_x == old(self).center_x,
            final(self).center_y == old(self).center_y,
            old(self).particles@.len() <= old(self).max_particles ==> final(self).well_formed(),
    {
        self.clear_emitters();
        match phase {
            PhaseName::Inhale => {
                let outer_radius = fx_add(25_000_000, fx_mul(scale, 10_000_000));
                let emitter = Emitter::new(
                    EmitterShape::Ring { cx: self.center_x, cy: self.center_y, radius: outer_radius },
                    30_000_000,
                    ParticleType::Inward,
                ).with_speed(8_000_000, 15_000_000).with_life(1_500_000, 2_500_000).with_size(
                    800_000,
                    1_200_000,
                );
                self.add_emitter(emitter);
            },
            PhaseName::Exhale => {
                let emitter = Emitter::new(
                    EmitterShape::Point { x: self.center_x, y: self.center_y },
                    25_000_000,
                    ParticleType::Outward,
                ).with_speed(5_000_000, 12_000_000).with_life(2_000_000, 3_500_000).with_size(
                    600_000,
                    1_000_000,
                );
                self.add_emitter(emitter);
            },
            PhaseName::Hold => {
                let orbit_radius = fx_add(12_000_000, fx_mul(scale, 5_000_000));
                let emitter = Emitter::new(
                    EmitterShape::Ring { cx: self.center_x, cy: self.center_y, radius: orbit_radius },
                    15_000_000,
                    ParticleType::Orbital,
                ).with_speed(1_000_000, 2_000_000).with_life(3_000_000, 5_000_000).with_size(
                    500_000,
                    800_000,
                );
                self.add_emitter(emitter);
            },
            PhaseName::HoldAfterExhale => {
                let emitter = Emitter::new(
                    EmitterShape::Ring { cx: self.center_x, cy: self.center_y, radius: 15_000_000 },
                    5_000_000,
                    ParticleType::Ambient,
                ).with_speed(500_000, 1_500_000).with_life(2_000_000, 4_000_000).with_size(
                    300_000,
                    600_000,
                );
                self.add_emitter(emitter);
            },
        }
        assert(self.emitters@ =~= seq![
            phase_emitter(phase, scale, old(self).center_x, old(self).center_y),
        ]);
    }

    /// Moves every particle on by `dt` microseconds and drops those whose
    /// life has run out. The trails and the order of the rest are kept.
    fn advance_particles(&mut self, dt: u64)
        ensures
            views(final(self).particles@) == survivors(
                views(old(self).particles@),
                dt,
                old(self).center_x,
                old(self).center_y,
            ),
            final(self).particles@.len() <= old(self).particles@.len(),
            final(self).emitters == old(self).emitters,
            final(self).max_particles == old(self).max_particles,
            final(self).center_x == old(self).center_x,
            final(self).center_y == old(self).center_y,
    {
        let mut kept: Vec<Particle> = Vec::new();
        let mut i: usize = 0;
        let cx = self.center_x;
        let cy = self.center_y;
        assert(views(old(self).particles@).take(0) =~= Seq::<ParticleView>::empty());
        assert(views(kept@) =~= Seq::<ParticleView>::empty());
        while i < self.particles.len()
            invariant
                i <= self.particles@.len(),
                self.particles@.len() == old(self).particles@.len(),
                forall|j: int| i <= j < self.particles@.len() ==> self.particles@[j] == old(self).particles@[j],
                views(kept@) == survivors(views(old(self).particles@).take(i as int), dt, cx, cy),
                kept@.len() <= i,
                self.emitters == old(self).emitters,
                self.max_particles == old(self).max_particles,
                self.center_x == old(self).center_x,
                self.center_y == old(self).center_y,
                cx == self.center_x,
                cy == self.center_y,
            decreases self.particles@.len() - i,
        {
            let mut p = Particle {
                x: 0,
                y: 0,
                vx: 0,
                vy: 0,
                life: 0,
                max_life: 0,
                size: 0,
                trail: Vec::new(),
                particle_type: ParticleType::Standard,
            };
            self.particles.set_and_swap(i, &mut p);
            p.update(dt, cx, cy);
            proof {
                let all = views(old(self).particles@);
                assert(all.take(i + 1).drop_last() =~= all.take(i as int));
                assert(all.take(i + 1).last() == old(self).particles@[i as int]@);
            }
            if p.is_alive() {
                let ghost before = kept@;
                kept.push(p);
                assert(views(kept@) =~= views(before).push(p@));
            }
            i += 1;
        }
        assert(views(old(self).particles@).take(i as int) =~= views(old(self).particles@));
        self.particles = kept;
    }

    /// Advances the field by `dt` microseconds. First every particle
    /// moves and the dead are dropped. Then each emitter in turn, while
    /// there is room, lets the time pass and adds what it spawns; what
    /// does not fit is dropped.
    pub fn update(&mut self, dt: u64)
        ensures
            final(self).particles_follow(*old(self), dt),
            final(self).emitters_follow(*old(self), dt),
            final(self).max_particles == old(self).max_particles,
            final(self).center_x == old(self).center_x,
            final(self).center_y == old(self).center_y,
            old(self).particles@.len() <= old(self).max_particles ==> final(self).particles@.len()
                <= final(self).max_particles,
            old(self).well_formed() ==> final(self).well_formed(),
    {
        self.advance_particles(dt);
        let ghost alive = views(self.particles@);
        let ghost start = self.particles@;
        let ghost max = self.max_particles as nat;
        let mut k: usize = 0;
        assert(old(self).emitters@.take(0) =~= Seq::<Emitter>::empty());
        while k < self.emitters.len()
            invariant
                k <= self.emitters@.len(),
                self.emitters@.len() == old(self).emitters@.len(),
                self.max_particles == old(self).max_particles,
                self.center_x == old(self).center_x,
                self.center_y == old(self).center_y,
                max == self.max_particles as nat,
                alive == views(start),
                alive.len() == start.len(),
                self.particles@.len() == count_after(
                    old(self).emitters@.take(k as int),
                    dt,
                    alive.len(),
                    max,
                ),
                self.particles@.len() >= start.len(),
                self.particles@.take(start.len() as int) == start,
                forall|j: int, i: int|
                    0 <= j < k && #[trigger] in_turn(
                        old(self).emitters@,
                        j,
                        dt,
                        alive.len(),
                        max,
                        i,
                    ) ==> 0 <= i < self.particles@.len() && old(self).emitters@[j].may_spawn(
                        self.particles@[i]@,
                    ),
                forall|j: int|
                    0 <= j < k ==> #[trigger] self.emitters@[j] == turn_taken(
                        old(self).emitters@,
                        j,
                        dt,
                        alive.len(),
                        max,
                    ),
                forall|j: int|
                    k <= j < self.emitters@.len() ==> self.emitters@[j] == old(self).emitters@[j],
            decreases self.emitters@.len() - k,
        {
            proof {
                let all = old(self).emitters@;
                assert(all.take(k + 1).drop_last() =~= all.take(k as int));
                assert(all.take(k + 1).last() == all[k as int]);
            }
            let ghost before = self.particles@;
            if self.particles.len() < self.max_particles {
                let mut spawned = self.emitters[k].emit(dt);
                let remaining_capacity = self.max_particles - self.particles.len();
                spawned.truncate(remaining_capacity);
                self.particles.append(&mut spawned);
                proof {
                    assert(self.particles@.take(start.len() as int) =~= before.take(
                        start.len() as int,
                    ));
                }
            }
            proof {
                let all = old(self).emitters@;
                assert forall|j: int, i: int|
                    0 <= j < k + 1 && #[trigger] in_turn(
                        all,
                        j,
                        dt,
                        alive.len(),
                        max,
                        i,
                    ) implies 0 <= i < self.particles@.len() && all[j].may_spawn(
                    self.particles@[i]@,
                ) by {
                    lemma_count_after_bounded(all.take(j), dt, alive.len(), max);
                    if j < k {
                        lemma_count_after_grows(all, j + 1, k as int, dt, alive.len(), max);
                        assert(self.particles@[i] == before[i]);
                    }
                }
            }
            k += 1;
        }
        proof {
            assert(old(self).emitters@.take(k as int) =~= old(self).emitters@);
            assert(views(self.particles@).take(alive.len() as int) =~= alive);
            lemma_count_after_bounded(old(self).emitters@, dt, alive.len(), max);
        }
    }

    /// Spawns up to `count` particles that fly apart from `(x, y)`. The
    /// burst ends where the field is full.
    pub fn spawn_burst(&mut self, x: i64, y: i64, count: usize, particle_type: ParticleType)
        ensures
            final(self).particles@.len() == if old(self).particles@.len() >= old(self).max_particles {
                old(self).particles@.len() as int
            } else if old(self).particles@.len() + count <= old(self).max_particles {
                old(self).particles@.len() + count
            } else {
                old(self).max_particles as int
            },
            final(self).particles@.take(old(self).particles@.len() as int) == old(self).particles@,
            forall|i: int|
                old(self).particles@.len() <= i < final(self).particles@.len() ==> may_burst(
                    x,
                    y,
                    particle_type,
                    #[trigger] final(self).particles@[i]@,
                ),
            final(self).emitters == old(self).emitters,
            final(self).max_particles == old(self).max_particles,
            final(self).center_x == old(self).center_x,
            final(self).center_y == old(self).center_y,
            old(self).well_formed() ==> final(self).well_formed(),
    {
        let mut made: usize = 0;
        while made < count && self.particles.len() < self.max_particles
            invariant
                made <= count,
                self.particles@.len() == old(self).particles@.len() + made,
                made > 0 ==> self.particles@.len() <= self.max_particles,
                self.particles@.take(old(self).particles@.len() as int) == old(self).particles@,
                forall|i: int|
                    old(self).particles@.len() <= i < self.particles@.len() ==> may_burst(
                        x,
                        y,
                        particle_type,
                        #[trigger] self.particles@[i]@,
                    ),
                self.emitters == old(self).emitters,
                self.max_particles == old(self).max_particles,
                self.center_x == old(self).center_x,
                self.center_y == old(self).center_y,
            decreases count - made,
        {
            let draws = Draws {
                place: rand_unit(),
                speed: rand_unit(),
                life: rand_unit(),
                size: rand_unit(),
            };
            let ghost before = self.particles@;
            let p = Self::burst_with(x, y, particle_type, draws);
            assert(draws.in_range());
            self.particles.push(p);
            assert(self.particles@.take(old(self).particles@.len() as int) =~= before.take(
                old(self).particles@.len() as int,
            ));
            made += 1;
        }
        assert(self.particles@.take(old(self).particles@.len() as int) =~= old(self).particles@);
    }

    /// The particle of a burst at `(x, y)` for the given draws.
    pub fn burst_with(x: i64, y: i64, particle_type: ParticleType, draws: Draws) -> (p: Particle)
        ensures
            p@ == burst_particle(x, y, particle_type, draws),
    {
        let angle = fx_mul(draws.place, TAU);
        let speed = fx_add(10_000_000, fx_mul(draws.speed, 20_000_000));
        let life = fx_add(1_500_000, fx_mul(draws.life, 2_000_000));
        let size = fx_add(800_000, fx_mul(draws.size, 800_000));
        Particle::new_with_size(x, y, angle, speed, life, size, particle_type)
    }

    /// Drops every particle. The emitters stay.
    pub fn clear(&mut self)
        ensures
            final(self).particles@.len() == 0,
            final(self).emitters == old(self).emitters,
            final(self).max_particles == old(self).max_particles,
            final(self).center_x == old(self).center_x,
            final(self).center_y == old(self).center_y,
    {
        self.particles.clear();
    }

    /// The particles in order, one after the other.
    pub fn iter(&self) -> (particles: core::slice::Iter<'_, Particle>)
        ensures
            vstd::std_specs::slice::into_iter_elts(particles) == self.particles@,
    {
        let slice = self.particles.as_slice();
        let particles = slice.iter();
        proof {
            vstd::std_specs::slice::axiom_spec_slice_iter(slice);
            assert(vstd::std_specs::slice::into_iter_elts(particles) =~= self.particles@);
        }
        particles
    }

    /// How many particles the field holds.
    pub fn count(&self) -> (n: usize)
        ensures
            n == self.particles@.len(),
    {
        self.particles.len()
    }
}

/// The step with the number `k` takes the field `fields[k]` to the field
/// `fields[k + 1]` by an update of `steps[k]` microseconds in which no
/// particle dies.
pub open spec fn updated_without_loss(fields: Seq<ParticleSystem>, steps: Seq<u64>, k: int) -> bool {
    let before = fields[k];
    let after = fields[k + 1];
    &&& after.particles_follow(before, steps[k])
    &&& after.emitters_follow(before, steps[k])
    &&& after.max_particles == before.max_particles
    &&& survivors(views(before.particles@), steps[k], before.center_x, before.center_y).len()
        == before.particles@.len()
}

proof fn lemma_released_grows(e: Emitter, steps: Seq<u64>, n: int)
    requires
        0 <= n <= steps.len(),
    ensures
        released(e, steps.take(n)) <= released(e, steps),
    decreases steps.len() - n,
{
    if n < steps.len() {
        lemma_released_grows(e, steps, n + 1);
        assert(steps.take(n + 1).drop_last() =~= steps.take(n));
    } else {
        assert(steps.take(n) =~= steps);
    }
}

proof fn lemma_field_after(fields: Seq<ParticleSystem>, steps: Seq<u64>, n: int)
    requires
        fields.len() == steps.len() + 1,
        0 <= n <= steps.len(),
        fields[0].particles@.len() == 0,
        fields[0].emitters@.len() == 1,
        forall|k: int| 0 <= k < steps.len() ==> #[trigger] updated_without_loss(fields, steps, k),
        released(fields[0].emitters@[0], steps) < fields[0].max_particles,
    ensures
        fields[n].particles@.len() == released(fields[0].emitters@[0], steps.take(n)),
        fields[n].emitters@.len() == 1,
        fields[n].emitters@[0] == emitter_after(fields[0].emitters@[0], steps.take(n)),
        fields[n].max_particles == fields[0].max_particles,
    decreases n,
{
    let first = fields[0].emitters@[0];
    if n == 0 {
        assert(steps.take(0) =~= Seq::<u64>::empty());
    } else {
        lemma_field_after(fields, steps, n - 1);
        let before = fields[n - 1];
        let after = fields[n];
        let dt = steps[n - 1];
        let max = before.max_particles as nat;
        let count = before.particles@.len();
        assert(updated_without_loss(fields, steps, n - 1));
        assert(steps.take(n).drop_last() =~= steps.take(n - 1));
        assert(steps.take(n).last() == dt);
        lemma_released_grows(first, steps, n - 1);
        lemma_released_grows(first, steps, n);
        let emitters = before.emitters@;
        assert(emitters.take(0) =~= Seq::<Emitter>::empty());
        assert(emitters.drop_last() =~= Seq::<Emitter>::empty());
        assert(count_after(emitters.drop_last(), dt, count, max) == count);
        assert(count_after(emitters.take(0), dt, count, max) == count);
        assert(emitters.last() == emitters[0]);
        assert(count_after(emitters, dt, count, max) == count + emitters[0].due(dt));
        assert(after.emitters@[0] == turn_taken(emitters, 0, dt, count, max));
    }
}

/// A field fills at the rate of its emitter. Take a field that is empty
/// and has one emitter, and update it step by step. As long as no
/// particle dies and the field does not reach its bound, it holds after
/// the last step as many particles as the emitter releases in the time
/// that has passed in all: the whole part of what the emitter held at
/// first plus its rate times that time, counted in `EMIT_UNIT`. How the
/// time is cut into steps makes no difference.
pub proof fn lemma_field_fills_at_rate(fields: Seq<ParticleSystem>, steps: Seq<u64>)
    requires
        fields.len() == steps.len() + 1,
        fields[0].particles@.len() == 0,
        fields[0].emitters@.len() == 1,
        fields[0].emitters@[0].well_formed(),
        forall|k: int| 0 <= k < steps.len() ==> #[trigger] updated_without_loss(fields, steps, k),
        released(fields[0].emitters@[0], steps) < fields[0].max_particles,
    ensures
        fields.last().particles@.len() == (fields[0].emitters@[0].accumulator
            + fields[0].emitters@[0].rate * total_time(steps)) / (EMIT_UNIT as int),
{
    lemma_field_after(fields, steps, steps.len() as int);
    assert(steps.take(steps.len() as int) =~= steps);
    lemma_emission_is_exact(fields[0].emitters@[0], steps);
}

} // verus!
