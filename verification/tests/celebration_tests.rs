use breathe::celebration::{
    CelebrationAnimation, CelebrationParticle, CELEBRATION_SECONDS, SPARK_TRAIL_LENGTH,
};
use breathe::fixed::ONE;
use breathe::particles::Draws;
use breathe::theme::Color;

#[test]
fn spark_for_given_draws() {
    let p = CelebrationParticle::with_draws(ONE, 2 * ONE, 0, 10 * ONE, Color::Red, ONE, 0);
    assert_eq!((p.x, p.y), (ONE, 2 * ONE));
    assert_eq!((p.vx, p.vy), (10 * ONE, 0));
    assert_eq!((p.life, p.max_life), (3_500_000, 3_500_000));
    assert_eq!(p.size, ONE);
    assert_eq!(p.color, Color::Red);
    let q = CelebrationParticle::with_draws(0, 0, 0, 0, Color::Red, 0, ONE);
    assert_eq!(q.life, 2_000_000);
    assert_eq!(q.size, 1_500_000);
}

#[test]
fn new_spark_has_a_life_and_size_from_the_bands() {
    for _ in 0..100 {
        let p = CelebrationParticle::new(0, 0, 0, ONE, Color::White);
        assert!((2_000_000..=3_500_000).contains(&p.life));
        assert_eq!(p.life, p.max_life);
        assert!((1_000_000..=1_500_000).contains(&p.size));
    }
}

#[test]
fn sparks_fall_and_slow_down() {
    let mut p = CelebrationParticle::with_draws(0, 0, 0, 10 * ONE, Color::White, 0, 0);
    p.update(1_000_000);
    assert_eq!(p.vx, 9_800_000);
    assert_eq!(p.vy, -14_850_000);
    assert_eq!((p.x, p.y), (9_800_000, -14_850_000));
    assert_eq!(p.life, 1_000_000);
    assert_eq!(p.trail, vec![(0, 0)]);
    assert!(p.is_alive());
    p.update(1_000_000);
    assert!(!p.is_alive());
}

#[test]
fn spark_trail_keeps_six_positions() {
    let mut p = CelebrationParticle::with_draws(0, 0, 0, ONE, Color::White, 0, 0);
    for step in 0..10 {
        p.update(1_000);
        assert_eq!(p.trail.len(), (step + 1).min(SPARK_TRAIL_LENGTH));
    }
}

#[test]
fn spark_opacity_is_eased() {
    let mut p = CelebrationParticle::with_draws(0, 0, 0, ONE, Color::White, 0, 0);
    assert_eq!(p.opacity(), ONE);
    p.update(1_000_000);
    // Half of the life is left: 1 - (1 - 0.5)^3.
    assert_eq!(p.opacity(), 875_000);
    p.update(1_000_000);
    assert_eq!(p.opacity(), 0);
}

#[test]
fn celebration_starts_empty() {
    let c = CelebrationAnimation::new();
    assert!(c.particles.is_empty());
    assert_eq!(c.progress, 0);
    assert_eq!(c.duration, CELEBRATION_SECONDS);
    assert_eq!(c.duration, 4 * ONE);
    assert!(!c.burst_complete);
    assert!(!c.is_complete());
    let d = CelebrationAnimation::default();
    assert!(d.particles.is_empty() && !d.burst_complete);
}

#[test]
fn burst_spawns_a_hundred_sparks_once() {
    let mut c = CelebrationAnimation::new();
    c.set_center(3 * ONE, -ONE);
    c.spawn_burst();
    assert_eq!(c.particles.len(), 100);
    assert!(c.burst_complete);
    let palette = [
        Color::Rgb(255, 215, 0),
        Color::Rgb(34, 197, 94),
        Color::Rgb(74, 144, 217),
        Color::Rgb(139, 92, 246),
        Color::Rgb(244, 63, 94),
        Color::Rgb(251, 146, 60),
        Color::Rgb(255, 255, 255),
    ];
    for (i, p) in c.particles.iter().enumerate() {
        assert_eq!((p.x, p.y), (3 * ONE, -ONE));
        assert!((2_000_000..=3_500_000).contains(&p.life));
        let speed2 = p.vx as i128 * p.vx as i128 + p.vy as i128 * p.vy as i128;
        if i < 80 {
            assert_eq!(p.color, palette[i % 7]);
            assert!(speed2 >= 14_990_000i128 * 14_990_000 && speed2 <= 40_010_000i128 * 40_010_000);
            // Within 0.15 radians of i eightieths of a turn.
            let base = (i as f64 / 80.0) * std::f64::consts::TAU;
            let angle = (p.vy as f64).atan2(p.vx as f64);
            let mut off = (angle - base) % std::f64::consts::TAU;
            if off > std::f64::consts::PI {
                off -= std::f64::consts::TAU;
            }
            if off < -std::f64::consts::PI {
                off += std::f64::consts::TAU;
            }
            assert!(off.abs() <= 0.151);
        } else {
            assert_eq!(p.color, Color::Rgb(255, 255, 255));
            assert!(speed2 >= 19_990_000i128 * 19_990_000 && speed2 <= 35_010_000i128 * 35_010_000);
        }
    }
    c.spawn_burst();
    assert_eq!(c.particles.len(), 100);
}

#[test]
fn spark_with_given_number_and_draws() {
    let draws = Draws { place: 500_000, speed: 0, life: 0, size: 0 };
    let p = CelebrationAnimation::spark_with(0, 0, 0, draws);
    assert_eq!((p.vx, p.vy), (15_000_000, 0));
    assert_eq!(p.color, Color::Rgb(255, 215, 0));
    let p = CelebrationAnimation::spark_with(8, 0, 0, draws);
    assert_eq!(p.color, Color::Rgb(34, 197, 94));
    let p = CelebrationAnimation::spark_with(80, 0, 0, Draws { place: 0, speed: ONE, life: 0, size: 0 });
    assert_eq!((p.vx, p.vy), (35_000_000, 0));
    assert_eq!(p.color, Color::Rgb(255, 255, 255));
}

#[test]
fn first_tick_sets_the_burst_off() {
    let mut c = CelebrationAnimation::new();
    c.tick(16_000);
    assert!(c.burst_complete);
    assert_eq!(c.particles.len(), 100);
    assert_eq!(c.progress, 16_000);
    for p in &c.particles {
        assert_eq!(p.trail.len(), 1);
    }
}

#[test]
fn celebration_ends_when_its_time_is_up() {
    let mut c = CelebrationAnimation::new();
    c.spawn_burst();
    let mut ticks = 0;
    while !c.is_complete() {
        c.tick(16_000);
        ticks += 1;
        assert!(c.particles.len() <= 100);
        assert!(ticks <= 250);
    }
    // Every spark lives at most 3.5 s, so the sparks go out before the
    // four seconds are up.
    assert!(c.particles.is_empty());
    assert!(c.progress <= 3_500_000 + 16_000);
}

#[test]
fn celebration_ends_by_time_even_with_sparks_left() {
    let mut c = CelebrationAnimation::new();
    c.spawn_burst();
    c.duration = 1_000_000;
    c.tick(999_999);
    assert!(!c.is_complete());
    // At exactly its duration the celebration still runs.
    c.tick(1);
    assert_eq!(c.progress, c.duration);
    assert!(!c.is_complete());
    c.tick(1);
    assert!(c.is_complete());
    assert!(!c.particles.is_empty());
}

#[test]
fn a_celebration_without_its_burst_is_not_complete_at_its_duration() {
    let mut c = CelebrationAnimation::new();
    c.progress = 4 * ONE;
    assert!(!c.is_complete());
    c.progress = 4 * ONE + 1;
    assert!(c.is_complete());
}

#[test]
fn an_empty_celebration_is_complete_only_after_its_burst() {
    let mut c = CelebrationAnimation::new();
    assert!(!c.is_complete());
    c.burst_complete = true;
    assert!(c.is_complete());
}
