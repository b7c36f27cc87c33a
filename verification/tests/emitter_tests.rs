//! Particle emission: birth accumulation, spawning, and motion.
//!
//! Rates are milli-particles per second, times milliseconds, speeds
//! milli-units per second.

use core_animation::emitter::{EmitterConfig, EmitterError, ParticleState};
use core_animation::geom::Point;

fn emitter(birth_rate: i64) -> EmitterConfig {
    EmitterConfig::new(birth_rate, 5_000, 80_000, 6_283, 0, 320_000, 240_000).unwrap()
}

#[test]
fn test_emitter_validation() {
    let r = EmitterConfig::new(-1, 5_000, 0, 0, 0, 0, 0);
    assert_eq!(r, Err(EmitterError::NegativeBirthRate));
    let r = EmitterConfig::new(0, 0, 0, 0, 0, 0, 0);
    assert_eq!(r, Err(EmitterError::NonPositiveLifetime));
    let r = EmitterConfig::new(0, 5_000, 0, -1, 0, 0, 0);
    assert_eq!(r, Err(EmitterError::NegativeEmissionRange));
    let r = EmitterConfig::new(0, 5_000, 0, 0, 0, 0, 0);
    assert!(r.is_ok());
}

#[test]
fn test_birth_conservation() {
    // 10 particles per second over 10 seconds: exactly 100 births,
    // however the interval is cut.
    let cfg = emitter(10_000);
    assert_eq!(cfg.births_in(0, 10_000), 100);
    let total = cfg.births_in(0, 3_000) + cfg.births_in(3_000, 7_000) + cfg.births_in(7_000, 10_000);
    assert_eq!(total, 100);
    let mut sum = 0;
    let mut t = 0;
    while t < 10_000 {
        sum += cfg.births_in(t, t + 250);
        t += 250;
    }
    assert_eq!(sum, 100);
}

#[test]
fn test_birth_conservation_fractional_rate() {
    // 0.333 particles per second over 10 seconds: 3.33 expected, 3
    // counted - short of the continuous rate by less than one - and the
    // same 3 whatever the partition.
    let cfg = emitter(333);
    assert_eq!(cfg.births_in(0, 10_000), 3);
    let split = cfg.births_in(0, 1_234) + cfg.births_in(1_234, 8_765) + cfg.births_in(8_765, 10_000);
    assert_eq!(split, 3);
    let mut sum = 0;
    let mut t = 0;
    while t < 10_000 {
        sum += cfg.births_in(t, t + 137.min(10_000 - t));
        t += 137.min(10_000 - t);
    }
    assert_eq!(sum, 3);
}

#[test]
fn test_particles_born_in_window() {
    // 2 particles per second: births at 500, 1000, ..., 3000 ms.
    let cfg = emitter(2_000);
    let dirs = vec![Point { x: 1_000, y: 0 }; 6];
    let ps = cfg.particles_born_in(0, 3_000, &dirs);
    assert_eq!(ps.len(), 6);
    for (k, p) in ps.iter().enumerate() {
        assert_eq!(p.birth_time, 500 * (k as i64 + 1));
        assert_eq!(p.birth_x, 320_000);
        assert_eq!(p.birth_y, 240_000);
        assert_eq!(p.age, 0);
        // Unit direction (1, 0) scaled by the 80 units/s speed.
        assert_eq!(p.vx, 80_000);
        assert_eq!(p.vy, 0);
    }

    // A later window continues exactly where the earlier one stopped.
    let tail = cfg.particles_born_in(3_000, 4_000, &dirs);
    assert_eq!(tail.len(), 2);
    assert_eq!(tail[0].birth_time, 3_500);
    assert_eq!(tail[1].birth_time, 4_000);
}

#[test]
fn test_zero_rate_emits_nothing() {
    let cfg = emitter(0);
    assert_eq!(cfg.births_in(0, 1_000_000), 0);
    let ps = cfg.particles_born_in(0, 1_000_000, &vec![]);
    assert!(ps.is_empty());
}

#[test]
fn test_emission_angle_ramp() {
    // Base angle 0, range 2 rad: samples 0, 1/2, 1 give -1, 0, +1 rad.
    let cfg = EmitterConfig::new(0, 1_000, 0, 2_000, 0, 0, 0).unwrap();
    assert_eq!(cfg.emission_angle(0), -1_000);
    assert_eq!(cfg.emission_angle(500), 0);
    assert_eq!(cfg.emission_angle(1_000), 1_000);

    // A zero range pins every sample to the base angle.
    let cfg = EmitterConfig::new(0, 1_000, 0, 0, 700, 0, 0).unwrap();
    assert_eq!(cfg.emission_angle(0), 700);
    assert_eq!(cfg.emission_angle(1_000), 700);
}

#[test]
fn test_particle_motion() {
    let cfg = EmitterConfig::new(0, 3_000, 0, 0, 0, 10_000, 20_000).unwrap();
    // 1.5 units/s rightward, 0.5 units/s upward.
    let p = ParticleState::spawn(&cfg, 0, 1_500, 500);
    let p = p.advance(2_000);
    let pos = p.position();
    // After 2 s: x advanced by 3 units, y by 1.
    assert_eq!(pos, Point { x: 13_000, y: 21_000 });
}

#[test]
fn test_advance_composition() {
    let cfg = EmitterConfig::new(0, 3_000, 0, 0, 0, 0, 0).unwrap();
    let p = ParticleState::spawn(&cfg, 100, 333, -777);
    let stepped = p.advance(300).advance(700);
    let once = p.advance(1_000);
    assert_eq!(stepped, once);
    assert_eq!(stepped.position(), once.position());
}

#[test]
fn test_particle_lifetime() {
    let cfg = EmitterConfig::new(0, 3_000, 0, 0, 0, 0, 0).unwrap();
    let p = ParticleState::spawn(&cfg, 0, 0, 0);
    assert!(p.is_alive(&cfg));
    let p = p.advance(2_999);
    assert!(p.is_alive(&cfg));
    let p = p.advance(1);
    // Age reached the lifetime: the particle leaves the live set.
    assert!(!p.is_alive(&cfg));
}
