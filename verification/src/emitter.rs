//! The particle emission model: a deterministic description of a particle
//! population over time.
//!
//! An [`EmitterConfig`] gives a birth rate (milli-particles per second), a
//! lifetime (milliseconds), an initial speed (milli-units per second), an
//! angular emission range centred on a base angle (milliradians), and an
//! emission position. Births follow the deterministic accumulator
//! [`EmitterConfig::births_by`]: the total born by time `t` is
//! `floor(birth_rate * t / SCALE_SQ)`, so counting births window by window
//! carries the fractional remainder over exactly — the count over `[0, T]`
//! never deviates from `birth_rate * T` by a full particle, however the
//! interval is partitioned ([`lemma_birth_total`],
//! [`lemma_birth_partition`]).
//!
//! Choosing a direction within the angular range is the host's draw: the
//! library maps a unit sample to an exact angle
//! ([`EmitterConfig::emission_angle`]) and scales a unit direction vector
//! by the configured speed ([`EmitterConfig::particles_born_in`]); turning
//! an angle into a unit vector is trigonometry and stays with the host.
//! A born particle then moves by constant-velocity integration from its
//! birth position ([`ParticleState::position`]) and dies when its age
//! reaches the configured lifetime ([`ParticleState::is_alive`]).

use vstd::prelude::*;

use crate::fixed::{
    clamp, lemma_tdiv_fraction, lemma_tdiv_range, tdiv, tdiv_i128, INPUT_LIMIT, RESOLVED_LIMIT,
    SCALE, SCALE_SQ,
};
use crate::geom::Point;

verus! {

/// Why an emitter configuration was rejected at construction time.
#[derive(Clone, Copy, PartialEq, Eq, Structural, Debug)]
pub enum EmitterError {
    NegativeBirthRate,
    NonPositiveLifetime,
    NegativeEmissionRange,
}

/// An immutable particle emitter description.
///
/// Constructed through [`EmitterConfig::new`], which validates
/// `birth_rate >= 0`, `lifetime > 0`, and `emission_range >= 0`.
#[derive(Clone, Copy, PartialEq, Eq, Structural, Debug)]
pub struct EmitterConfig {
    /// Births per second, in milli-particles.
    pub birth_rate: i64,
    /// How long each particle lives, in milliseconds.
    pub lifetime: i64,
    /// Initial particle speed, in milli-units per second.
    pub velocity: i64,
    /// Width of the angular emission interval, in milliradians.
    pub emission_range: i64,
    /// Centre of the angular emission interval, in milliradians.
    pub base_angle: i64,
    /// Emission position, x, in milli-units.
    pub x: i64,
    /// Emission position, y, in milli-units.
    pub y: i64,
}

/// One live particle: its birth time and position, its velocity vector,
/// and its age. The current position is always integrated from the birth
/// state, never accumulated, so advancing in several steps lands exactly
/// where advancing once does.
#[derive(Clone, Copy, PartialEq, Eq, Structural, Debug)]
pub struct ParticleState {
    /// When the particle was born, in milliseconds.
    pub birth_time: i64,
    /// Where the particle was born, x, in milli-units.
    pub birth_x: i64,
    /// Where the particle was born, y, in milli-units.
    pub birth_y: i64,
    /// Velocity, x component, in milli-units per second.
    pub vx: i64,
    /// Velocity, y component, in milli-units per second.
    pub vy: i64,
    /// Time lived so far, in milliseconds.
    pub age: i64,
}

impl EmitterConfig {
    /// The validity invariant that construction establishes.
    pub open spec fn wf(self) -> bool {
        &&& 0 <= self.birth_rate <= INPUT_LIMIT
        &&& 0 < self.lifetime <= INPUT_LIMIT
        &&& -INPUT_LIMIT <= self.velocity <= INPUT_LIMIT
        &&& 0 <= self.emission_range <= INPUT_LIMIT
        &&& -INPUT_LIMIT <= self.base_angle <= INPUT_LIMIT
        &&& -INPUT_LIMIT <= self.x <= INPUT_LIMIT
        &&& -INPUT_LIMIT <= self.y <= INPUT_LIMIT
    }

    /// Validated construction: rejects a negative birth rate, then a
    /// non-positive lifetime, then a negative emission range; otherwise
    /// returns the configuration with exactly the given fields.
    pub fn new(
        birth_rate: i64,
        lifetime: i64,
        velocity: i64,
        emission_range: i64,
        base_angle: i64,
        x: i64,
        y: i64,
    ) -> (r: Result<Self, EmitterError>)
        requires
            birth_rate <= INPUT_LIMIT,
            lifetime <= INPUT_LIMIT,
            -INPUT_LIMIT <= velocity <= INPUT_LIMIT,
            emission_range <= INPUT_LIMIT,
            -INPUT_LIMIT <= base_angle <= INPUT_LIMIT,
            -INPUT_LIMIT <= x <= INPUT_LIMIT,
            -INPUT_LIMIT <= y <= INPUT_LIMIT,
        ensures
            birth_rate < 0 ==> r == Err::<Self, EmitterError>(EmitterError::NegativeBirthRate),
            birth_rate >= 0 && lifetime <= 0 ==> r == Err::<Self, EmitterError>(
                EmitterError::NonPositiveLifetime,
            ),
            birth_rate >= 0 && lifetime > 0 && emission_range < 0 ==> r == Err::<
                Self,
                EmitterError,
            >(EmitterError::NegativeEmissionRange),
            birth_rate >= 0 && lifetime > 0 && emission_range >= 0 ==> r == Ok::<
                Self,
                EmitterError,
            >(
                (EmitterConfig { birth_rate, lifetime, velocity, emission_range, base_angle, x, y }),
            ),
            r is Ok ==> r->Ok_0.wf(),
    {
        if birth_rate < 0 {
            Err(EmitterError::NegativeBirthRate)
        } else if lifetime <= 0 {
            Err(EmitterError::NonPositiveLifetime)
        } else if emission_range < 0 {
            Err(EmitterError::NegativeEmissionRange)
        } else {
            Ok(EmitterConfig { birth_rate, lifetime, velocity, emission_range, base_angle, x, y })
        }
    }

    /// Total number of particles born at or before time `t`: the
    /// deterministic accumulator `floor(birth_rate * t / SCALE_SQ)`.
    pub open spec fn births_by(self, t: int) -> int
        recommends
            self.wf(),
            t >= 0,
    {
        (self.birth_rate * t) / (SCALE_SQ as int)
    }

    /// The birth time of the particle with global index `k` (zero-based):
    /// the earliest time at which the accumulator reaches `k + 1`.
    pub open spec fn birth_time(self, k: int) -> int
        recommends
            self.wf(),
            self.birth_rate >= 1,
            k >= 0,
    {
        ((k + 1) * (SCALE_SQ as int) + self.birth_rate - 1) / (self.birth_rate as int)
    }

    /// The particle born with global index `k`, given the host's unit
    /// direction vector for it.
    pub open spec fn born_spec(self, k: int, dir: Point) -> ParticleState
        recommends
            self.wf(),
            self.birth_rate >= 1,
            k >= 0,
    {
        ParticleState {
            birth_time: self.birth_time(k) as i64,
            birth_x: self.x,
            birth_y: self.y,
            vx: tdiv(self.velocity * dir.x, SCALE as int) as i64,
            vy: tdiv(self.velocity * dir.y, SCALE as int) as i64,
            age: 0,
        }
    }

    /// The accumulator value at time `t`.
    fn births_by_exec(&self, t: i64) -> (n: u64)
        requires
            self.wf(),
            0 <= t <= INPUT_LIMIT,
        ensures
            n == self.births_by(t as int),
    {
        proof {
            lemma_births_bound(*self, t as int);
        }
        let prod: u128 = self.birth_rate as u128 * t as u128;
        (prod / (SCALE_SQ as u128)) as u64
    }

    /// The number of particles born in the window that opens just after
    /// `t0` and closes at `t1`: the accumulator difference.
    pub fn births_in(&self, t0: i64, t1: i64) -> (n: u64)
        requires
            self.wf(),
            0 <= t0 <= t1 <= INPUT_LIMIT,
        ensures
            n == self.births_by(t1 as int) - self.births_by(t0 as int),
    {
        let a = self.births_by_exec(t0);
        let b = self.births_by_exec(t1);
        proof {
            lemma_births_monotone(*self, t0 as int, t1 as int);
        }
        b - a
    }

    /// Map a unit sample in `[0, SCALE]` to an emission angle: `0` gives
    /// the low end of the angular interval, `SCALE` the high end, and the
    /// map is an exact linear ramp in between, so a uniform sample gives a
    /// uniform angle.
    pub fn emission_angle(&self, sample: i64) -> (a: i64)
        requires
            self.wf(),
            0 <= sample <= SCALE,
        ensures
            a == self.base_angle - self.emission_range / 2 + tdiv(
                self.emission_range * sample,
                SCALE as int,
            ),
            self.base_angle - self.emission_range / 2 <= a <= self.base_angle
                - self.emission_range / 2 + self.emission_range,
    {
        proof {
            lemma_tdiv_fraction(self.emission_range as int, sample as int, SCALE as int);
        }
        let half: i64 = (self.emission_range as u64 / 2) as i64;
        let prod: i128 = self.emission_range as i128 * sample as i128;
        let q: i64 = tdiv_i128(prod, SCALE as u128) as i64;
        self.base_angle - half + q
    }

    /// The particles born in the window that opens just after `t0` and
    /// closes at `t1`, in birth order.
    ///
    /// `dirs` supplies one unit direction vector (components in
    /// `[-SCALE, SCALE]`, the host's trigonometry) per expected birth;
    /// each particle's velocity is its direction scaled by the configured
    /// speed, its position is the emitter's, and its age starts at zero.
    pub fn particles_born_in(&self, t0: i64, t1: i64, dirs: &Vec<Point>) -> (ps: Vec<ParticleState>)
        requires
            self.wf(),
            0 <= t0 <= t1 <= INPUT_LIMIT,
            dirs@.len() >= self.births_by(t1 as int) - self.births_by(t0 as int),
            forall|j: int| 0 <= j < dirs@.len() ==> #[trigger] dirs@[j].in_range(SCALE as int),
        ensures
            ps@.len() == self.births_by(t1 as int) - self.births_by(t0 as int),
            forall|j: int|
                0 <= j < ps@.len() ==> #[trigger] ps@[j] == self.born_spec(
                    self.births_by(t0 as int) + j,
                    dirs@[j],
                ),
            forall|j: int|
                0 <= j < ps@.len() ==> (#[trigger] ps@[j]).wf() && t0 < ps@[j].birth_time <= t1,
    {
        let a: u64 = self.births_by_exec(t0);
        let count: u64 = self.births_in(t0, t1);
        let dn: usize = dirs.len();
        let mut ps: Vec<ParticleState> = Vec::new();
        let mut i: u64 = 0;
        while i < count
            invariant
                self.wf(),
                0 <= t0 <= t1 <= INPUT_LIMIT,
                a == self.births_by(t0 as int),
                count == self.births_by(t1 as int) - self.births_by(t0 as int),
                i <= count,
                dn == dirs@.len(),
                dirs@.len() >= count,
                forall|j: int| 0 <= j < dirs@.len() ==> #[trigger] dirs@[j].in_range(SCALE as int),
                ps@.len() == i,
                forall|j: int|
                    0 <= j < i ==> #[trigger] ps@[j] == self.born_spec(
                        self.births_by(t0 as int) + j,
                        dirs@[j],
                    ),
                forall|j: int|
                    0 <= j < i ==> (#[trigger] ps@[j]).wf() && t0 < ps@[j].birth_time <= t1,
            decreases count - i,
        {
            proof {
                lemma_births_bound(*self, t1 as int);
            }
            let k: u64 = a + i;
            proof {
                lemma_birth_time_in_window(*self, t0 as int, t1 as int, k as int);
                assert(-(1_000_000_000_000_000 as int) <= self.velocity * dirs@[i as int].x
                    <= 1_000_000_000_000_000 as int && -(1_000_000_000_000_000 as int)
                    <= self.velocity * dirs@[i as int].y <= 1_000_000_000_000_000 as int)
                    by (nonlinear_arith)
                    requires
                        -INPUT_LIMIT <= self.velocity <= INPUT_LIMIT,
                        dirs@[i as int].in_range(SCALE as int),
                ;
                lemma_tdiv_range(
                    self.velocity * dirs@[i as int].x,
                    1_000_000_000_000_000,
                    SCALE as int,
                );
                lemma_tdiv_range(
                    self.velocity * dirs@[i as int].y,
                    1_000_000_000_000_000,
                    SCALE as int,
                );
            }
            let num: u128 = (k as u128 + 1) * (SCALE_SQ as u128) + (self.birth_rate as u128 - 1);
            let tb: i64 = (num / (self.birth_rate as u128)) as i64;
            let dir: Point = dirs[i as usize];
            let vx: i64 = tdiv_i128(self.velocity as i128 * dir.x as i128, SCALE as u128) as i64;
            let vy: i64 = tdiv_i128(self.velocity as i128 * dir.y as i128, SCALE as u128) as i64;
            ps.push(
                ParticleState {
                    birth_time: tb,
                    birth_x: self.x,
                    birth_y: self.y,
                    vx,
                    vy,
                    age: 0,
                },
            );
            i = i + 1;
        }
        ps
    }
}

impl ParticleState {
    /// Field bounds under which position integration cannot overflow.
    pub open spec fn wf(self) -> bool {
        &&& 0 <= self.birth_time <= INPUT_LIMIT
        &&& -INPUT_LIMIT <= self.birth_x <= INPUT_LIMIT
        &&& -INPUT_LIMIT <= self.birth_y <= INPUT_LIMIT
        &&& -INPUT_LIMIT <= self.vx <= INPUT_LIMIT
        &&& -INPUT_LIMIT <= self.vy <= INPUT_LIMIT
        &&& 0 <= self.age <= INPUT_LIMIT
    }

    /// A particle born at `birth_time` at the emitter's position, with
    /// the given velocity vector and age zero.
    pub fn spawn(cfg: &EmitterConfig, birth_time: i64, vx: i64, vy: i64) -> (p: ParticleState)
        requires
            cfg.wf(),
            0 <= birth_time <= INPUT_LIMIT,
            -INPUT_LIMIT <= vx <= INPUT_LIMIT,
            -INPUT_LIMIT <= vy <= INPUT_LIMIT,
        ensures
            p == (ParticleState { birth_time, birth_x: cfg.x, birth_y: cfg.y, vx, vy, age: 0 }),
            p.wf(),
    {
        ParticleState { birth_time, birth_x: cfg.x, birth_y: cfg.y, vx, vy, age: 0 }
    }

    /// The particle `dt` milliseconds later: only its age moves; the
    /// position is always re-integrated from birth, so advancing twice is
    /// exactly advancing once by the sum.
    pub fn advance(&self, dt: i64) -> (p: ParticleState)
        requires
            self.wf(),
            0 <= dt,
            self.age + dt <= INPUT_LIMIT,
        ensures
            p == (ParticleState { age: (self.age + dt) as i64, ..*self }),
            p.wf(),
    {
        ParticleState { age: self.age + dt, ..*self }
    }

    /// Whether the particle is still in the live set: its age has not
    /// reached the configured lifetime.
    pub fn is_alive(&self, cfg: &EmitterConfig) -> (r: bool)
        ensures
            r == (self.age < cfg.lifetime),
    {
        self.age < cfg.lifetime
    }

    /// Constant-velocity position integration:
    /// `birth_position + velocity * age`, with the velocity in
    /// milli-units per second and the age in milliseconds, saturating at
    /// [`RESOLVED_LIMIT`] like every resolved coordinate.
    pub fn position(&self) -> (p: Point)
        requires
            self.wf(),
        ensures
            p.x == clamp(
                self.birth_x + tdiv(self.vx * self.age, SCALE as int),
                RESOLVED_LIMIT as int,
            ),
            p.y == clamp(
                self.birth_y + tdiv(self.vy * self.age, SCALE as int),
                RESOLVED_LIMIT as int,
            ),
    {
        let x = integrate_coord(self.birth_x, self.vx, self.age);
        let y = integrate_coord(self.birth_y, self.vy, self.age);
        Point { x, y }
    }
}

/// One coordinate of [`ParticleState::position`].
fn integrate_coord(base: i64, v: i64, age: i64) -> (r: i64)
    requires
        -INPUT_LIMIT <= base <= INPUT_LIMIT,
        -INPUT_LIMIT <= v <= INPUT_LIMIT,
        0 <= age <= INPUT_LIMIT,
    ensures
        r == clamp(base + tdiv(v * age, SCALE as int), RESOLVED_LIMIT as int),
{
    proof {
        assert(-(1_000_000_000_000_000_000_000_000 as int) <= v * age
            <= 1_000_000_000_000_000_000_000_000 as int) by (nonlinear_arith)
            requires
                -INPUT_LIMIT <= v <= INPUT_LIMIT,
                0 <= age <= INPUT_LIMIT,
        ;
        lemma_tdiv_range(v * age, 1_000_000_000_000_000_000_000_000, SCALE as int);
    }
    let q: i128 = tdiv_i128(v as i128 * age as i128, SCALE as u128) + base as i128;
    if q > RESOLVED_LIMIT as i128 {
        RESOLVED_LIMIT
    } else if q < -RESOLVED_LIMIT as i128 {
        -RESOLVED_LIMIT
    } else {
        q as i64
    }
}

/// The accumulator never exceeds `10^18` for in-range inputs.
proof fn lemma_births_bound(cfg: EmitterConfig, t: int)
    requires
        cfg.wf(),
        0 <= t <= INPUT_LIMIT,
    ensures
        0 <= cfg.birth_rate * t <= 1_000_000_000_000_000_000_000_000 as int,
        0 <= cfg.births_by(t) <= 1_000_000_000_000_000_000 as int,
{
    assert(0 <= cfg.birth_rate * t <= 1_000_000_000_000_000_000_000_000 as int)
        by (nonlinear_arith)
        requires
            0 <= cfg.birth_rate <= INPUT_LIMIT,
            0 <= t <= INPUT_LIMIT,
    ;
    vstd::arithmetic::div_mod::lemma_div_pos_is_pos(cfg.birth_rate * t, SCALE_SQ as int);
    vstd::arithmetic::div_mod::lemma_div_is_ordered(
        cfg.birth_rate * t,
        1_000_000_000_000_000_000_000_000,
        SCALE_SQ as int,
    );
}

/// The accumulator is monotone in time.
proof fn lemma_births_monotone(cfg: EmitterConfig, t0: int, t1: int)
    requires
        cfg.wf(),
        0 <= t0 <= t1,
    ensures
        cfg.births_by(t0) <= cfg.births_by(t1),
{
    assert(cfg.birth_rate * t0 <= cfg.birth_rate * t1) by (nonlinear_arith)
        requires
            0 <= cfg.birth_rate,
            0 <= t0 <= t1,
    ;
    vstd::arithmetic::div_mod::lemma_div_is_ordered(
        cfg.birth_rate * t0,
        cfg.birth_rate * t1,
        SCALE_SQ as int,
    );
}

/// Particle birth conservation, additive form: over any three cut points,
/// the births in the two sub-windows sum exactly to the births in the
/// whole window — so the total over `[0, T]` is the same however the
/// interval is partitioned.
pub proof fn lemma_birth_partition(cfg: EmitterConfig, t0: int, t1: int, t2: int)
    requires
        cfg.wf(),
        0 <= t0 <= t1 <= t2,
    ensures
        (cfg.births_by(t1) - cfg.births_by(t0)) + (cfg.births_by(t2) - cfg.births_by(t1))
            == cfg.births_by(t2) - cfg.births_by(t0),
{
}

/// Particle birth conservation, total form: the accumulator at `T` is the
/// exact floor of `birth_rate * T / SCALE_SQ`, so the total birth count
/// falls short of the continuous rate by less than one particle.
pub proof fn lemma_birth_total(cfg: EmitterConfig, t: int)
    requires
        cfg.wf(),
        0 <= t,
    ensures
        (SCALE_SQ as int) * cfg.births_by(t) <= cfg.birth_rate * t < (SCALE_SQ as int) * (
        cfg.births_by(t) + 1),
        cfg.births_by(0) == 0,
{
    vstd::arithmetic::div_mod::lemma_fundamental_div_mod(cfg.birth_rate * t, SCALE_SQ as int);
    vstd::arithmetic::div_mod::lemma_mod_bound(cfg.birth_rate * t, SCALE_SQ as int);
    assert(cfg.birth_rate * 0 == 0) by (nonlinear_arith);
    vstd::arithmetic::div_mod::lemma_div_pos_is_pos(0, SCALE_SQ as int);
    vstd::arithmetic::div_mod::lemma_basic_div(0, SCALE_SQ as int);
}

/// A particle index counted strictly between two accumulator readings is
/// born strictly after the first reading's time and no later than the
/// second's.
pub proof fn lemma_birth_time_in_window(cfg: EmitterConfig, t0: int, t1: int, k: int)
    requires
        cfg.wf(),
        0 <= t0 <= t1,
        cfg.births_by(t0) <= k < cfg.births_by(t1),
    ensures
        cfg.birth_rate >= 1,
        t0 < cfg.birth_time(k) <= t1,
        0 <= k,
{
    let r = cfg.birth_rate as int;
    let m = SCALE_SQ as int;
    assert(0 <= r * t0) by (nonlinear_arith)
        requires
            0 <= r,
            0 <= t0,
    ;
    vstd::arithmetic::div_mod::lemma_div_pos_is_pos(r * t0, m);
    if r == 0 {
        assert(r * t1 == 0) by (nonlinear_arith)
            requires
                r == 0,
        ;
        vstd::arithmetic::div_mod::lemma_basic_div(0, m);
        assert(false);
    }
    let bb = (k + 1) * m;
    // Upper bound: the accumulator reaches k + 1 no later than t1.
    vstd::arithmetic::div_mod::lemma_fundamental_div_mod(r * t1, m);
    vstd::arithmetic::div_mod::lemma_mod_bound(r * t1, m);
    assert(m * (k + 1) <= m * cfg.births_by(t1)) by (nonlinear_arith)
        requires
            k + 1 <= cfg.births_by(t1),
            m > 0,
    ;
    assert((k + 1) * m == m * (k + 1)) by (nonlinear_arith);
    assert(bb <= r * t1);
    vstd::arithmetic::div_mod::lemma_fundamental_div_mod_converse(t1 * r + (r - 1), r, t1, r - 1);
    assert(r * t1 + r - 1 == t1 * r + (r - 1)) by (nonlinear_arith);
    vstd::arithmetic::div_mod::lemma_div_is_ordered(bb + r - 1, r * t1 + r - 1, r);
    // Lower bound: the accumulator has not reached k + 1 at t0.
    vstd::arithmetic::div_mod::lemma_fundamental_div_mod(r * t0, m);
    vstd::arithmetic::div_mod::lemma_mod_bound(r * t0, m);
    assert(m * cfg.births_by(t0) <= m * k) by (nonlinear_arith)
        requires
            cfg.births_by(t0) <= k,
            m > 0,
    ;
    assert(r * t0 < bb) by (nonlinear_arith)
        requires
            r * t0 == m * cfg.births_by(t0) + (r * t0) % m,
            (r * t0) % m < m,
            m * cfg.births_by(t0) <= m * k,
            bb == (k + 1) * m,
    ;
    assert((t0 + 1) * r == r * t0 + r) by (nonlinear_arith);
    vstd::arithmetic::div_mod::lemma_div_by_multiple(t0 + 1, r);
    vstd::arithmetic::div_mod::lemma_div_is_ordered((t0 + 1) * r, bb + r - 1, r);
}

} // verus!
