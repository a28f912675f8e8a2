//! Emitters: spawn accounting, per-particle randomization, and the spatial
//! shapes that place newly spawned particles.

use crate::color::white_spec;
use crate::math::{
    fx_cos, fx_mul, fx_sin, lemma_fx_mul_within, sat64, sat_add, sat_add_u64, sat_u64, trunc_div,
    Vec3, FX_HALF, FX_ONE, FX_PI, FX_TAU,
};
use crate::particle::Particle;
use crate::range::NumericRange;
use vstd::prelude::*;

verus! {

/// The cap on simultaneously alive particles of one emitter.
#[derive(Clone, Copy, Debug, PartialEq, Eq, Structural)]
pub enum ParticleLimit {
    /// No cap.
    Unlimited,
    /// A hard cap on simultaneously alive particles.
    Strict(u32),
}

/// The error surfaced when an emitter cannot be constructed from a kind id.
#[derive(Clone, Copy, Debug, PartialEq, Eq, Structural)]
pub enum EmitterError {
    /// A custom kind id was used while no constructor callback is registered.
    NoCallbackRegistered,
    /// The registered constructor callback failed for this kind id.
    CallbackFailed,
    /// A negative kind id that names no built-in shape.
    UnknownBuiltInKind,
}

/// Shared configuration and live spawn counters of every emitter shape.
///
/// Times are in microseconds; the nine ranges govern the randomized initial
/// state of each spawned particle.
#[derive(Debug)]
pub struct BaseEmitter {
    /// Offset from the center of the particle system.
    pub position: Vec3,
    /// Particle spawn rate, in particles per second; zero spawns nothing.
    pub particle_spawn_rate: u32,
    /// Cap on simultaneously alive particles.
    pub max_particles: ParticleLimit,
    /// Range of the initial lifetime of a particle, in microseconds.
    pub lifetime: NumericRange,
    /// Range of the initial size of a particle.
    pub size: NumericRange,
    /// Range of the initial size modifier of a particle.
    pub size_modifier: NumericRange,
    /// Range of the initial x velocity of a particle.
    pub x_velocity: NumericRange,
    /// Range of the initial y velocity of a particle.
    pub y_velocity: NumericRange,
    /// Range of the initial z velocity of a particle.
    pub z_velocity: NumericRange,
    /// Range of the initial rotation speed of a particle.
    pub rotation_speed: NumericRange,
    /// Range of the initial rotation of a particle.
    pub rotation: NumericRange,
    /// How many of this emitter's particles are currently alive.
    pub alive_particles: u32,
    /// Accumulated, not yet consumed spawn time, in microseconds.
    pub time: i64,
    /// How many particles the last tick asked to spawn.
    pub particles_to_spawn: u32,
    /// Whether spawning may continue after `max_particles` have been
    /// spawned over the emitter's whole life.
    pub resurrect_particles: bool,
    /// Total particles spawned since creation.
    pub spawned_particles: u64,
}

impl BaseEmitter {
    /// All nine ranges are well formed and the time accumulator is
    /// nonnegative.
    pub open spec fn wf(self) -> bool {
        &&& self.lifetime.wf()
        &&& self.size.wf()
        &&& self.size_modifier.wf()
        &&& self.x_velocity.wf()
        &&& self.y_velocity.wf()
        &&& self.z_velocity.wf()
        &&& self.rotation_speed.wf()
        &&& self.rotation.wf()
        &&& self.time >= 0
    }
}

impl Clone for BaseEmitter {
    /// A clone keeps every field except the per-tick spawn request, which
    /// is transient and starts at zero in the copy.
    fn clone(&self) -> (r: BaseEmitter)
        ensures
            r == (BaseEmitter { particles_to_spawn: 0, ..*self }),
    {
        BaseEmitter { particles_to_spawn: 0, ..*self }
    }
}

/// The spawn interval in microseconds for a nonzero rate: one millionth of
/// a second per particle per unit of rate, and at least one microsecond.
pub open spec fn time_per_particle(rate: u32) -> int {
    let t = 1_000_000int / (rate as int);
    if t == 0 {
        1
    } else {
        t
    }
}

/// What one spawn-accounting tick does to an emitter.
///
/// The accumulated time grows by `dt`; whole spawn intervals are carved out
/// of it (the fractional remainder is carried, not discarded). The raw
/// count is clamped to the remaining headroom under a strict cap, and a
/// non-resurrecting emitter that has already spawned its cap over its whole
/// life is halted for good.
pub open spec fn tick_spec(e: BaseEmitter, dt: int) -> BaseEmitter {
    let t1 = sat64(e.time + dt);
    if e.particle_spawn_rate == 0 {
        BaseEmitter { time: t1 as i64, particles_to_spawn: 0, ..e }
    } else {
        let tpp = time_per_particle(e.particle_spawn_rate);
        let raw = t1 / tpp;
        let count0: int = if raw > u32::MAX as int {
            u32::MAX as int
        } else {
            raw
        };
        let t2 = t1 - count0 * tpp;
        let halted: bool = match e.max_particles {
            ParticleLimit::Strict(m) => !e.resurrect_particles && e.spawned_particles >= m as u64,
            ParticleLimit::Unlimited => false,
        };
        let count1: int = match e.max_particles {
            ParticleLimit::Strict(m) => if e.alive_particles >= m {
                0
            } else if count0 > m - e.alive_particles {
                m - e.alive_particles
            } else {
                count0
            },
            ParticleLimit::Unlimited => count0,
        };
        if halted {
            BaseEmitter { time: t2 as i64, particles_to_spawn: 0, ..e }
        } else {
            BaseEmitter {
                time: t2 as i64,
                particles_to_spawn: count1 as u32,
                spawned_particles: sat_u64(e.spawned_particles + count1) as u64,
                ..e
            }
        }
    }
}

/// The randomized fields a base emitter stamps onto a freshly spawned
/// particle: lifetime reset, every scalar drawn from its range, opaque
/// white.
pub open spec fn emitted_fields_post(e: BaseEmitter, post: Particle) -> bool {
    &&& post.lifetime == 0
    &&& e.lifetime.min <= post.initial_lifetime <= e.lifetime.max
    &&& post.color == white_spec()
    &&& e.size.min <= post.size <= e.size.max
    &&& e.size_modifier.min <= post.size_modifier <= e.size_modifier.max
    &&& e.x_velocity.min <= post.velocity.x <= e.x_velocity.max
    &&& e.y_velocity.min <= post.velocity.y <= e.y_velocity.max
    &&& e.z_velocity.min <= post.velocity.z <= e.z_velocity.max
    &&& e.rotation.min <= post.rotation <= e.rotation.max
    &&& e.rotation_speed.min <= post.rotation_speed <= e.rotation_speed.max
}

/// What `BaseEmitter::emit` does: randomized fields stamped, everything
/// else untouched.
pub open spec fn base_emit_post(e: BaseEmitter, pre: Particle, post: Particle) -> bool {
    &&& emitted_fields_post(e, post)
    &&& post.position == pre.position
    &&& post.alive == pre.alive
    &&& post.emitter_index == pre.emitter_index
}

impl BaseEmitter {
    /// Runs the spawn accounting for one frame of `dt` microseconds.
    pub fn tick(&mut self, dt: i64)
        requires
            0 <= dt,
            old(self).time >= 0,
        ensures
            *final(self) == tick_spec(*old(self), dt as int),
            final(self).time >= 0,
    {
        let t1 = sat_add(self.time, dt);
        if self.particle_spawn_rate == 0 {
            self.time = t1;
            self.particles_to_spawn = 0;
            return;
        }
        let tpp: u64 = {
            let t0 = 1_000_000u64 / (self.particle_spawn_rate as u64);
            if t0 == 0 {
                1
            } else {
                t0
            }
        };
        let raw: u64 = (t1 as u64) / tpp;
        let count0: u32 = if raw > (u32::MAX as u64) {
            u32::MAX
        } else {
            raw as u32
        };
        proof {
            assert((count0 as int) * (tpp as int) <= (raw as int) * (tpp as int))
                by (nonlinear_arith)
                requires
                    count0 as int <= raw as int,
                    tpp as int >= 0,
            ;
            assert((raw as int) * (tpp as int) <= t1 as int) by (nonlinear_arith)
                requires
                    raw as int == (t1 as int) / (tpp as int),
                    tpp as int > 0,
                    t1 as int >= 0,
            ;
        }
        let consumed: u64 = (count0 as u64) * tpp;
        self.time = t1 - (consumed as i64);
        let mut count: u32 = count0;
        let mut halted: bool = false;
        match self.max_particles {
            ParticleLimit::Unlimited => {},
            ParticleLimit::Strict(m) => {
                if self.alive_particles >= m {
                    count = 0;
                } else {
                    let headroom = m - self.alive_particles;
                    if count > headroom {
                        count = headroom;
                    }
                }
                if !self.resurrect_particles && self.spawned_particles >= (m as u64) {
                    halted = true;
                }
            },
        }
        if halted {
            self.particles_to_spawn = 0;
        } else {
            self.particles_to_spawn = count;
            self.spawned_particles = sat_add_u64(self.spawned_particles, count as u64);
        }
    }

    /// Stamps a freshly spawned particle: resets its lifetime, draws every
    /// randomized scalar from its range, and paints it opaque white.
    ///
    /// Every emitter shape invokes this before its own positional
    /// randomization, so shapes only need to overwrite `position`.
    pub fn emit(&self, particle: &mut Particle)
        requires
            self.wf(),
        ensures
            base_emit_post(*self, *old(particle), *final(particle)),
    {
        particle.lifetime = 0;
        particle.initial_lifetime = self.lifetime.random();
        particle.color = crate::color::Color::white();
        particle.size = self.size.random();
        particle.size_modifier = self.size_modifier.random();
        particle.velocity = Vec3::new(
            self.x_velocity.random(),
            self.y_velocity.random(),
            self.z_velocity.random(),
        );
        particle.rotation = self.rotation.random();
        particle.rotation_speed = self.rotation_speed.random();
    }

    /// Sets the emitter's offset in local coordinates.
    pub fn set_position(&mut self, position: Vec3)
        ensures
            *final(self) == (BaseEmitter { position, ..*old(self) }),
    {
        self.position = position;
    }

    /// The emitter's offset in local coordinates.
    pub fn position(&self) -> (r: Vec3)
        ensures
            r == self.position,
    {
        self.position
    }

    /// Sets the spawn rate, in particles per second.
    pub fn set_spawn_rate(&mut self, rate: u32)
        ensures
            *final(self) == (BaseEmitter { particle_spawn_rate: rate, ..*old(self) }),
    {
        self.particle_spawn_rate = rate;
    }

    /// The spawn rate, in particles per second.
    pub fn spawn_rate(&self) -> (r: u32)
        ensures
            r == self.particle_spawn_rate,
    {
        self.particle_spawn_rate
    }

    /// Sets the cap on simultaneously alive particles.
    pub fn set_max_particles(&mut self, max: ParticleLimit)
        ensures
            *final(self) == (BaseEmitter { max_particles: max, ..*old(self) }),
    {
        self.max_particles = max;
    }

    /// The cap on simultaneously alive particles.
    pub fn max_particles(&self) -> (r: ParticleLimit)
        ensures
            r == self.max_particles,
    {
        self.max_particles
    }

    /// Sets the range initial lifetimes are drawn from.
    pub fn set_life_time_range(&mut self, range: NumericRange)
        ensures
            *final(self) == (BaseEmitter { lifetime: range, ..*old(self) }),
    {
        self.lifetime = range;
    }

    /// The range initial lifetimes are drawn from.
    pub fn life_time_range(&self) -> (r: NumericRange)
        ensures
            r == self.lifetime,
    {
        self.lifetime
    }

    /// Sets the range initial sizes are drawn from.
    pub fn set_size_range(&mut self, range: NumericRange)
        ensures
            *final(self) == (BaseEmitter { size: range, ..*old(self) }),
    {
        self.size = range;
    }

    /// The range initial sizes are drawn from.
    pub fn size_range(&self) -> (r: NumericRange)
        ensures
            r == self.size,
    {
        self.size
    }

    /// Sets the range initial size modifiers are drawn from.
    pub fn set_size_modifier_range(&mut self, range: NumericRange)
        ensures
            *final(self) == (BaseEmitter { size_modifier: range, ..*old(self) }),
    {
        self.size_modifier = range;
    }

    /// The range initial size modifiers are drawn from.
    pub fn size_modifier_range(&self) -> (r: NumericRange)
        ensures
            r == self.size_modifier,
    {
        self.size_modifier
    }

    /// Sets the range initial x velocities are drawn from.
    pub fn set_x_velocity_range(&mut self, range: NumericRange)
        ensures
            *final(self) == (BaseEmitter { x_velocity: range, ..*old(self) }),
    {
        self.x_velocity = range;
    }

    /// The range initial x velocities are drawn from.
    pub fn x_velocity_range(&self) -> (r: NumericRange)
        ensures
            r == self.x_velocity,
    {
        self.x_velocity
    }

    /// Sets the range initial y velocities are drawn from.
    pub fn set_y_velocity_range(&mut self, range: NumericRange)
        ensures
            *final(self) == (BaseEmitter { y_velocity: range, ..*old(self) }),
    {
        self.y_velocity = range;
    }

    /// The range initial y velocities are drawn from.
    pub fn y_velocity_range(&self) -> (r: NumericRange)
        ensures
            r == self.y_velocity,
    {
        self.y_velocity
    }

    /// Sets the range initial z velocities are drawn from.
    pub fn set_z_velocity_range(&mut self, range: NumericRange)
        ensures
            *final(self) == (BaseEmitter { z_velocity: range, ..*old(self) }),
    {
        self.z_velocity = range;
    }

    /// The range initial z velocities are drawn from.
    pub fn z_velocity_range(&self) -> (r: NumericRange)
        ensures
            r == self.z_velocity,
    {
        self.z_velocity
    }

    /// Sets the range initial rotation speeds are drawn from.
    pub fn set_rotation_speed_range(&mut self, range: NumericRange)
        ensures
            *final(self) == (BaseEmitter { rotation_speed: range, ..*old(self) }),
    {
        self.rotation_speed = range;
    }

    /// The range initial rotation speeds are drawn from.
    pub fn rotation_speed_range(&self) -> (r: NumericRange)
        ensures
            r == self.rotation_speed,
    {
        self.rotation_speed
    }

    /// Sets the range initial rotations are drawn from.
    pub fn set_rotation_range(&mut self, range: NumericRange)
        ensures
            *final(self) == (BaseEmitter { rotation: range, ..*old(self) }),
    {
        self.rotation = range;
    }

    /// The range initial rotations are drawn from.
    pub fn rotation_range(&self) -> (r: NumericRange)
        ensures
            r == self.rotation,
    {
        self.rotation
    }

    /// Enables or disables spawning past the lifetime spawn cap.
    pub fn enable_particle_resurrection(&mut self, state: bool)
        ensures
            *final(self) == (BaseEmitter { resurrect_particles: state, ..*old(self) }),
    {
        self.resurrect_particles = state;
    }

    /// Whether spawning may continue past the lifetime spawn cap.
    pub fn is_particles_resurrects(&self) -> (r: bool)
        ensures
            r == self.resurrect_particles,
    {
        self.resurrect_particles
    }

    /// Total particles spawned since creation.
    pub fn spawned_particles(&self) -> (r: u64)
        ensures
            r == self.spawned_particles,
    {
        self.spawned_particles
    }
}

/// The configuration a base emitter starts from when nothing is set: no
/// spawning (zero rate), no cap, and modest default ranges.
pub open spec fn base_default_spec() -> BaseEmitter {
    BaseEmitter {
        position: Vec3 { x: 0, y: 0, z: 0 },
        particle_spawn_rate: 0,
        max_particles: ParticleLimit::Unlimited,
        lifetime: NumericRange { min: (5 * FX_ONE) as i64, max: (10 * FX_ONE) as i64 },
        size: NumericRange { min: 125_000, max: 250_000 },
        size_modifier: NumericRange { min: 500, max: 1_000 },
        x_velocity: NumericRange { min: (-1_000) as i64, max: 1_000 },
        y_velocity: NumericRange { min: (-1_000) as i64, max: 1_000 },
        z_velocity: NumericRange { min: (-1_000) as i64, max: 1_000 },
        rotation_speed: NumericRange { min: (-20_000) as i64, max: 20_000 },
        rotation: NumericRange { min: (-FX_PI) as i64, max: FX_PI },
        alive_particles: 0,
        time: 0,
        particles_to_spawn: 0,
        resurrect_particles: true,
        spawned_particles: 0,
    }
}

impl Default for BaseEmitter {
    /// An inert emitter: the default configuration spawns nothing because
    /// its rate is zero.
    fn default() -> (r: BaseEmitter)
        ensures
            r == base_default_spec(),
            r.wf(),
    {
        BaseEmitter {
            position: Vec3 { x: 0, y: 0, z: 0 },
            particle_spawn_rate: 0,
            max_particles: ParticleLimit::Unlimited,
            lifetime: NumericRange { min: 5 * FX_ONE, max: 10 * FX_ONE },
            size: NumericRange { min: 125_000, max: 250_000 },
            size_modifier: NumericRange { min: 500, max: 1_000 },
            x_velocity: NumericRange { min: -1_000, max: 1_000 },
            y_velocity: NumericRange { min: -1_000, max: 1_000 },
            z_velocity: NumericRange { min: -1_000, max: 1_000 },
            rotation_speed: NumericRange { min: -20_000, max: 20_000 },
            rotation: NumericRange { min: -FX_PI, max: FX_PI },
            alive_particles: 0,
            time: 0,
            particles_to_spawn: 0,
            resurrect_particles: true,
            spawned_particles: 0,
        }
    }
}

/// A declarative builder for `BaseEmitter`; every unset field falls back
/// to a documented default.
pub struct BaseEmitterBuilder {
    pub position: Option<Vec3>,
    pub particle_spawn_rate: Option<u32>,
    pub max_particles: Option<u32>,
    pub lifetime: Option<NumericRange>,
    pub size: Option<NumericRange>,
    pub size_modifier: Option<NumericRange>,
    pub x_velocity: Option<NumericRange>,
    pub y_velocity: Option<NumericRange>,
    pub z_velocity: Option<NumericRange>,
    pub rotation_speed: Option<NumericRange>,
    pub rotation: Option<NumericRange>,
    pub resurrect_particles: bool,
}

/// The emitter a builder produces: every set field taken as given, every
/// unset one defaulted (spawn rate 25, no cap, the default ranges).
pub open spec fn base_build_spec(b: BaseEmitterBuilder) -> BaseEmitter {
    BaseEmitter {
        position: match b.position {
            Option::Some(v) => v,
            Option::None => Vec3 { x: 0, y: 0, z: 0 },
        },
        particle_spawn_rate: match b.particle_spawn_rate {
            Option::Some(v) => v,
            Option::None => 25,
        },
        max_particles: match b.max_particles {
            Option::Some(v) => ParticleLimit::Strict(v),
            Option::None => ParticleLimit::Unlimited,
        },
        lifetime: match b.lifetime {
            Option::Some(v) => v,
            Option::None => NumericRange { min: (5 * FX_ONE) as i64, max: (10 * FX_ONE) as i64 },
        },
        size: match b.size {
            Option::Some(v) => v,
            Option::None => NumericRange { min: 125_000, max: 250_000 },
        },
        size_modifier: match b.size_modifier {
            Option::Some(v) => v,
            Option::None => NumericRange { min: 500, max: 1_000 },
        },
        x_velocity: match b.x_velocity {
            Option::Some(v) => v,
            Option::None => NumericRange { min: (-1_000) as i64, max: 1_000 },
        },
        y_velocity: match b.y_velocity {
            Option::Some(v) => v,
            Option::None => NumericRange { min: (-1_000) as i64, max: 1_000 },
        },
        z_velocity: match b.z_velocity {
            Option::Some(v) => v,
            Option::None => NumericRange { min: (-1_000) as i64, max: 1_000 },
        },
        rotation_speed: match b.rotation_speed {
            Option::Some(v) => v,
            Option::None => NumericRange { min: (-20_000) as i64, max: 20_000 },
        },
        rotation: match b.rotation {
            Option::Some(v) => v,
            Option::None => NumericRange { min: (-FX_PI) as i64, max: FX_PI },
        },
        alive_particles: 0,
        time: 0,
        particles_to_spawn: 0,
        resurrect_particles: b.resurrect_particles,
        spawned_particles: 0,
    }
}

impl BaseEmitterBuilder {
    /// Starts a builder with nothing set and resurrection enabled.
    pub fn new() -> (r: BaseEmitterBuilder)
        ensures
            r.position is None,
            r.particle_spawn_rate is None,
            r.max_particles is None,
            r.lifetime is None,
            r.size is None,
            r.size_modifier is None,
            r.x_velocity is None,
            r.y_velocity is None,
            r.z_velocity is None,
            r.rotation_speed is None,
            r.rotation is None,
            r.resurrect_particles == true,
    {
        BaseEmitterBuilder {
            position: None,
            particle_spawn_rate: None,
            max_particles: None,
            lifetime: None,
            size: None,
            size_modifier: None,
            x_velocity: None,
            y_velocity: None,
            z_velocity: None,
            rotation_speed: None,
            rotation: None,
            resurrect_particles: true,
        }
    }

    /// Sets the emitter's offset in local coordinates.
    pub fn with_position(self, position: Vec3) -> (r: Self)
        ensures
            r == (BaseEmitterBuilder { position: Some(position), ..self }),
    {
        BaseEmitterBuilder { position: Some(position), ..self }
    }

    /// Sets the spawn rate, in particles per second.
    pub fn with_spawn_rate(self, rate: u32) -> (r: Self)
        ensures
            r == (BaseEmitterBuilder { particle_spawn_rate: Some(rate), ..self }),
    {
        BaseEmitterBuilder { particle_spawn_rate: Some(rate), ..self }
    }

    /// Sets a strict cap on simultaneously alive particles.
    pub fn with_max_particles(self, value: u32) -> (r: Self)
        ensures
            r == (BaseEmitterBuilder { max_particles: Some(value), ..self }),
    {
        BaseEmitterBuilder { max_particles: Some(value), ..self }
    }

    /// Sets the range initial lifetimes are drawn from.
    pub fn with_lifetime_range(self, time_range: NumericRange) -> (r: Self)
        ensures
            r == (BaseEmitterBuilder { lifetime: Some(time_range), ..self }),
    {
        BaseEmitterBuilder { lifetime: Some(time_range), ..self }
    }

    /// Sets the range initial sizes are drawn from.
    pub fn with_size_range(self, size_range: NumericRange) -> (r: Self)
        ensures
            r == (BaseEmitterBuilder { size: Some(size_range), ..self }),
    {
        BaseEmitterBuilder { size: Some(size_range), ..self }
    }

    /// Sets the range initial size modifiers are drawn from.
    pub fn with_size_modifier_range(self, mod_range: NumericRange) -> (r: Self)
        ensures
            r == (BaseEmitterBuilder { size_modifier: Some(mod_range), ..self }),
    {
        BaseEmitterBuilder { size_modifier: Some(mod_range), ..self }
    }

    /// Sets the range initial x velocities are drawn from.
    pub fn with_x_velocity_range(self, x_vel_range: NumericRange) -> (r: Self)
        ensures
            r == (BaseEmitterBuilder { x_velocity: Some(x_vel_range), ..self }),
    {
        BaseEmitterBuilder { x_velocity: Some(x_vel_range), ..self }
    }

    /// Sets the range initial y velocities are drawn from.
    pub fn with_y_velocity_range(self, y_vel_range: NumericRange) -> (r: Self)
        ensures
            r == (BaseEmitterBuilder { y_velocity: Some(y_vel_range), ..self }),
    {
        BaseEmitterBuilder { y_velocity: Some(y_vel_range), ..self }
    }

    /// Sets the range initial z velocities are drawn from.
    pub fn with_z_velocity_range(self, z_vel_range: NumericRange) -> (r: Self)
        ensures
            r == (BaseEmitterBuilder { z_velocity: Some(z_vel_range), ..self }),
    {
        BaseEmitterBuilder { z_velocity: Some(z_vel_range), ..self }
    }

    /// Sets the range initial rotation speeds are drawn from.
    pub fn with_rotation_speed_range(self, speed_range: NumericRange) -> (r: Self)
        ensures
            r == (BaseEmitterBuilder { rotation_speed: Some(speed_range), ..self }),
    {
        BaseEmitterBuilder { rotation_speed: Some(speed_range), ..self }
    }

    /// Sets the range initial rotations are drawn from.
    pub fn with_rotation_range(self, angle_range: NumericRange) -> (r: Self)
        ensures
            r == (BaseEmitterBuilder { rotation: Some(angle_range), ..self }),
    {
        BaseEmitterBuilder { rotation: Some(angle_range), ..self }
    }

    /// Sets whether dead particles may be replaced by new spawns forever.
    pub fn resurrect_particles(self, value: bool) -> (r: Self)
        ensures
            r == (BaseEmitterBuilder { resurrect_particles: value, ..self }),
    {
        BaseEmitterBuilder { resurrect_particles: value, ..self }
    }

    /// Builds the emitter, defaulting every unset field.
    pub fn build(self) -> (r: BaseEmitter)
        ensures
            r == base_build_spec(self),
    {
        BaseEmitter {
            position: match self.position {
                Some(v) => v,
                None => Vec3 { x: 0, y: 0, z: 0 },
            },
            particle_spawn_rate: match self.particle_spawn_rate {
                Some(v) => v,
                None => 25,
            },
            max_particles: match self.max_particles {
                Some(v) => ParticleLimit::Strict(v),
                None => ParticleLimit::Unlimited,
            },
            lifetime: match self.lifetime {
                Some(v) => v,
                None => NumericRange { min: 5 * FX_ONE, max: 10 * FX_ONE },
            },
            size: match self.size {
                Some(v) => v,
                None => NumericRange { min: 125_000, max: 250_000 },
            },
            size_modifier: match self.size_modifier {
                Some(v) => v,
                None => NumericRange { min: 500, max: 1_000 },
            },
            x_velocity: match self.x_velocity {
                Some(v) => v,
                None => NumericRange { min: -1_000, max: 1_000 },
            },
            y_velocity: match self.y_velocity {
                Some(v) => v,
                None => NumericRange { min: -1_000, max: 1_000 },
            },
            z_velocity: match self.z_velocity {
                Some(v) => v,
                None => NumericRange { min: -1_000, max: 1_000 },
            },
            rotation_speed: match self.rotation_speed {
                Some(v) => v,
                None => NumericRange { min: -20_000, max: 20_000 },
            },
            rotation: match self.rotation {
                Some(v) => v,
                None => NumericRange { min: -FX_PI, max: FX_PI },
            },
            alive_particles: 0,
            time: 0,
            particles_to_spawn: 0,
            resurrect_particles: self.resurrect_particles,
            spawned_particles: 0,
        }
    }
}

impl Default for BaseEmitterBuilder {
    /// The same empty builder `new` gives.
    fn default() -> (r: BaseEmitterBuilder)
        ensures
            r.position is None,
            r.resurrect_particles == true,
    {
        BaseEmitterBuilder::new()
    }
}

/// Emits particles uniformly over an axis-aligned box around the emitter's
/// offset.
#[derive(Clone, Debug)]
pub struct BoxEmitter {
    /// The shared spawn accounting and randomization.
    pub emitter: BaseEmitter,
    /// Half of the box extent along x; nonnegative when well formed.
    pub half_width: i64,
    /// Half of the box extent along y; nonnegative when well formed.
    pub half_height: i64,
    /// Half of the box extent along z; nonnegative when well formed.
    pub half_depth: i64,
}

/// What a box emitter leaves in a freshly spawned particle: the base
/// randomization, and a position within the box around the emitter offset.
pub open spec fn box_emit_post(b: BoxEmitter, pre: Particle, post: Particle) -> bool {
    &&& emitted_fields_post(b.emitter, post)
    &&& post.alive == pre.alive
    &&& post.emitter_index == pre.emitter_index
    &&& sat64(b.emitter.position.x - b.half_width) <= post.position.x <= sat64(
        b.emitter.position.x + b.half_width,
    )
    &&& sat64(b.emitter.position.y - b.half_height) <= post.position.y <= sat64(
        b.emitter.position.y + b.half_height,
    )
    &&& sat64(b.emitter.position.z - b.half_depth) <= post.position.z <= sat64(
        b.emitter.position.z + b.half_depth,
    )
}

/// Half of a nonnegative extent, truncated.
fn half_extent(v: i64) -> (r: i64)
    ensures
        r as int == trunc_div(v as int, 2),
{
    if v >= 0 {
        ((v as u64) / 2) as i64
    } else {
        -((((-(v as i128)) as u64) / 2) as i64)
    }
}

impl BoxEmitter {
    /// The base is well formed and the half-extents are nonnegative.
    pub open spec fn wf(self) -> bool {
        &&& self.emitter.wf()
        &&& self.half_width >= 0
        &&& self.half_height >= 0
        &&& self.half_depth >= 0
    }

    /// Builds a box emitter of the given full width, height and depth.
    pub fn new(emitter: BaseEmitter, width: i64, height: i64, depth: i64) -> (r: BoxEmitter)
        ensures
            r.emitter == emitter,
            r.half_width as int == trunc_div(width as int, 2),
            r.half_height as int == trunc_div(height as int, 2),
            r.half_depth as int == trunc_div(depth as int, 2),
    {
        BoxEmitter {
            emitter,
            half_width: half_extent(width),
            half_height: half_extent(height),
            half_depth: half_extent(depth),
        }
    }

    /// Places a freshly stamped particle uniformly within the box.
    pub fn emit(&self, particle: &mut Particle)
        requires
            self.wf(),
        ensures
            box_emit_post(*self, *old(particle), *final(particle)),
    {
        self.emitter.emit(particle);
        let dx = NumericRange::new(-self.half_width, self.half_width).random();
        let dy = NumericRange::new(-self.half_height, self.half_height).random();
        let dz = NumericRange::new(-self.half_depth, self.half_depth).random();
        particle.position = Vec3::new(
            sat_add(self.emitter.position.x, dx),
            sat_add(self.emitter.position.y, dy),
            sat_add(self.emitter.position.z, dz),
        );
    }
}

impl Default for BoxEmitter {
    /// A unit box around an inert default base.
    fn default() -> (r: BoxEmitter)
        ensures
            r.emitter == base_default_spec(),
            r.half_width == FX_HALF,
            r.half_height == FX_HALF,
            r.half_depth == FX_HALF,
            r.wf(),
    {
        BoxEmitter {
            emitter: Default::default(),
            half_width: FX_HALF,
            half_height: FX_HALF,
            half_depth: FX_HALF,
        }
    }
}

/// Emits particles within a sphere around the origin, sampling spherical
/// angles and the radius independently.
///
/// Sampling angle and radius uniformly biases density toward the center;
/// that distribution is deliberate and kept, not corrected to a
/// volume-uniform one.
#[derive(Clone, Debug)]
pub struct SphereEmitter {
    /// The shared spawn accounting and randomization.
    pub emitter: BaseEmitter,
    /// The sphere radius; nonnegative when well formed. Zero makes a point
    /// emitter.
    pub radius: i64,
}

/// What a sphere emitter leaves in a freshly spawned particle: the base
/// randomization, and a position within the cube bounding the sphere.
///
/// The cube, not the ball, is the stated envelope: the position is built
/// from clamped rational approximations of sine and cosine, whose squares
/// need not sum to one, so only the per-coordinate bound `|c| <= radius`
/// is guaranteed. The sampling law itself — independent uniform angles
/// and radius, center-biased — is the specified one.
pub open spec fn sphere_emit_post(s: SphereEmitter, pre: Particle, post: Particle) -> bool {
    &&& emitted_fields_post(s.emitter, post)
    &&& post.alive == pre.alive
    &&& post.emitter_index == pre.emitter_index
    &&& -s.radius <= post.position.x <= s.radius
    &&& -s.radius <= post.position.y <= s.radius
    &&& -s.radius <= post.position.z <= s.radius
}

impl SphereEmitter {
    /// The base is well formed and the radius is nonnegative.
    pub open spec fn wf(self) -> bool {
        &&& self.emitter.wf()
        &&& self.radius >= 0
    }

    /// Builds a sphere emitter with the given radius.
    pub fn new(emitter: BaseEmitter, radius: i64) -> (r: SphereEmitter)
        ensures
            r == (SphereEmitter { emitter, radius }),
    {
        SphereEmitter { emitter, radius }
    }

    /// Places a freshly stamped particle by spherical angles and radius.
    pub fn emit(&self, particle: &mut Particle)
        requires
            self.wf(),
        ensures
            sphere_emit_post(*self, *old(particle), *final(particle)),
    {
        self.emitter.emit(particle);
        let phi = NumericRange::new(0, FX_PI).random();
        let theta = NumericRange::new(0, FX_TAU).random();
        let radius = NumericRange::new(0, self.radius).random();
        let cos_theta = fx_cos(theta);
        let sin_theta = fx_sin(theta);
        let cos_phi = fx_cos(phi);
        let sin_phi = fx_sin(phi);
        let rst = fx_mul(radius, sin_theta);
        proof {
            lemma_fx_mul_within(radius as int, sin_theta as int);
            lemma_fx_mul_within(rst as int, cos_phi as int);
            lemma_fx_mul_within(rst as int, sin_phi as int);
            lemma_fx_mul_within(radius as int, cos_theta as int);
        }
        particle.position = Vec3::new(
            fx_mul(rst, cos_phi),
            fx_mul(rst, sin_phi),
            fx_mul(radius, cos_theta),
        );
    }
}

impl Default for SphereEmitter {
    /// A half-unit sphere around an inert default base.
    fn default() -> (r: SphereEmitter)
        ensures
            r.emitter == base_default_spec(),
            r.radius == FX_HALF,
            r.wf(),
    {
        SphereEmitter { emitter: Default::default(), radius: FX_HALF }
    }
}

/// An externally supplied emitter shape. The engine owns the shared
/// `BaseEmitter` and stamps every spawned particle with it first; an
/// implementation only places the particle and names its registry kind id.
pub trait CustomEmitter: Sized + Clone {
    /// The registry kind id this shape was constructed under. It must be
    /// nonnegative: negative ids are reserved for built-in shapes.
    spec fn kind_spec(&self) -> i32;

    /// Returns the registry kind id.
    fn kind(&self) -> (r: i32)
        ensures
            r == self.kind_spec(),
    ;

    /// Overwrites the position of a freshly stamped particle; the base
    /// randomization has already run.
    fn emit(&self, base: &BaseEmitter, particle: &mut Particle);
}

/// The constructor callback of the custom-emitter registry: builds the
/// externally supplied shape for a nonnegative kind id.
pub trait CustomEmitterSource<C: CustomEmitter> {
    /// Builds the shape registered under `kind`, or reports why it
    /// cannot. A constructed shape reports the kind it was built under.
    fn construct(&self, kind: i32) -> (r: Result<C, EmitterError>)
        ensures
            r matches Ok(c) ==> c.kind_spec() == kind,
    ;
}

/// The custom-emitter registry: an explicitly passed value holding an
/// optional constructor callback. Register the callback once at startup
/// and hand the registry to whatever constructs or restores emitters.
pub struct CustomEmitterFactory<S> {
    /// The registered constructor, if any.
    pub callback: Option<S>,
}

impl<S> CustomEmitterFactory<S> {
    /// Obtains a registry with no callback registered.
    pub fn get() -> (r: CustomEmitterFactory<S>)
        ensures
            r.callback is None,
    {
        CustomEmitterFactory { callback: None }
    }

    /// Registers the constructor callback used for custom kinds.
    pub fn set_callback(&mut self, callback: S)
        ensures
            final(self).callback == Some(callback),
    {
        self.callback = Some(callback);
    }

    /// Builds the custom shape registered under `kind`; fails when no
    /// callback is registered or when the callback itself fails.
    pub fn spawn<C: CustomEmitter>(&self, kind: i32) -> (r: Result<C, EmitterError>) where
        S: CustomEmitterSource<C>,

        requires
            kind >= 0,
        ensures
            self.callback is None ==> r == Result::<C, EmitterError>::Err(
                EmitterError::NoCallbackRegistered,
            ),
            r matches Ok(c) ==> c.kind_spec() == kind,
    {
        match &self.callback {
            Some(callback) => callback.construct(kind),
            None => Err(EmitterError::NoCallbackRegistered),
        }
    }
}

impl<S> Default for CustomEmitterFactory<S> {
    /// A registry with no callback registered.
    fn default() -> (r: CustomEmitterFactory<S>)
        ensures
            r.callback is None,
    {
        CustomEmitterFactory { callback: None }
    }
}

/// A configured particle source: one of the built-in shapes, an externally
/// supplied one, or the inert placeholder that only deserialization may
/// pass through.
#[derive(Clone, Debug)]
pub enum Emitter<C: CustomEmitter> {
    /// The invalid placeholder; no operation may run on it.
    Unknown,
    /// A box-shaped emitter.
    Box(BoxEmitter),
    /// A sphere-shaped emitter.
    Sphere(SphereEmitter),
    /// An externally supplied shape with its engine-owned base.
    Custom(BaseEmitter, C),
}

impl<C: CustomEmitter> Emitter<C> {
    /// Whether this is the invalid placeholder.
    pub open spec fn is_unknown(self) -> bool {
        self is Unknown
    }

    /// The shared base of a non-placeholder emitter.
    pub open spec fn base_spec(self) -> BaseEmitter
        recommends
            !self.is_unknown(),
    {
        match self {
            Emitter::Unknown => base_default_spec(),
            Emitter::Box(b) => b.emitter,
            Emitter::Sphere(s) => s.emitter,
            Emitter::Custom(b, _) => b,
        }
    }

    /// The same emitter with its shared base replaced.
    pub open spec fn with_base(self, b: BaseEmitter) -> Emitter<C> {
        match self {
            Emitter::Unknown => Emitter::Unknown,
            Emitter::Box(bx) => Emitter::Box(BoxEmitter { emitter: b, ..bx }),
            Emitter::Sphere(s) => Emitter::Sphere(SphereEmitter { emitter: b, ..s }),
            Emitter::Custom(_, c) => Emitter::Custom(b, c),
        }
    }

    /// A well-formed emitter: not the placeholder, and its shape and base
    /// are well formed.
    pub open spec fn wf(self) -> bool {
        match self {
            Emitter::Unknown => false,
            Emitter::Box(b) => b.wf(),
            Emitter::Sphere(s) => s.wf(),
            Emitter::Custom(b, _) => b.wf(),
        }
    }

    /// The kind id: `-1` for the placeholder, `-2` for boxes, `-3` for
    /// spheres, and the custom shape's own nonnegative id.
    pub open spec fn id_spec(self) -> int {
        match self {
            Emitter::Unknown => -1,
            Emitter::Box(_) => -2,
            Emitter::Sphere(_) => -3,
            Emitter::Custom(_, c) => c.kind_spec() as int,
        }
    }

    /// Builds an emitter from its kind id; nonnegative ids go through the
    /// registry.
    pub fn new<S: CustomEmitterSource<C>>(id: i32, factory: &CustomEmitterFactory<S>) -> (r:
        Result<Emitter<C>, EmitterError>)
        ensures
            id == -1 ==> r == Result::<Emitter<C>, EmitterError>::Ok(Emitter::Unknown),
            id == -2 ==> (r matches Ok(e) && e matches Emitter::Box(b) && b.emitter
                == base_default_spec() && b.half_width == FX_HALF && b.half_height == FX_HALF
                && b.half_depth == FX_HALF),
            id == -3 ==> (r matches Ok(e) && e matches Emitter::Sphere(s) && s.emitter
                == base_default_spec() && s.radius == FX_HALF),
            id <= -4 ==> r == Result::<Emitter<C>, EmitterError>::Err(
                EmitterError::UnknownBuiltInKind,
            ),
            id >= 0 && factory.callback is None ==> r == Result::<Emitter<C>, EmitterError>::Err(
                EmitterError::NoCallbackRegistered,
            ),
            id >= 0 ==> (r matches Ok(e) ==> e matches Emitter::Custom(b, c) && b
                == base_default_spec() && c.kind_spec() == id),
    {
        if id == -1 {
            Ok(Emitter::Unknown)
        } else if id == -2 {
            Ok(Emitter::Box(Default::default()))
        } else if id == -3 {
            Ok(Emitter::Sphere(Default::default()))
        } else if id < 0 {
            Err(EmitterError::UnknownBuiltInKind)
        } else {
            match factory.spawn(id) {
                Ok(custom) => Ok(Emitter::Custom(Default::default(), custom)),
                Err(e) => Err(e),
            }
        }
    }

    /// Returns the kind id of this emitter.
    ///
    /// A custom shape must report a nonnegative id; reporting a reserved
    /// negative one is a programming error, excluded here rather than
    /// checked at run time.
    pub fn id(&self) -> (r: i32)
        requires
            self matches Emitter::Custom(_, c) ==> c.kind_spec() >= 0,
        ensures
            r as int == self.id_spec(),
    {
        match self {
            Emitter::Unknown => -1,
            Emitter::Box(_) => -2,
            Emitter::Sphere(_) => -3,
            Emitter::Custom(_, c) => c.kind(),
        }
    }

    /// Runs the spawn accounting of the shared base for one frame.
    pub fn tick(&mut self, dt: i64)
        requires
            0 <= dt,
            !old(self).is_unknown(),
            old(self).base_spec().time >= 0,
        ensures
            *final(self) == old(self).with_base(tick_spec(old(self).base_spec(), dt as int)),
            final(self).base_spec().time >= 0,
    {
        match self {
            Emitter::Unknown => {
                proof {
                    assert(false);
                }
            },
            Emitter::Box(b) => b.emitter.tick(dt),
            Emitter::Sphere(s) => s.emitter.tick(dt),
            Emitter::Custom(b, _) => b.tick(dt),
        }
    }

    /// Stamps and places a freshly spawned particle according to the
    /// active shape.
    pub fn emit(&self, particle: &mut Particle)
        requires
            self.wf(),
        ensures
            self matches Emitter::Box(b) ==> box_emit_post(*b, *old(particle), *final(particle)),
            self matches Emitter::Sphere(s) ==> sphere_emit_post(
                *s,
                *old(particle),
                *final(particle),
            ),
    {
        match self {
            Emitter::Unknown => {
                proof {
                    assert(false);
                }
            },
            Emitter::Box(b) => b.emit(particle),
            Emitter::Sphere(s) => s.emit(particle),
            Emitter::Custom(b, c) => {
                b.emit(particle);
                c.emit(b, particle);
            },
        }
    }

    /// Shared read access to the base of a non-placeholder emitter.
    pub fn base(&self) -> (r: &BaseEmitter)
        requires
            !self.is_unknown(),
        ensures
            *r == self.base_spec(),
    {
        match self {
            Emitter::Unknown => {
                proof {
                    assert(false);
                }
                unreached()
            },
            Emitter::Box(b) => &b.emitter,
            Emitter::Sphere(s) => &s.emitter,
            Emitter::Custom(b, _) => b,
        }
    }

    /// Exclusive access to the base of a non-placeholder emitter.
    pub fn base_mut(&mut self) -> (r: &mut BaseEmitter)
        requires
            !old(self).is_unknown(),
        ensures
            *r == old(self).base_spec(),
            *final(self) == old(self).with_base(*final(r)),
    {
        match self {
            Emitter::Unknown => {
                proof {
                    assert(false);
                }
                unreached()
            },
            Emitter::Box(b) => &mut b.emitter,
            Emitter::Sphere(s) => &mut s.emitter,
            Emitter::Custom(b, _) => b,
        }
    }

    /// Raises the live-particle counter of the shared base by one.
    pub fn incr_alive(&mut self)
        requires
            !old(self).is_unknown(),
            old(self).base_spec().alive_particles < u32::MAX,
        ensures
            *final(self) == old(self).with_base(
                BaseEmitter {
                    alive_particles: (old(self).base_spec().alive_particles + 1) as u32,
                    ..old(self).base_spec()
                },
            ),
    {
        match self {
            Emitter::Unknown => {
                proof {
                    assert(false);
                }
            },
            Emitter::Box(b) => b.emitter.alive_particles = b.emitter.alive_particles + 1,
            Emitter::Sphere(s) => s.emitter.alive_particles = s.emitter.alive_particles + 1,
            Emitter::Custom(b, _) => b.alive_particles = b.alive_particles + 1,
        }
    }

    /// Lowers the live-particle counter of the shared base by one.
    pub fn decr_alive(&mut self)
        requires
            !old(self).is_unknown(),
            old(self).base_spec().alive_particles > 0,
        ensures
            *final(self) == old(self).with_base(
                BaseEmitter {
                    alive_particles: (old(self).base_spec().alive_particles - 1) as u32,
                    ..old(self).base_spec()
                },
            ),
    {
        match self {
            Emitter::Unknown => {
                proof {
                    assert(false);
                }
            },
            Emitter::Box(b) => b.emitter.alive_particles = b.emitter.alive_particles - 1,
            Emitter::Sphere(s) => s.emitter.alive_particles = s.emitter.alive_particles - 1,
            Emitter::Custom(b, _) => b.alive_particles = b.alive_particles - 1,
        }
    }
}

impl<C: CustomEmitter> Default for Emitter<C> {
    /// The invalid placeholder, for transient use while restoring state.
    fn default() -> (r: Emitter<C>)
        ensures
            r == Emitter::<C>::Unknown,
    {
        Emitter::Unknown
    }
}

/// A declarative builder for a box emitter.
pub struct BoxEmitterBuilder {
    /// The builder for the shared base.
    pub base: BaseEmitterBuilder,
    /// Full box extent along x.
    pub width: i64,
    /// Full box extent along y.
    pub height: i64,
    /// Full box extent along z.
    pub depth: i64,
}

impl BoxEmitterBuilder {
    /// Starts from a base builder and a unit box.
    pub fn new(base: BaseEmitterBuilder) -> (r: BoxEmitterBuilder)
        ensures
            r.base == base,
            r.width == FX_ONE,
            r.height == FX_ONE,
            r.depth == FX_ONE,
    {
        BoxEmitterBuilder { base, width: FX_ONE, height: FX_ONE, depth: FX_ONE }
    }

    /// Sets the full width of the box.
    pub fn with_width(self, width: i64) -> (r: Self)
        ensures
            r == (BoxEmitterBuilder { width, ..self }),
    {
        BoxEmitterBuilder { width, ..self }
    }

    /// Sets the full height of the box.
    pub fn with_height(self, height: i64) -> (r: Self)
        ensures
            r == (BoxEmitterBuilder { height, ..self }),
    {
        BoxEmitterBuilder { height, ..self }
    }

    /// Sets the full depth of the box.
    pub fn with_depth(self, depth: i64) -> (r: Self)
        ensures
            r == (BoxEmitterBuilder { depth, ..self }),
    {
        BoxEmitterBuilder { depth, ..self }
    }

    /// Builds the box emitter.
    pub fn build<C: CustomEmitter>(self) -> (r: Emitter<C>)
        ensures
            r matches Emitter::Box(b) && b.emitter == base_build_spec(self.base) && b.half_width
                as int == trunc_div(self.width as int, 2) && b.half_height as int == trunc_div(
                self.height as int,
                2,
            ) && b.half_depth as int == trunc_div(self.depth as int, 2),
    {
        Emitter::Box(
            BoxEmitter {
                emitter: self.base.build(),
                half_width: half_extent(self.width),
                half_height: half_extent(self.height),
                half_depth: half_extent(self.depth),
            },
        )
    }
}

/// A declarative builder for a sphere emitter.
pub struct SphereEmitterBuilder {
    /// The builder for the shared base.
    pub base: BaseEmitterBuilder,
    /// The sphere radius.
    pub radius: i64,
}

impl SphereEmitterBuilder {
    /// Starts from a base builder and a half-unit radius.
    pub fn new(base: BaseEmitterBuilder) -> (r: SphereEmitterBuilder)
        ensures
            r.base == base,
            r.radius == FX_HALF,
    {
        SphereEmitterBuilder { base, radius: FX_HALF }
    }

    /// Sets the sphere radius.
    pub fn with_radius(self, radius: i64) -> (r: Self)
        ensures
            r == (SphereEmitterBuilder { radius, ..self }),
    {
        SphereEmitterBuilder { radius, ..self }
    }

    /// Builds the sphere emitter.
    pub fn build<C: CustomEmitter>(self) -> (r: Emitter<C>)
        ensures
            r matches Emitter::Sphere(s) && s.emitter == base_build_spec(self.base) && s.radius
                == self.radius,
    {
        Emitter::Sphere(SphereEmitter { emitter: self.base.build(), radius: self.radius })
    }
}

} // verus!
