//! A particle-effect engine: emitters spawn short-lived particles into a
//! pooled arena, a per-frame update integrates their motion, and a draw pass
//! sorts live particles back to front and emits one textured quad per
//! particle.
//!
//! All scalar quantities (positions, velocities, sizes, times) are held in
//! fixed-point form: an `i64` counts millionths of a unit, so `FX_ONE`
//! stands for 1.0 and times are measured in microseconds.

pub mod math;
pub mod range;
pub mod color;
pub mod particle;
pub mod emitter;
pub mod system;
pub mod draw;
pub mod codec;

pub use color::{Color, ColorGradient, GradientPoint};
pub use draw::{DrawData, TriangleDefinition, Vertex};
pub use emitter::{
    BaseEmitter, BaseEmitterBuilder, BoxEmitter, BoxEmitterBuilder, CustomEmitter,
    CustomEmitterFactory, CustomEmitterSource, Emitter, EmitterError, ParticleLimit,
    SphereEmitter, SphereEmitterBuilder,
};
pub use system::{ParticleSystem, ParticleSystemBuilder, TextureHandle};
pub use math::{Vec2, Vec3, FX_ONE};
pub use particle::Particle;
pub use range::NumericRange;
