//! A single simulated particle.

use crate::color::{white_spec, Color};
use crate::math::Vec3;
use crate::math::FX_ONE;
use vstd::prelude::*;

verus! {

/// One simulated entity: a quad with kinematic, visual and lifetime state.
///
/// Particles live in the particle system's pool; a dead particle keeps its
/// slot until a later spawn reuses it. Times are in microseconds, scalars
/// in fixed-point millionths.
#[derive(Clone, Copy, Debug, PartialEq, Eq, Structural)]
pub struct Particle {
    /// Position in local coordinates.
    pub position: Vec3,
    /// Velocity in local coordinates, applied once per update.
    pub velocity: Vec3,
    /// Size of the quad; clamped to stay nonnegative.
    pub size: i64,
    /// Whether the particle is currently simulated.
    pub alive: bool,
    /// Added to `size` each second.
    pub size_modifier: i64,
    /// Time lived so far, in microseconds.
    pub lifetime: i64,
    /// Total time to live, fixed at spawn, in microseconds.
    pub initial_lifetime: i64,
    /// Rotation speed in fixed-point radians per second.
    pub rotation_speed: i64,
    /// Rotation angle in fixed-point radians.
    pub rotation: i64,
    /// Current color.
    pub color: Color,
    /// Index of the owning emitter in the particle system's emitter list.
    pub emitter_index: u32,
}

/// The state a particle holds before its owning emitter overwrites it.
pub open spec fn particle_default_spec() -> Particle {
    Particle {
        position: Vec3 { x: 0, y: 0, z: 0 },
        velocity: Vec3 { x: 0, y: 0, z: 0 },
        size: FX_ONE,
        alive: true,
        size_modifier: 0,
        lifetime: 0,
        initial_lifetime: (2 * FX_ONE) as i64,
        rotation_speed: 0,
        rotation: 0,
        color: white_spec(),
        emitter_index: 0,
    }
}

impl Default for Particle {
    /// A live particle of unit size, white, with two seconds to live.
    fn default() -> (p: Particle)
        ensures
            p == particle_default_spec(),
    {
        Particle {
            position: Vec3 { x: 0, y: 0, z: 0 },
            velocity: Vec3 { x: 0, y: 0, z: 0 },
            size: FX_ONE,
            alive: true,
            size_modifier: 0,
            lifetime: 0,
            initial_lifetime: 2 * FX_ONE,
            rotation_speed: 0,
            rotation: 0,
            color: Color::white(),
            emitter_index: 0,
        }
    }
}

} // verus!
