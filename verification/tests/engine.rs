use particles::{
    BaseEmitter, BaseEmitterBuilder, BoxEmitterBuilder, CustomEmitter, NumericRange, Particle,
    ParticleSystem, ParticleSystemBuilder, SphereEmitterBuilder, FX_ONE,
};

#[derive(Clone, Debug)]
struct NoCustom;

impl CustomEmitter for NoCustom {
    fn kind_spec(&self) -> i32 {
        0
    }

    fn kind(&self) -> i32 {
        0
    }

    fn emit(&self, _base: &BaseEmitter, _particle: &mut Particle) {}
}

fn sum_counters(system: &ParticleSystem<NoCustom>) -> u64 {
    let mut total: u64 = 0;
    for em in system.emitters.iter() {
        total += em.base().alive_particles as u64;
    }
    total
}

fn count_alive(system: &ParticleSystem<NoCustom>) -> u64 {
    system.particles.iter().filter(|p| p.alive).count() as u64
}

fn two_emitter_system() -> ParticleSystem<NoCustom> {
    let box_emitter = BoxEmitterBuilder::new(
        BaseEmitterBuilder::new()
            .with_spawn_rate(40)
            .with_lifetime_range(NumericRange::new(FX_ONE / 10, FX_ONE / 2)),
    )
    .build();
    let sphere_emitter = SphereEmitterBuilder::new(
        BaseEmitterBuilder::new()
            .with_spawn_rate(25)
            .with_lifetime_range(NumericRange::new(FX_ONE / 4, FX_ONE)),
    )
    .with_radius(FX_ONE / 100)
    .build();
    ParticleSystemBuilder::new()
        .with_emitters(vec![box_emitter, sphere_emitter])
        .build()
}

#[test]
fn counters_match_live_particles_after_any_updates() {
    let mut system = two_emitter_system();
    let steps: [i64; 7] = [
        FX_ONE / 30,
        FX_ONE / 7,
        FX_ONE,
        FX_ONE / 100,
        3 * FX_ONE,
        FX_ONE / 2,
        FX_ONE / 3,
    ];
    for dt in steps {
        system.update(dt);
        assert_eq!(sum_counters(&system), count_alive(&system));
    }
}

#[test]
fn strict_limit_is_never_exceeded_even_under_burst() {
    let emitter = SphereEmitterBuilder::new(
        BaseEmitterBuilder::new()
            .with_spawn_rate(1_000)
            .with_max_particles(10)
            .with_lifetime_range(NumericRange::new(FX_ONE / 10, FX_ONE / 5)),
    )
    .build();
    let mut system: ParticleSystem<NoCustom> =
        ParticleSystemBuilder::new().with_emitters(vec![emitter]).build();
    // A burst far larger than the spawn period, then ordinary frames.
    let steps: [i64; 5] = [5 * FX_ONE, FX_ONE / 60, 10 * FX_ONE, FX_ONE / 60, FX_ONE];
    for dt in steps {
        system.update(dt);
        assert!(system.emitters[0].base().alive_particles <= 10);
        assert!(count_alive(&system) <= 10);
    }
}

#[test]
fn dead_slot_is_reused_before_the_pool_grows() {
    // One particle per second, dying within a tenth of a second.
    let emitter = BoxEmitterBuilder::new(
        BaseEmitterBuilder::new()
            .with_spawn_rate(1)
            .with_lifetime_range(NumericRange::new(FX_ONE / 10, FX_ONE / 10)),
    )
    .build();
    let mut system: ParticleSystem<NoCustom> =
        ParticleSystemBuilder::new().with_emitters(vec![emitter]).build();
    // Spawns one particle, which also dies within this frame.
    system.update(FX_ONE);
    assert_eq!(system.particles.len(), 1);
    assert_eq!(count_alive(&system), 0);
    assert_eq!(system.free_particles.len(), 1);
    // The next spawn reuses the dead slot instead of appending.
    system.update(FX_ONE);
    assert_eq!(system.particles.len(), 1);
}

#[test]
fn exhausted_one_shot_emitter_stays_inert() {
    let emitter = BoxEmitterBuilder::new(
        BaseEmitterBuilder::new()
            .with_spawn_rate(50)
            .with_max_particles(100)
            .resurrect_particles(false)
            .with_lifetime_range(NumericRange::new(FX_ONE / 2, FX_ONE / 2)),
    )
    .build();
    let mut system: ParticleSystem<NoCustom> =
        ParticleSystemBuilder::new().with_emitters(vec![emitter]).build();
    // Three seconds is enough elapsed time to spawn well over 100 particles.
    system.update(3 * FX_ONE);
    assert_eq!(system.emitters[0].base().spawned_particles, 100);
    // All 100 die (their lifetime is half a second), yet spawning never
    // resumes.
    for _ in 0..5 {
        system.update(FX_ONE);
        assert_eq!(system.emitters[0].base().particles_to_spawn, 0);
    }
    assert_eq!(count_alive(&system), 0);
    assert_eq!(system.emitters[0].base().spawned_particles, 100);
}

#[test]
fn update_integrates_motion_deterministically() {
    let emitter = BoxEmitterBuilder::new(
        BaseEmitterBuilder::new()
            .with_spawn_rate(1)
            .with_lifetime_range(NumericRange::new(10 * FX_ONE, 10 * FX_ONE))
            .with_x_velocity_range(NumericRange::new(1_000, 1_000))
            .with_y_velocity_range(NumericRange::new(0, 0))
            .with_z_velocity_range(NumericRange::new(0, 0)),
    )
    .with_width(0)
    .with_height(0)
    .with_depth(0)
    .build();
    let mut system: ParticleSystem<NoCustom> = ParticleSystemBuilder::new()
        .with_emitters(vec![emitter])
        .with_acceleration(particles::Vec3::new(0, 0, 0))
        .build();
    system.update(FX_ONE);
    assert_eq!(count_alive(&system), 1);
    let p = &system.particles[0];
    // Zero acceleration: the particle moved exactly one velocity step.
    assert_eq!(p.velocity.x, 1_000);
    assert_eq!(p.position.x, 1_000);
    assert_eq!(p.lifetime, FX_ONE);
}

#[test]
fn size_is_clamped_at_zero() {
    let emitter = BoxEmitterBuilder::new(
        BaseEmitterBuilder::new()
            .with_spawn_rate(1)
            .with_lifetime_range(NumericRange::new(10 * FX_ONE, 10 * FX_ONE))
            .with_size_range(NumericRange::new(1_000, 1_000))
            .with_size_modifier_range(NumericRange::new(-FX_ONE, -FX_ONE)),
    )
    .build();
    let mut system: ParticleSystem<NoCustom> =
        ParticleSystemBuilder::new().with_emitters(vec![emitter]).build();
    system.update(FX_ONE);
    system.update(FX_ONE);
    assert_eq!(system.particles[0].size, 0);
}
