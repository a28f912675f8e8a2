use particles::{
    BaseEmitter, BaseEmitterBuilder, BoxEmitter, BoxEmitterBuilder, CustomEmitter,
    CustomEmitterFactory, CustomEmitterSource, Emitter, EmitterError, NumericRange, Particle,
    ParticleLimit, SphereEmitter, SphereEmitterBuilder, Vec3, FX_ONE,
};

#[derive(Clone, Debug)]
struct TaggedEmitter {
    tag: i32,
}

impl CustomEmitter for TaggedEmitter {
    fn kind_spec(&self) -> i32 {
        self.tag
    }

    fn kind(&self) -> i32 {
        self.tag
    }

    fn emit(&self, _base: &BaseEmitter, particle: &mut Particle) {
        particle.position = Vec3::new(7, 7, 7);
    }
}

struct TaggedSource;

impl CustomEmitterSource<TaggedEmitter> for TaggedSource {
    fn construct(&self, kind: i32) -> Result<TaggedEmitter, EmitterError> {
        if kind == 99 {
            Err(EmitterError::CallbackFailed)
        } else {
            Ok(TaggedEmitter { tag: kind })
        }
    }
}

#[test]
fn tick_consumes_whole_spawn_intervals_and_carries_the_rest() {
    let mut base = BaseEmitterBuilder::new().with_spawn_rate(50).build();
    // The spawn interval at 50 per second is 20 ms.
    base.tick(30_000);
    assert_eq!(base.particles_to_spawn, 1);
    assert_eq!(base.time, 10_000);
    assert_eq!(base.spawned_particles, 1);
    base.tick(30_000);
    assert_eq!(base.particles_to_spawn, 2);
    assert_eq!(base.time, 0);
    assert_eq!(base.spawned_particles, 3);
}

#[test]
fn tick_with_zero_rate_spawns_nothing() {
    let mut base = BaseEmitter::default();
    assert_eq!(base.spawn_rate(), 0);
    base.tick(FX_ONE);
    assert_eq!(base.particles_to_spawn, 0);
    assert_eq!(base.spawned_particles, 0);
}

#[test]
fn tick_clamps_to_strict_headroom() {
    let mut base = BaseEmitterBuilder::new()
        .with_spawn_rate(1_000)
        .with_max_particles(30)
        .build();
    base.tick(FX_ONE);
    assert_eq!(base.particles_to_spawn, 30);
}

#[test]
fn builder_defaults_match_the_documented_configuration() {
    let base = BaseEmitterBuilder::new().build();
    assert_eq!(base.spawn_rate(), 25);
    assert!(matches!(base.max_particles(), ParticleLimit::Unlimited));
    assert_eq!(base.life_time_range(), NumericRange::new(5 * FX_ONE, 10 * FX_ONE));
    assert_eq!(base.size_range(), NumericRange::new(125_000, 250_000));
    assert!(base.is_particles_resurrects());
    assert_eq!(base.spawned_particles(), 0);
}

#[test]
fn setters_round_trip_through_getters() {
    let mut base = BaseEmitter::default();
    base.set_spawn_rate(7);
    assert_eq!(base.spawn_rate(), 7);
    base.set_position(Vec3::new(1, 2, 3));
    assert_eq!(base.position(), Vec3::new(1, 2, 3));
    base.set_max_particles(ParticleLimit::Strict(5));
    assert!(matches!(base.max_particles(), ParticleLimit::Strict(5)));
    base.set_life_time_range(NumericRange::new(1, 2));
    assert_eq!(base.life_time_range(), NumericRange::new(1, 2));
    base.set_size_range(NumericRange::new(3, 4));
    assert_eq!(base.size_range(), NumericRange::new(3, 4));
    base.set_size_modifier_range(NumericRange::new(5, 6));
    assert_eq!(base.size_modifier_range(), NumericRange::new(5, 6));
    base.set_x_velocity_range(NumericRange::new(7, 8));
    assert_eq!(base.x_velocity_range(), NumericRange::new(7, 8));
    base.set_y_velocity_range(NumericRange::new(9, 10));
    assert_eq!(base.y_velocity_range(), NumericRange::new(9, 10));
    base.set_z_velocity_range(NumericRange::new(11, 12));
    assert_eq!(base.z_velocity_range(), NumericRange::new(11, 12));
    base.set_rotation_speed_range(NumericRange::new(13, 14));
    assert_eq!(base.rotation_speed_range(), NumericRange::new(13, 14));
    base.set_rotation_range(NumericRange::new(15, 16));
    assert_eq!(base.rotation_range(), NumericRange::new(15, 16));
    base.enable_particle_resurrection(false);
    assert!(!base.is_particles_resurrects());
}

#[test]
fn base_emit_draws_fields_from_the_configured_ranges() {
    let base = BaseEmitterBuilder::new()
        .with_lifetime_range(NumericRange::new(2 * FX_ONE, 3 * FX_ONE))
        .with_size_range(NumericRange::new(100, 200))
        .with_size_modifier_range(NumericRange::new(-5, 5))
        .with_x_velocity_range(NumericRange::new(-10, 10))
        .with_y_velocity_range(NumericRange::new(20, 30))
        .with_z_velocity_range(NumericRange::new(-30, -20))
        .with_rotation_speed_range(NumericRange::new(0, 1))
        .with_rotation_range(NumericRange::new(-1, 1))
        .build();
    for _ in 0..200 {
        let mut p = Particle::default();
        p.lifetime = 123;
        base.emit(&mut p);
        assert_eq!(p.lifetime, 0);
        assert!(p.initial_lifetime >= 2 * FX_ONE && p.initial_lifetime <= 3 * FX_ONE);
        assert!(p.size >= 100 && p.size <= 200);
        assert!(p.size_modifier >= -5 && p.size_modifier <= 5);
        assert!(p.velocity.x >= -10 && p.velocity.x <= 10);
        assert!(p.velocity.y >= 20 && p.velocity.y <= 30);
        assert!(p.velocity.z >= -30 && p.velocity.z <= -20);
        assert!(p.rotation_speed >= 0 && p.rotation_speed <= 1);
        assert!(p.rotation >= -1 && p.rotation <= 1);
        assert_eq!(p.color, particles::Color::white());
    }
}

#[test]
fn box_emit_places_within_the_box() {
    let base = BaseEmitterBuilder::new().with_position(Vec3::new(1_000, 0, -1_000)).build();
    let box_emitter = BoxEmitter::new(base, 200, 400, 600);
    for _ in 0..200 {
        let mut p = Particle::default();
        box_emitter.emit(&mut p);
        assert!(p.position.x >= 900 && p.position.x <= 1_100);
        assert!(p.position.y >= -200 && p.position.y <= 200);
        assert!(p.position.z >= -1_300 && p.position.z <= -700);
    }
}

#[test]
fn sphere_emit_places_within_the_bounding_cube() {
    let sphere = SphereEmitter::new(BaseEmitter::default(), 5_000);
    for _ in 0..200 {
        let mut p = Particle::default();
        sphere.emit(&mut p);
        assert!(p.position.x.abs() <= 5_000);
        assert!(p.position.y.abs() <= 5_000);
        assert!(p.position.z.abs() <= 5_000);
    }
}

#[test]
fn emitter_ids_name_the_shapes() {
    let bx: Emitter<TaggedEmitter> =
        BoxEmitterBuilder::new(BaseEmitterBuilder::new()).build();
    let sp: Emitter<TaggedEmitter> =
        SphereEmitterBuilder::new(BaseEmitterBuilder::new()).build();
    assert_eq!(bx.id(), -2);
    assert_eq!(sp.id(), -3);
    let custom = Emitter::Custom(BaseEmitter::default(), TaggedEmitter { tag: 12 });
    assert_eq!(custom.id(), 12);
}

#[test]
fn emitter_new_builds_the_reserved_shapes() {
    let factory: CustomEmitterFactory<TaggedSource> = CustomEmitterFactory::get();
    let unknown = Emitter::<TaggedEmitter>::new(-1, &factory).unwrap();
    assert!(matches!(unknown, Emitter::Unknown));
    let bx = Emitter::<TaggedEmitter>::new(-2, &factory).unwrap();
    assert!(matches!(bx, Emitter::Box(_)));
    let sp = Emitter::<TaggedEmitter>::new(-3, &factory).unwrap();
    assert!(matches!(sp, Emitter::Sphere(_)));
}

#[test]
fn emitter_new_rejects_unassigned_reserved_ids() {
    let factory: CustomEmitterFactory<TaggedSource> = CustomEmitterFactory::get();
    let r = Emitter::<TaggedEmitter>::new(-4, &factory);
    assert_eq!(r.unwrap_err(), EmitterError::UnknownBuiltInKind);
}

#[test]
fn spawn_without_callback_is_refused() {
    let factory: CustomEmitterFactory<TaggedSource> = CustomEmitterFactory::get();
    let r = Emitter::<TaggedEmitter>::new(3, &factory);
    assert_eq!(r.unwrap_err(), EmitterError::NoCallbackRegistered);
}

#[test]
fn spawn_with_callback_constructs_the_kind() {
    let mut factory: CustomEmitterFactory<TaggedSource> = CustomEmitterFactory::get();
    factory.set_callback(TaggedSource);
    let em = Emitter::<TaggedEmitter>::new(3, &factory).unwrap();
    assert_eq!(em.id(), 3);
    let failed = Emitter::<TaggedEmitter>::new(99, &factory);
    assert_eq!(failed.unwrap_err(), EmitterError::CallbackFailed);
}

#[test]
fn box_builder_halves_the_extents() {
    let em: Emitter<TaggedEmitter> = BoxEmitterBuilder::new(BaseEmitterBuilder::new())
        .with_width(100)
        .with_height(300)
        .with_depth(501)
        .build();
    match em {
        Emitter::Box(b) => {
            assert_eq!(b.half_width, 50);
            assert_eq!(b.half_height, 150);
            assert_eq!(b.half_depth, 250);
        },
        _ => panic!("expected a box emitter"),
    }
}

#[test]
fn sphere_builder_keeps_the_radius() {
    let em: Emitter<TaggedEmitter> = SphereEmitterBuilder::new(BaseEmitterBuilder::new())
        .with_radius(777)
        .build();
    match em {
        Emitter::Sphere(s) => assert_eq!(s.radius, 777),
        _ => panic!("expected a sphere emitter"),
    }
}

#[test]
fn clone_resets_the_pending_spawn_request() {
    let mut base = BaseEmitterBuilder::new().with_spawn_rate(50).build();
    base.tick(FX_ONE);
    assert!(base.particles_to_spawn > 0);
    let copy = base.clone();
    assert_eq!(copy.particles_to_spawn, 0);
    assert_eq!(copy.spawned_particles, base.spawned_particles);
    assert_eq!(copy.time, base.time);
    assert_eq!(copy.alive_particles, base.alive_particles);
    assert_eq!(copy.lifetime, base.lifetime);
    assert_eq!(copy.position, base.position);
}
