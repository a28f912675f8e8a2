use particles::codec::{read_particle, read_range, read_system, write_particle, write_system, ReadError, Token};
use particles::{
    BaseEmitter, BaseEmitterBuilder, BoxEmitterBuilder, Color, ColorGradient, CustomEmitter,
    CustomEmitterFactory, CustomEmitterSource, Emitter, EmitterError, GradientPoint,
    NumericRange, Particle, ParticleSystem, ParticleSystemBuilder, SphereEmitterBuilder,
    TextureHandle, Vec3, FX_ONE,
};

#[derive(Clone, Debug)]
struct NoCustom;

impl CustomEmitter for NoCustom {
    fn kind_spec(&self) -> i32 {
        0
    }

    fn kind(&self) -> i32 {
        0
    }

    fn emit(&self, _base: &BaseEmitter, _particle: &mut Particle) {}
}

struct NoSource;

impl CustomEmitterSource<NoCustom> for NoSource {
    fn construct(&self, _kind: i32) -> Result<NoCustom, EmitterError> {
        Err(EmitterError::CallbackFailed)
    }
}

fn assert_base_eq(a: &BaseEmitter, b: &BaseEmitter) {
    assert_eq!(a.position, b.position);
    assert_eq!(a.particle_spawn_rate, b.particle_spawn_rate);
    assert_eq!(a.max_particles, b.max_particles);
    assert_eq!(a.lifetime, b.lifetime);
    assert_eq!(a.size, b.size);
    assert_eq!(a.size_modifier, b.size_modifier);
    assert_eq!(a.x_velocity, b.x_velocity);
    assert_eq!(a.y_velocity, b.y_velocity);
    assert_eq!(a.z_velocity, b.z_velocity);
    assert_eq!(a.rotation_speed, b.rotation_speed);
    assert_eq!(a.rotation, b.rotation);
    assert_eq!(a.alive_particles, b.alive_particles);
    assert_eq!(a.time, b.time);
    assert_eq!(a.particles_to_spawn, b.particles_to_spawn);
    assert_eq!(a.resurrect_particles, b.resurrect_particles);
    assert_eq!(a.spawned_particles, b.spawned_particles);
}

#[test]
fn system_round_trip_restores_every_field() {
    let box_emitter = BoxEmitterBuilder::new(
        BaseEmitterBuilder::new()
            .with_spawn_rate(40)
            .with_max_particles(64)
            .with_lifetime_range(NumericRange::new(FX_ONE / 10, 2 * FX_ONE)),
    )
    .with_width(FX_ONE)
    .build();
    let sphere_emitter = SphereEmitterBuilder::new(
        BaseEmitterBuilder::new()
            .with_spawn_rate(25)
            .with_lifetime_range(NumericRange::new(FX_ONE, 3 * FX_ONE)),
    )
    .with_radius(FX_ONE / 4)
    .build();
    let mut gradient = ColorGradient::new();
    gradient.add_point(GradientPoint::new(0, Color::from_rgba(150, 150, 150, 0)));
    gradient.add_point(GradientPoint::new(FX_ONE, Color::from_rgba(255, 255, 255, 0)));
    let mut system: ParticleSystem<NoCustom> = ParticleSystemBuilder::new()
        .with_emitters(vec![box_emitter, sphere_emitter])
        .with_texture(TextureHandle { id: 417 })
        .with_color_over_lifetime_gradient(gradient)
        .build();
    // Leave the system mid-flight with live particles and a used free list.
    system.update(FX_ONE);
    system.update(FX_ONE / 3);
    system.update(2 * FX_ONE);
    assert!(system.particles.iter().any(|p| p.alive));

    let mut tokens: Vec<Token> = Vec::new();
    write_system(&system, &mut tokens);
    let factory: CustomEmitterFactory<NoSource> = CustomEmitterFactory::get();
    let (restored, consumed) = read_system(&tokens, 0, &factory).expect("round trip failed");
    assert_eq!(consumed, tokens.len());

    // Pool and free list, bit for bit.
    assert_eq!(restored.particles, system.particles);
    assert_eq!(restored.free_particles, system.free_particles);
    // Emitter kind ids and every base and shape field.
    assert_eq!(restored.emitters.len(), system.emitters.len());
    for (a, b) in restored.emitters.iter().zip(system.emitters.iter()) {
        assert_eq!(a.id(), b.id());
        assert_base_eq(a.base(), b.base());
        match (a, b) {
            (Emitter::Box(x), Emitter::Box(y)) => {
                assert_eq!(x.half_width, y.half_width);
                assert_eq!(x.half_height, y.half_height);
                assert_eq!(x.half_depth, y.half_depth);
            },
            (Emitter::Sphere(x), Emitter::Sphere(y)) => assert_eq!(x.radius, y.radius),
            _ => panic!("emitter shapes differ"),
        }
    }
    // Global state.
    assert_eq!(restored.texture, system.texture);
    assert_eq!(restored.acceleration, system.acceleration);
    let (ra, rb) = (
        restored.color_over_lifetime.as_ref().unwrap(),
        system.color_over_lifetime.as_ref().unwrap(),
    );
    assert_eq!(ra.points, rb.points);
}

#[test]
fn particle_round_trip_is_exact() {
    let mut p = Particle::default();
    p.position = Vec3::new(-5, 6, -7);
    p.velocity = Vec3::new(8, -9, 10);
    p.size = 11;
    p.alive = false;
    p.size_modifier = -12;
    p.lifetime = 13;
    p.initial_lifetime = 14;
    p.rotation_speed = -15;
    p.rotation = 16;
    p.color = Color::from_rgba(1, 2, 3, 4);
    p.emitter_index = 5;
    let mut tokens: Vec<Token> = Vec::new();
    write_particle(&p, &mut tokens);
    assert_eq!(tokens.len(), 20);
    let (restored, consumed) = read_particle(&tokens, 0).unwrap();
    assert_eq!(consumed, 20);
    assert_eq!(restored, p);
}

#[test]
fn range_round_trip_is_exact() {
    let tokens = vec![Token::Signed(-3), Token::Signed(44)];
    let (r, consumed) = read_range(&tokens, 0).unwrap();
    assert_eq!(r, NumericRange::new(-3, 44));
    assert_eq!(consumed, 2);
}

#[test]
fn truncated_run_is_rejected() {
    let p = Particle::default();
    let mut tokens: Vec<Token> = Vec::new();
    write_particle(&p, &mut tokens);
    tokens.pop();
    assert!(read_particle(&tokens, 0).is_err());
}

#[test]
fn wrong_token_kind_is_rejected() {
    let tokens = vec![Token::Signed(1), Token::Flag(true)];
    assert_eq!(read_range(&tokens, 0).unwrap_err(), ReadError::UnexpectedToken);
    let empty: Vec<Token> = Vec::new();
    assert_eq!(read_range(&empty, 0).unwrap_err(), ReadError::UnexpectedEnd);
}

#[test]
fn out_of_range_channel_is_rejected() {
    let p = Particle::default();
    let mut tokens: Vec<Token> = Vec::new();
    write_particle(&p, &mut tokens);
    // Corrupt the red channel (offset: Enter + 3 + 3 + 7 fields).
    tokens[14] = Token::Unsigned(300);
    assert_eq!(read_particle(&tokens, 0).unwrap_err(), ReadError::ValueOutOfRange);
}

#[test]
fn reading_a_custom_kind_without_callback_reports_the_registry_error() {
    let tokens = vec![Token::Enter, Token::Signed(5)];
    let factory: CustomEmitterFactory<NoSource> = CustomEmitterFactory::get();
    let r = particles::codec::read_emitter::<NoCustom, NoSource>(&tokens, 0, &factory);
    assert_eq!(r.unwrap_err(), ReadError::Emitter(EmitterError::NoCallbackRegistered));
}
