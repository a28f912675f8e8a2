use particles::{
    BaseEmitter, BaseEmitterBuilder, BoxEmitterBuilder, CustomEmitter, DrawData, NumericRange,
    Particle, ParticleSystem, ParticleSystemBuilder, SphereEmitterBuilder, Vec3, FX_ONE,
};

#[derive(Clone, Debug)]
struct NoCustom;

impl CustomEmitter for NoCustom {
    fn kind_spec(&self) -> i32 {
        0
    }

    fn kind(&self) -> i32 {
        0
    }

    fn emit(&self, _base: &BaseEmitter, _particle: &mut Particle) {}
}

fn sqr_dist(a: Vec3, b: Vec3) -> i128 {
    let dx = (a.x - b.x) as i128;
    let dy = (a.y - b.y) as i128;
    let dz = (a.z - b.z) as i128;
    dx * dx + dy * dy + dz * dz
}

#[test]
fn draw_data_emits_one_quad_per_live_particle() {
    let box_emitter = BoxEmitterBuilder::new(
        BaseEmitterBuilder::new()
            .with_spawn_rate(30)
            .with_lifetime_range(NumericRange::new(FX_ONE / 10, 5 * FX_ONE)),
    )
    .build();
    let sphere_emitter = SphereEmitterBuilder::new(
        BaseEmitterBuilder::new()
            .with_spawn_rate(20)
            .with_lifetime_range(NumericRange::new(FX_ONE, 5 * FX_ONE)),
    )
    .with_radius(FX_ONE)
    .build();
    let mut system: ParticleSystem<NoCustom> = ParticleSystemBuilder::new()
        .with_emitters(vec![box_emitter, sphere_emitter])
        .build();
    system.update(FX_ONE);
    system.update(FX_ONE / 2);

    let alive = system.particles.iter().filter(|p| p.alive).count();
    assert!(alive > 0);

    let mut sorted: Vec<u32> = Vec::new();
    let mut draw_data = DrawData::default();
    let camera = Vec3::new(3 * FX_ONE, 0, 0);
    let global = Vec3::new(FX_ONE / 2, 0, 0);
    system.generate_draw_data(&mut sorted, &mut draw_data, &camera, &global);

    assert_eq!(sorted.len(), alive);
    assert_eq!(draw_data.vertices().len(), 4 * alive);
    assert_eq!(draw_data.triangles().len(), 2 * alive);

    // Back to front: squared camera distances never increase.
    for w in sorted.windows(2) {
        let pa = &system.particles[w[0] as usize];
        let pb = &system.particles[w[1] as usize];
        let da = sqr_dist(camera, Vec3::new(pa.position.x + global.x, pa.position.y, pa.position.z));
        let db = sqr_dist(camera, Vec3::new(pb.position.x + global.x, pb.position.y, pb.position.z));
        assert!(da >= db);
    }

    // Each listed slot is live and listed once.
    let mut seen = std::collections::HashSet::new();
    for &idx in sorted.iter() {
        assert!(system.particles[idx as usize].alive);
        assert!(seen.insert(idx));
    }

    // Quad structure: shared particle state, unit-square texture corners,
    // and two triangles over the quad's base offset.
    for (q, &idx) in sorted.iter().enumerate() {
        let p = &system.particles[idx as usize];
        let vs = &draw_data.vertices()[4 * q..4 * q + 4];
        for v in vs {
            assert_eq!(v.position, p.position);
            assert_eq!(v.size, p.size);
            assert_eq!(v.rotation, p.rotation);
            assert_eq!(v.color, p.color);
        }
        assert_eq!((vs[0].tex_coord.x, vs[0].tex_coord.y), (0, 0));
        assert_eq!((vs[1].tex_coord.x, vs[1].tex_coord.y), (FX_ONE, 0));
        assert_eq!((vs[2].tex_coord.x, vs[2].tex_coord.y), (FX_ONE, FX_ONE));
        assert_eq!((vs[3].tex_coord.x, vs[3].tex_coord.y), (0, FX_ONE));
        let base = (4 * q) as u32;
        assert_eq!(draw_data.triangles()[2 * q], particles::TriangleDefinition(base, base + 1, base + 2));
        assert_eq!(draw_data.triangles()[2 * q + 1], particles::TriangleDefinition(base, base + 2, base + 3));
    }
}

#[test]
fn draw_data_is_rebuilt_from_scratch_each_pass() {
    let emitter = BoxEmitterBuilder::new(
        BaseEmitterBuilder::new()
            .with_spawn_rate(10)
            .with_lifetime_range(NumericRange::new(5 * FX_ONE, 5 * FX_ONE)),
    )
    .build();
    let mut system: ParticleSystem<NoCustom> =
        ParticleSystemBuilder::new().with_emitters(vec![emitter]).build();
    system.update(FX_ONE);
    let alive = system.particles.iter().filter(|p| p.alive).count();

    let mut sorted: Vec<u32> = vec![9, 9, 9];
    let mut draw_data = DrawData::default();
    let camera = Vec3::new(0, 0, 0);
    let global = Vec3::new(0, 0, 0);
    system.generate_draw_data(&mut sorted, &mut draw_data, &camera, &global);
    system.generate_draw_data(&mut sorted, &mut draw_data, &camera, &global);
    assert_eq!(sorted.len(), alive);
    assert_eq!(draw_data.vertices().len(), 4 * alive);
    assert_eq!(draw_data.triangles().len(), 2 * alive);
}

#[test]
fn draw_data_of_empty_system_is_empty() {
    let mut system: ParticleSystem<NoCustom> = ParticleSystemBuilder::new().build();
    system.update(FX_ONE);
    let mut sorted: Vec<u32> = Vec::new();
    let mut draw_data = DrawData::default();
    system.generate_draw_data(&mut sorted, &mut draw_data, &Vec3::new(0, 0, 0), &Vec3::new(0, 0, 0));
    assert!(sorted.is_empty());
    assert!(draw_data.vertices().is_empty());
    assert!(draw_data.triangles().is_empty());
}
