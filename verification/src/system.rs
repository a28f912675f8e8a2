//! The particle system: the particle pool with its free list, the emitter
//! list, and the per-frame simulation step.

use crate::color::{gradient_eval, white_spec, Color, ColorGradient};
use crate::emitter::{
    tick_spec, BaseEmitter, CustomEmitter, Emitter, ParticleLimit,
};
use crate::math::{
    clamp_nonneg, fx_mul, fx_mul_spec, sat64, sat_add, vec3_add_spec, vec3_scale_spec, Vec3,
    FX_ONE,
};
use crate::particle::Particle;
use vstd::prelude::*;

verus! {

/// An opaque, shared handle to a texture owned by an external resource
/// manager; the engine stores and returns it verbatim.
#[derive(Clone, Copy, Debug, PartialEq, Eq, Structural)]
pub struct TextureHandle {
    /// The resource manager's identifier for the texture.
    pub id: u64,
}

/// How many particles of `ps` are alive and owned by emitter `e`.
pub open spec fn count_alive_for(ps: Seq<Particle>, e: int) -> int
    decreases ps.len(),
{
    if ps.len() == 0 {
        0
    } else {
        count_alive_for(ps.drop_last(), e) + if ps.last().alive && ps.last().emitter_index == e {
            1int
        } else {
            0int
        }
    }
}

/// How many particles of `ps` are alive.
pub open spec fn count_alive(ps: Seq<Particle>) -> int
    decreases ps.len(),
{
    if ps.len() == 0 {
        0
    } else {
        count_alive(ps.drop_last()) + if ps.last().alive {
            1int
        } else {
            0int
        }
    }
}

/// The sum of the emitters' live-particle counters.
pub open spec fn sum_alive_counters<C: CustomEmitter>(emitters: Seq<Emitter<C>>) -> int
    decreases emitters.len(),
{
    if emitters.len() == 0 {
        0
    } else {
        sum_alive_counters(emitters.drop_last()) + emitters.last().base_spec().alive_particles
    }
}

/// Overwriting one slot shifts each per-emitter count by what left and what
/// arrived.
pub proof fn lemma_count_update(ps: Seq<Particle>, j: int, p: Particle, e: int)
    requires
        0 <= j < ps.len(),
    ensures
        count_alive_for(ps.update(j, p), e) == count_alive_for(ps, e) - (if ps[j].alive && ps[
            j
        ].emitter_index == e {
            1int
        } else {
            0int
        }) + (if p.alive && p.emitter_index == e {
            1int
        } else {
            0int
        }),
    decreases ps.len(),
{
    let upd = ps.update(j, p);
    if j == ps.len() - 1 {
        assert(upd.drop_last() =~= ps.drop_last());
        assert(upd.last() == p);
    } else {
        assert(upd.drop_last() =~= ps.drop_last().update(j, p));
        assert(upd.last() == ps.last());
        lemma_count_update(ps.drop_last(), j, p, e);
    }
}

/// Appending a slot raises the owning emitter's count alone.
pub proof fn lemma_count_push(ps: Seq<Particle>, p: Particle, e: int)
    ensures
        count_alive_for(ps.push(p), e) == count_alive_for(ps, e) + (if p.alive && p.emitter_index
            == e {
            1int
        } else {
            0int
        }),
{
    assert(ps.push(p).drop_last() =~= ps);
    assert(ps.push(p).last() == p);
}

/// A live slot owned by emitter `e` makes its count positive.
pub proof fn lemma_count_pos(ps: Seq<Particle>, j: int, e: int)
    requires
        0 <= j < ps.len(),
        ps[j].alive,
        ps[j].emitter_index == e,
    ensures
        count_alive_for(ps, e) >= 1,
    decreases ps.len(),
{
    lemma_count_nonneg(ps.drop_last(), e);
    if j < ps.len() - 1 {
        lemma_count_pos(ps.drop_last(), j, e);
    }
}

/// Counts are never negative.
pub proof fn lemma_count_nonneg(ps: Seq<Particle>, e: int)
    ensures
        count_alive_for(ps, e) >= 0,
    decreases ps.len(),
{
    if ps.len() > 0 {
        lemma_count_nonneg(ps.drop_last(), e);
    }
}

/// The number of live slots never exceeds the pool size.
pub proof fn lemma_count_alive_le_len(ps: Seq<Particle>)
    ensures
        0 <= count_alive(ps) <= ps.len(),
    decreases ps.len(),
{
    if ps.len() > 0 {
        lemma_count_alive_le_len(ps.drop_last());
    }
}

/// The particles every emitter in `[0, n)` can spawn on a tick of `dt`,
/// summed in list order.
pub open spec fn spawn_total_prefix<C: CustomEmitter>(
    emitters: Seq<Emitter<C>>,
    dt: int,
    upto: int,
) -> int
    decreases upto,
{
    if upto <= 0 {
        0
    } else {
        spawn_total_prefix(emitters, dt, upto - 1) + tick_spec(
            emitters[upto - 1].base_spec(),
            dt,
        ).particles_to_spawn
    }
}

/// Prefix spawn totals are nonnegative and grow with the prefix.
pub proof fn lemma_spawn_total_prefix_nonneg<C: CustomEmitter>(
    emitters: Seq<Emitter<C>>,
    dt: int,
    upto: int,
)
    ensures
        spawn_total_prefix(emitters, dt, upto) >= 0,
    decreases upto,
{
    if upto > 0 {
        lemma_spawn_total_prefix_nonneg(emitters, dt, upto - 1);
    }
}

/// A particle system: the pooled particles, the reusable free slots, the
/// emitters, and the global simulation parameters.
#[derive(Clone, Debug)]
pub struct ParticleSystem<C: CustomEmitter> {
    /// The particle pool; dead slots are recycled, never removed.
    pub particles: Vec<Particle>,
    /// Indices of dead pool slots available for reuse.
    pub free_particles: Vec<u32>,
    /// The emitters, in spawn order.
    pub emitters: Vec<Emitter<C>>,
    /// The shared texture handle, stored verbatim.
    pub texture: Option<TextureHandle>,
    /// Acceleration applied to every particle, in units per second squared.
    pub acceleration: Vec3,
    /// The color curve evaluated over each particle's life, if any.
    pub color_over_lifetime: Option<ColorGradient>,
}

impl<C: CustomEmitter> ParticleSystem<C> {
    /// The pool bookkeeping invariant: live slots point at real emitters,
    /// every emitter's counter equals its number of live slots, the free
    /// list holds exactly the dead slots (each once), live slots have
    /// nonnegative lifetimes, and the pool is indexable by `u32`.
    pub open spec fn inv(self) -> bool {
        &&& self.particles@.len() < u32::MAX as int
        &&& forall|j: int|
            0 <= j < self.particles@.len() && self.particles@[j].alive
                ==> (#[trigger] self.particles@[j].emitter_index) < self.emitters@.len()
                && self.particles@[j].lifetime >= 0
        &&& forall|i: int|
            0 <= i < self.emitters@.len()
                ==> (#[trigger] self.emitters@[i].base_spec().alive_particles) as int
                == count_alive_for(self.particles@, i)
        &&& forall|k: int|
            0 <= k < self.free_particles@.len() ==> ((#[trigger] self.free_particles@[k]) as int)
                < self.particles@.len()
        &&& forall|k1: int, k2: int|
            0 <= k1 < k2 < self.free_particles@.len() ==> self.free_particles@[k1]
                != self.free_particles@[k2]
        &&& forall|j: int|
            0 <= j < self.particles@.len()
                ==> ((!(#[trigger] self.particles@[j].alive)) <==> self.free_particles@.contains(
                j as u32,
            ))
    }

    /// Every emitter is a well-formed, non-placeholder shape.
    pub open spec fn emitters_wf(self) -> bool {
        forall|i: int| 0 <= i < self.emitters@.len() ==> (#[trigger] self.emitters@[i]).wf()
    }

    /// The color curve, if set, is well formed.
    pub open spec fn gradient_wf(self) -> bool {
        match self.color_over_lifetime {
            Option::Some(g) => g.wf(),
            Option::None => true,
        }
    }

    /// Appends an emitter to the spawn list.
    pub fn add_emitter(&mut self, emitter: Emitter<C>)
        requires
            emitter.wf(),
            emitter.base_spec().alive_particles == 0,
            old(self).inv(),
            old(self).emitters_wf(),
        ensures
            final(self).emitters@ == old(self).emitters@.push(emitter),
            final(self).particles@ == old(self).particles@,
            final(self).free_particles@ == old(self).free_particles@,
            final(self).texture == old(self).texture,
            final(self).acceleration == old(self).acceleration,
            final(self).color_over_lifetime == old(self).color_over_lifetime,
            final(self).inv(),
            final(self).emitters_wf(),
    {
        proof {
            lemma_count_of_unused(self.particles@, self.emitters@.len() as int);
        }
        self.emitters.push(emitter);
    }

    /// The global particle acceleration.
    pub fn acceleration(&self) -> (r: Vec3)
        ensures
            r == self.acceleration,
    {
        self.acceleration
    }

    /// Sets the global particle acceleration (the "gravity" of the
    /// system).
    pub fn set_acceleration(&mut self, accel: Vec3)
        ensures
            *final(self) == (ParticleSystem { acceleration: accel, ..*old(self) }),
    {
        self.acceleration = accel;
    }

    /// Sets the color curve evaluated over each particle's life.
    pub fn set_color_over_lifetime_gradient(&mut self, gradient: ColorGradient)
        requires
            gradient.wf(),
        ensures
            *final(self) == (ParticleSystem {
                color_over_lifetime: Some(gradient),
                ..*old(self)
            }),
            final(self).gradient_wf(),
    {
        self.color_over_lifetime = Some(gradient);
    }

    /// Sets the shared texture handle.
    pub fn set_texture(&mut self, texture: TextureHandle)
        ensures
            *final(self) == (ParticleSystem { texture: Some(texture), ..*old(self) }),
    {
        self.texture = Some(texture);
    }

    /// The shared texture handle, if any.
    pub fn texture(&self) -> (r: Option<TextureHandle>)
        ensures
            r == self.texture,
    {
        self.texture
    }
}

/// A slot count for an emitter index past the end of the list is zero as
/// long as live slots point into the list.
pub proof fn lemma_count_of_unused(ps: Seq<Particle>, e: int)
    requires
        forall|j: int|
            0 <= j < ps.len() && ps[j].alive ==> (#[trigger] ps[j].emitter_index) as int != e,
    ensures
        count_alive_for(ps, e) == 0,
    decreases ps.len(),
{
    if ps.len() > 0 {
        assert(ps.drop_last() =~= ps.take(ps.len() - 1));
        assert(forall|j: int|
            0 <= j < ps.drop_last().len() ==> ps.drop_last()[j] == ps[j]);
        lemma_count_of_unused(ps.drop_last(), e);
    }
}

/// A per-emitter count never exceeds the pool size.
pub proof fn lemma_count_le_len(ps: Seq<Particle>, e: int)
    ensures
        0 <= count_alive_for(ps, e) <= ps.len(),
    decreases ps.len(),
{
    if ps.len() > 0 {
        lemma_count_le_len(ps.drop_last(), e);
    }
}

/// The fraction of its life a particle has lived, in millionths.
pub open spec fn life_fraction_spec(l: int, init: int) -> int
    recommends
        0 <= l < init,
{
    (l * 1_000_000) / init
}

fn life_fraction(l: i64, init: i64) -> (r: i64)
    requires
        0 <= l < init,
    ensures
        r as int == life_fraction_spec(l as int, init as int),
        0 <= r <= FX_ONE,
{
    let num: u128 = (l as u128) * 1_000_000;
    let q: u128 = num / (init as u128);
    proof {
        let li = l as int;
        let ii = init as int;
        assert(0 <= (li * 1_000_000) / ii <= 1_000_000) by (nonlinear_arith)
            requires
                0 <= li < ii,
        ;
    }
    q as i64
}

/// The dead form of a particle: the slot keeps its last state, marked dead
/// with its lifetime clamped to the total.
pub open spec fn died_spec(p: Particle) -> Particle {
    Particle { alive: false, lifetime: p.initial_lifetime, ..p }
}

/// How one frame of `dt` microseconds transforms a particle that survives
/// it: age, accelerate, move, grow, rotate, recolor.
pub open spec fn integrate_spec(
    p: Particle,
    acc_off: Vec3,
    dt: int,
    gradient: Option<ColorGradient>,
) -> Particle {
    let new_lt = sat64(p.lifetime + dt) as i64;
    let vel = vec3_add_spec(p.velocity, acc_off);
    let sz = sat64(p.size + fx_mul_spec(p.size_modifier as int, dt));
    Particle {
        lifetime: new_lt,
        velocity: vel,
        position: vec3_add_spec(p.position, vel),
        size: (if sz >= 0 {
            sz
        } else {
            0
        }) as i64,
        rotation: sat64(p.rotation + fx_mul_spec(p.rotation_speed as int, dt)) as i64,
        color: match gradient {
            Option::Some(g) => gradient_eval(
                g.points@,
                life_fraction_spec(new_lt as int, p.initial_lifetime as int),
            ),
            Option::None => white_spec(),
        },
        ..p
    }
}

/// The fields the aging pass never touches, each within the owning
/// base's range.
pub open spec fn stable_ranges(e: BaseEmitter, q: Particle) -> bool {
    &&& e.lifetime.min <= q.initial_lifetime <= e.lifetime.max
    &&& e.size_modifier.min <= q.size_modifier <= e.size_modifier.max
    &&& e.rotation_speed.min <= q.rotation_speed <= e.rotation_speed.max
}

/// What holds of a slot just filled by a spawn, before the aging pass:
/// alive, zero lifetime, stamped with a real emitter, and — for the
/// built-in shapes, whose placement the engine controls — every
/// randomized field drawn from the owning emitter's ranges.
pub open spec fn fresh_spawn_post<C: CustomEmitter>(
    emitters0: Seq<Emitter<C>>,
    q: Particle,
) -> bool {
    let e = q.emitter_index as int;
    &&& q.alive
    &&& q.lifetime == 0
    &&& 0 <= e < emitters0.len()
    &&& (emitters0[e] matches Emitter::Box(b) ==> crate::emitter::emitted_fields_post(
        b.emitter,
        q,
    ))
    &&& (emitters0[e] matches Emitter::Sphere(sp) ==> crate::emitter::emitted_fields_post(
        sp.emitter,
        q,
    ))
}

/// What remains of a freshly spawned slot once the same frame has aged
/// it: stamped with a real emitter and aged exactly once — still alive at
/// lifetime `dt`, or dead at its own total, which `dt` then covers — with
/// the untouched fields still in the owning built-in emitter's ranges.
pub open spec fn spawned_slot_post<C: CustomEmitter>(
    emitters0: Seq<Emitter<C>>,
    q: Particle,
    dt: int,
) -> bool {
    let e = q.emitter_index as int;
    &&& 0 <= e < emitters0.len()
    &&& (q.alive ==> q.lifetime == dt)
    &&& (!q.alive ==> q.lifetime == q.initial_lifetime && q.initial_lifetime <= dt)
    &&& (emitters0[e] matches Emitter::Box(b) ==> stable_ranges(b.emitter, q))
    &&& (emitters0[e] matches Emitter::Sphere(sp) ==> stable_ranges(sp.emitter, q))
}

/// The same emitter with its live-particle counter shifted by `d`.
pub open spec fn bump_alive_of<C: CustomEmitter>(em: Emitter<C>, d: int) -> Emitter<C> {
    em.with_base(
        BaseEmitter {
            alive_particles: (em.base_spec().alive_particles + d) as u32,
            ..em.base_spec()
        },
    )
}

/// Two emitters that differ at most in their live-particle counter.
pub open spec fn same_but_alive<C: CustomEmitter>(a: Emitter<C>, b: Emitter<C>) -> bool {
    b == bump_alive_of(a, b.base_spec().alive_particles - a.base_spec().alive_particles)
}

impl<C: CustomEmitter> ParticleSystem<C> {
    /// Advances the whole system by one frame of `dt` microseconds.
    ///
    /// Every emitter's spawn accounting ticks; the particles each emitter
    /// is due are spawned into reused free slots first and fresh slots
    /// only when no free slot is left; then every live particle ages and
    /// either dies (returning its slot to the free list) or integrates
    /// its motion, size, rotation and color.
    #[verifier::rlimit(100)]
    pub fn update(&mut self, dt: i64)
        requires
            0 <= dt,
            old(self).inv(),
            old(self).emitters_wf(),
            old(self).gradient_wf(),
            old(self).emitters@.len() <= u32::MAX as int,
            old(self).particles@.len() + spawn_total_prefix(
                old(self).emitters@,
                dt as int,
                old(self).emitters@.len() as int,
            ) < u32::MAX as int,
        ensures
            final(self).inv(),
            final(self).emitters_wf(),
            final(self).gradient_wf(),
            final(self).emitters@.len() == old(self).emitters@.len(),
            final(self).texture == old(self).texture,
            final(self).acceleration == old(self).acceleration,
            final(self).color_over_lifetime == old(self).color_over_lifetime,
            // Spawn accounting follows `tick_spec`; only the live counter may
            // differ from it, bounded by what was spawned and by a strict cap
            // that held before.
            forall|e: int|
                0 <= e < old(self).emitters@.len() ==> {
                    let t = tick_spec(old(self).emitters@[e].base_spec(), dt as int);
                    let fb = (#[trigger] final(self).emitters@[e]).base_spec();
                    &&& final(self).emitters@[e] == old(self).emitters@[e].with_base(
                        BaseEmitter { alive_particles: fb.alive_particles, ..t },
                    )
                    &&& fb.alive_particles <= old(self).emitters@[e].base_spec().alive_particles
                        + t.particles_to_spawn
                    &&& (match old(self).emitters@[e].base_spec().max_particles {
                        ParticleLimit::Strict(cap) => old(
                            self,
                        ).emitters@[e].base_spec().alive_particles <= cap ==> fb.alive_particles
                            <= cap,
                        ParticleLimit::Unlimited => true,
                    })
                },
            // Free slots are reused before the pool grows.
            ({
                let s = spawn_total_prefix(
                    old(self).emitters@,
                    dt as int,
                    old(self).emitters@.len() as int,
                );
                let f = old(self).free_particles@.len() as int;
                final(self).particles@.len() == old(self).particles@.len() + (if s > f {
                    s - f
                } else {
                    0
                })
            }),
            // Slots filled by this call's spawns — the reused tail of the old
            // free list, then the appended ones — end the frame stamped and
            // aged exactly once; untouched dead slots keep their last state.
            ({
                let s = spawn_total_prefix(
                    old(self).emitters@,
                    dt as int,
                    old(self).emitters@.len() as int,
                );
                let f = old(self).free_particles@.len() as int;
                let popped = if s > f {
                    f
                } else {
                    s
                };
                &&& forall|j: int|
                    old(self).particles@.len() <= j < final(self).particles@.len()
                        ==> spawned_slot_post(
                        old(self).emitters@,
                        #[trigger] final(self).particles@[j],
                        dt as int,
                    )
                &&& forall|k: int|
                    f - popped <= k < f ==> spawned_slot_post(
                        old(self).emitters@,
                        final(self).particles@[(#[trigger] old(self).free_particles@[k]) as int],
                        dt as int,
                    )
                &&& forall|j: int|
                    0 <= j < old(self).particles@.len() && !(#[trigger] old(
                        self,
                    ).particles@[j]).alive && !old(self).free_particles@.skip(f - popped).contains(
                        j as u32,
                    ) ==> final(self).particles@[j] == old(self).particles@[j]
            }),
            // A particle alive before the frame either dies exactly when its
            // life runs out, or integrates deterministically.
            forall|j: int|
                0 <= j < old(self).particles@.len() && (#[trigger] old(self).particles@[j]).alive
                    ==> {
                    let p = old(self).particles@[j];
                    let acc_off = vec3_scale_spec(
                        old(self).acceleration,
                        fx_mul_spec(dt as int, dt as int),
                    );
                    if sat64(p.lifetime + dt) >= p.initial_lifetime {
                        final(self).particles@[j] == died_spec(p)
                    } else {
                        final(self).particles@[j] == integrate_spec(
                            p,
                            acc_off,
                            dt as int,
                            old(self).color_over_lifetime,
                        )
                    }
                },
    {
        let ghost em0 = self.emitters@;
        let ghost ps0 = self.particles@;
        let ghost fr0 = self.free_particles@;
        let ghost t0 = self.texture;
        let ghost a0 = self.acceleration;
        let ghost g0 = self.color_over_lifetime;
        let ghost total = spawn_total_prefix(em0, dt as int, em0.len() as int);
        let n = self.emitters.len();

        // Phase 1: tick every emitter and record what each one is due.
        let mut counts: Vec<u32> = Vec::new();
        let mut i: usize = 0;
        while i < n
            invariant
                0 <= dt,
                i <= n,
                n == self.emitters@.len(),
                n == em0.len(),
                counts@.len() == i,
                self.particles@ == ps0,
                self.free_particles@ == fr0,
                self.texture == t0,
                self.acceleration == a0,
                self.color_over_lifetime == g0,
                forall|e: int| i <= e < n ==> #[trigger] self.emitters@[e] == em0[e],
                forall|e: int|
                    0 <= e < i ==> #[trigger] self.emitters@[e] == em0[e].with_base(
                        tick_spec(em0[e].base_spec(), dt as int),
                    ),
                forall|e: int|
                    0 <= e < i ==> (#[trigger] counts@[e]) == tick_spec(
                        em0[e].base_spec(),
                        dt as int,
                    ).particles_to_spawn,
                forall|e: int| 0 <= e < n ==> (#[trigger] self.emitters@[e]).wf(),
                forall|e: int|
                    0 <= e < n ==> (#[trigger] self.emitters@[e]).base_spec().alive_particles
                        == em0[e].base_spec().alive_particles,
                forall|e: int| 0 <= e < n ==> (#[trigger] em0[e]).wf(),
                self.inv(),
            decreases n - i,
        {
            let em = &mut self.emitters[i];
            em.tick(dt);
            proof {
                let ib = i as int;
                assert(self.emitters@[ib] == em0[ib].with_base(
                    tick_spec(em0[ib].base_spec(), dt as int),
                ));
                assert(self.emitters@[ib].base_spec() == tick_spec(
                    em0[ib].base_spec(),
                    dt as int,
                ));
                assert(self.emitters@[ib].wf());
            }
            let c = self.emitters[i].base().particles_to_spawn;
            counts.push(c);
            i = i + 1;
        }

        // Phase 2: spawn what each emitter is due, reusing free slots first.
        let ghost em1 = self.emitters@;
        let f0: usize = self.free_particles.len();
        proof {
            assert(fr0.take(f0 as int) =~= fr0);
            lemma_spawn_total_prefix_nonneg(em0, dt as int, n as int);
        }
        let mut i: usize = 0;
        while i < n
            invariant
                0 <= dt,
                i <= n,
                n == self.emitters@.len(),
                n == em0.len(),
                n == em1.len(),
                n as int <= u32::MAX as int,
                counts@.len() == n,
                f0 == fr0.len(),
                self.texture == t0,
                self.acceleration == a0,
                self.color_over_lifetime == g0,
                total == spawn_total_prefix(em0, dt as int, n as int),
                ps0.len() + total < u32::MAX as int,
                forall|e: int|
                    0 <= e < n ==> #[trigger] em1[e] == em0[e].with_base(
                        tick_spec(em0[e].base_spec(), dt as int),
                    ),
                forall|e: int|
                    0 <= e < n ==> (#[trigger] counts@[e]) == tick_spec(
                        em0[e].base_spec(),
                        dt as int,
                    ).particles_to_spawn,
                forall|e: int| 0 <= e < n ==> (#[trigger] self.emitters@[e]).wf(),
                forall|e: int|
                    0 <= e < n ==> {
                        let d = if e < i {
                            counts@[e] as int
                        } else {
                            0
                        };
                        &&& #[trigger] self.emitters@[e] == bump_alive_of(em1[e], d)
                        &&& em1[e].base_spec().alive_particles + d <= u32::MAX as int
                    },
                ({
                    let done = spawn_total_prefix(em0, dt as int, i as int);
                    let popped = if done > f0 as int {
                        f0 as int
                    } else {
                        done
                    };
                    &&& self.free_particles@ == fr0.take(f0 - popped)
                    &&& self.particles@.len() == ps0.len() + (done - popped)
                    &&& 0 <= done <= total
                    &&& forall|kk: int|
                        0 <= kk < f0 as int ==> ((#[trigger] fr0[kk]) as int) < ps0.len()
                    &&& forall|k1: int, k2: int|
                        0 <= k1 < k2 < f0 as int ==> fr0[k1] != fr0[k2]
                    &&& forall|j: int|
                        ps0.len() <= j < self.particles@.len() ==> fresh_spawn_post(
                            em0,
                            #[trigger] self.particles@[j],
                        )
                    &&& forall|kk: int|
                        f0 as int - popped <= kk < f0 as int ==> fresh_spawn_post(
                            em0,
                            self.particles@[(#[trigger] fr0[kk]) as int],
                        )
                    &&& forall|j: int|
                        0 <= j < ps0.len() && !(#[trigger] ps0[j]).alive && !fr0.skip(
                            f0 as int - popped,
                        ).contains(j as u32) ==> self.particles@[j] == ps0[j]
                }),
                forall|j: int|
                    0 <= j < ps0.len() && (#[trigger] ps0[j]).alive ==> self.particles@[j] == ps0[
                        j
                    ],
                self.inv(),
            decreases n - i,
        {
            let pts = counts[i];
            proof {
                lemma_spawn_total_prefix_nonneg(em0, dt as int, i as int);
                lemma_spawn_total_prefix_step_bound(em0, dt as int, i as int, n as int);
            }
            let mut k: u32 = 0;
            while k < pts
                invariant
                    0 <= dt,
                    i < n,
                    k <= pts,
                    n == self.emitters@.len(),
                    n == em0.len(),
                    n == em1.len(),
                    n as int <= u32::MAX as int,
                    counts@.len() == n,
                    f0 == fr0.len(),
                    pts == counts@[i as int],
                    self.texture == t0,
                    self.acceleration == a0,
                    self.color_over_lifetime == g0,
                    total == spawn_total_prefix(em0, dt as int, n as int),
                    ps0.len() + total < u32::MAX as int,
                    forall|e: int|
                        0 <= e < n ==> #[trigger] em1[e] == em0[e].with_base(
                            tick_spec(em0[e].base_spec(), dt as int),
                        ),
                    forall|e: int|
                        0 <= e < n ==> (#[trigger] counts@[e]) == tick_spec(
                            em0[e].base_spec(),
                            dt as int,
                        ).particles_to_spawn,
                    forall|e: int| 0 <= e < n ==> (#[trigger] self.emitters@[e]).wf(),
                    forall|e: int|
                        0 <= e < n ==> {
                            let d = if e < i {
                                counts@[e] as int
                            } else if e == i {
                                k as int
                            } else {
                                0
                            };
                            &&& #[trigger] self.emitters@[e] == bump_alive_of(em1[e], d)
                            &&& em1[e].base_spec().alive_particles + d <= u32::MAX as int
                        },
                    ({
                        let done = spawn_total_prefix(em0, dt as int, i as int) + k as int;
                        let popped = if done > f0 as int {
                            f0 as int
                        } else {
                            done
                        };
                        &&& self.free_particles@ == fr0.take(f0 - popped)
                        &&& self.particles@.len() == ps0.len() + (done - popped)
                        &&& 0 <= done <= total
                        &&& forall|kk: int|
                            0 <= kk < f0 as int ==> ((#[trigger] fr0[kk]) as int) < ps0.len()
                        &&& forall|k1: int, k2: int|
                            0 <= k1 < k2 < f0 as int ==> fr0[k1] != fr0[k2]
                        &&& forall|j: int|
                            ps0.len() <= j < self.particles@.len() ==> fresh_spawn_post(
                                em0,
                                #[trigger] self.particles@[j],
                            )
                        &&& forall|kk: int|
                            f0 as int - popped <= kk < f0 as int ==> fresh_spawn_post(
                                em0,
                                self.particles@[(#[trigger] fr0[kk]) as int],
                            )
                        &&& forall|j: int|
                            0 <= j < ps0.len() && !(#[trigger] ps0[j]).alive && !fr0.skip(
                                f0 as int - popped,
                            ).contains(j as u32) ==> self.particles@[j] == ps0[j]
                    }),
                    forall|j: int|
                        0 <= j < ps0.len() && (#[trigger] ps0[j]).alive ==> self.particles@[j]
                            == ps0[j],
                    self.inv(),
                decreases pts - k,
            {
                proof {
                    lemma_spawn_total_prefix_nonneg(em0, dt as int, i as int);
                    lemma_spawn_total_prefix_step_bound(em0, dt as int, i as int, n as int);
                }
                let mut particle = Particle::default();
                let em_ref = &self.emitters[i];
                em_ref.emit(&mut particle);
                particle.alive = true;
                particle.lifetime = 0;
                particle.emitter_index = i as u32;
                proof {
                    lemma_count_le_len(self.particles@, i as int);
                    let ib = i as int;
                    assert(self.emitters@[ib] == bump_alive_of(em1[ib], k as int));
                    assert(em1[ib] == em0[ib].with_base(
                        tick_spec(em0[ib].base_spec(), dt as int),
                    ));
                    assert(fresh_spawn_post(em0, particle));
                }
                let em = &mut self.emitters[i];
                em.incr_alive();
                proof {
                    let ib = i as int;
                    assert(!em1[ib].is_unknown());
                    assert(em1[ib].base_spec().alive_particles + k as int + 1 <= u32::MAX as int);
                    assert(self.emitters@[ib] == bump_alive_of(em1[ib], k as int + 1));
                }
                let ghost fr_before = self.free_particles@;
                let ghost ps_before = self.particles@;
                match self.free_particles.pop() {
                    Some(free_index) => {
                        proof {
                            assert(fr_before.last() == free_index);
                            assert(fr_before.contains(free_index));
                            assert(!ps_before[free_index as int].alive);
                            lemma_count_update(
                                ps_before,
                                free_index as int,
                                particle,
                                i as int,
                            );
                            assert forall|e: int| 0 <= e < n implies count_alive_for(
                                ps_before.update(free_index as int, particle),
                                e,
                            ) == count_alive_for(ps_before, e) + (if e == i as int {
                                1int
                            } else {
                                0int
                            }) by {
                                lemma_count_update(ps_before, free_index as int, particle, e);
                            }
                        }
                        let slot = &mut self.particles[free_index as usize];
                        *slot = particle;
                        proof {
                            let done_prev = spawn_total_prefix(em0, dt as int, i as int)
                                + k as int;
                            assert(fr_before == fr0.take(f0 - done_prev));
                            assert(self.free_particles@ =~= fr0.take(f0 - done_prev - 1));
                            assert forall|j: int|
                                0 <= j < self.particles@.len() implies ((!(
                            #[trigger] self.particles@[j].alive)) <==> self.free_particles@.contains(
                                j as u32,
                            )) by {
                                if j == free_index as int {
                                    assert(self.particles@[j].alive);
                                    if self.free_particles@.contains(j as u32) {
                                        let m = choose|m: int|
                                            0 <= m < self.free_particles@.len()
                                                && self.free_particles@[m] == j as u32;
                                        assert(fr_before[m] == j as u32);
                                        assert(fr_before[fr_before.len() - 1] == j as u32);
                                        assert(false);
                                    }
                                } else {
                                    if !self.particles@[j].alive {
                                        assert(!ps_before[j].alive);
                                        assert(fr_before.contains(j as u32));
                                        let m = choose|m: int|
                                            0 <= m < fr_before.len() && fr_before[m] == j as u32;
                                        assert(m < fr_before.len() - 1);
                                        assert(self.free_particles@[m] == j as u32);
                                    } else {
                                        if self.free_particles@.contains(j as u32) {
                                            let m = choose|m: int|
                                                0 <= m < self.free_particles@.len()
                                                    && self.free_particles@[m] == j as u32;
                                            assert(fr_before[m] == j as u32);
                                            assert(fr_before.contains(j as u32));
                                            assert(!ps_before[j].alive);
                                            assert(false);
                                        }
                                    }
                                }
                            }
                            let done_new = done_prev + 1;
                            assert(free_index == fr0[f0 as int - done_new]);
                            assert(self.particles@[free_index as int] == particle);
                            assert(forall|j: int|
                                0 <= j < self.particles@.len() && j != free_index as int
                                    ==> self.particles@[j] == ps_before[j]);
                            assert forall|kk: int|
                                f0 as int - done_new <= kk < f0 as int implies fresh_spawn_post(
                                em0,
                                self.particles@[(#[trigger] fr0[kk]) as int],
                            ) by {
                                if kk == f0 as int - done_new {
                                    assert(self.particles@[fr0[kk] as int] == particle);
                                } else {
                                    assert(fr0[kk] != free_index);
                                    assert(self.particles@[fr0[kk] as int] == ps_before[fr0[
                                        kk
                                    ] as int]);
                                }
                            }
                            assert forall|j: int|
                                0 <= j < ps0.len() && !ps0[j].alive && !fr0.skip(
                                    f0 as int - done_new,
                                ).contains(j as u32) implies self.particles@[j] == ps0[j] by {
                                assert(fr0.skip(f0 as int - done_new)[0] == free_index);
                                assert(fr0.skip(f0 as int - done_new).contains(free_index));
                                assert(j as u32 != free_index);
                                if fr0.skip(f0 as int - done_prev).contains(j as u32) {
                                    let w = choose|w: int|
                                        0 <= w < fr0.skip(f0 as int - done_prev).len()
                                            && #[trigger] fr0.skip(f0 as int - done_prev)[w] == j
                                            as u32;
                                    assert(fr0.skip(f0 as int - done_new)[w + 1] == j as u32);
                                    assert(false);
                                }
                            }
                        }
                    },
                    None => {
                        proof {
                            assert(fr_before.len() == 0);
                            assert forall|e: int| 0 <= e < n implies count_alive_for(
                                ps_before.push(particle),
                                e,
                            ) == count_alive_for(ps_before, e) + (if e == i as int {
                                1int
                            } else {
                                0int
                            }) by {
                                lemma_count_push(ps_before, particle, e);
                            }
                        }
                        self.particles.push(particle);
                        proof {
                            assert(self.free_particles@ =~= fr0.take(0));
                            assert(forall|j: int|
                                0 <= j < ps_before.len() ==> self.particles@[j] == ps_before[j]);
                            assert(self.particles@[self.particles@.len() - 1] == particle);
                            assert forall|j: int|
                                0 <= j < self.particles@.len() implies ((!(
                            #[trigger] self.particles@[j].alive)) <==> self.free_particles@.contains(
                                j as u32,
                            )) by {
                                if j < self.particles@.len() - 1 {
                                    assert(self.particles@[j] == ps_before[j]);
                                }
                            }
                        }
                    },
                }
                proof {
                    assert(self.particles@.len() < u32::MAX as int);
                    assert(forall|j: int|
                        0 <= j < self.particles@.len() && self.particles@[j].alive ==> (
                        #[trigger] self.particles@[j].emitter_index) < self.emitters@.len()
                            && self.particles@[j].lifetime >= 0);
                    assert(forall|i2: int|
                        0 <= i2 < self.emitters@.len() ==> (
                        #[trigger] self.emitters@[i2].base_spec().alive_particles) as int
                            == count_alive_for(self.particles@, i2));
                    assert(forall|kx: int|
                        0 <= kx < self.free_particles@.len() ==> ((
                        #[trigger] self.free_particles@[kx]) as int) < self.particles@.len());
                    assert(forall|k1: int, k2: int|
                        0 <= k1 < k2 < self.free_particles@.len() ==> self.free_particles@[k1]
                            != self.free_particles@[k2]);
                    assert(forall|j: int|
                        0 <= j < self.particles@.len() ==> ((!(
                        #[trigger] self.particles@[j].alive))
                            <==> self.free_particles@.contains(j as u32)));
                }
                k = k + 1;
            }
            i = i + 1;
        }

        // Phase 3: age every particle; the dead return their slots.
        let ghost ps2 = self.particles@;
        let ghost em2 = self.emitters@;
        let acc_off = self.acceleration.scale(fx_mul(dt, dt));
        let m = self.particles.len();
        let mut j: usize = 0;
        while j < m
            invariant
                0 <= dt,
                j <= m,
                m == self.particles@.len(),
                m == ps2.len(),
                n == self.emitters@.len(),
                n == em2.len(),
                self.texture == t0,
                self.acceleration == a0,
                self.color_over_lifetime == g0,
                self.gradient_wf(),
                acc_off == vec3_scale_spec(a0, fx_mul_spec(dt as int, dt as int)),
                forall|e: int| 0 <= e < n ==> (#[trigger] self.emitters@[e]).wf(),
                forall|e: int|
                    0 <= e < n ==> same_but_alive(em2[e], #[trigger] self.emitters@[e]),
                forall|e: int|
                    0 <= e < n ==> (#[trigger] self.emitters@[e]).base_spec().alive_particles
                        <= em2[e].base_spec().alive_particles,
                forall|q: int| j <= q < m ==> #[trigger] self.particles@[q] == ps2[q],
                forall|q: int|
                    0 <= q < j ==> #[trigger] self.particles@[q] == (if ps2[q].alive {
                        if sat64(ps2[q].lifetime + dt) >= ps2[q].initial_lifetime {
                            died_spec(ps2[q])
                        } else {
                            integrate_spec(ps2[q], acc_off, dt as int, g0)
                        }
                    } else {
                        ps2[q]
                    }),
                self.inv(),
            decreases m - j,
        {
            let p_read = self.particles[j];
            if p_read.alive {
                let mut p = p_read;
                let new_lt = sat_add(p.lifetime, dt);
                p.lifetime = new_lt;
                if p.lifetime >= p.initial_lifetime {
                    let ghost fr_before = self.free_particles@;
                    let ghost ps_before = self.particles@;
                    self.free_particles.push(j as u32);
                    let idx = p.emitter_index as usize;
                    if idx < self.emitters.len() {
                        proof {
                            lemma_count_pos(self.particles@, j as int, idx as int);
                        }
                        let em = &mut self.emitters[idx];
                        em.decr_alive();
                    } else {
                        proof {
                            assert(false);
                        }
                    }
                    p.alive = false;
                    p.lifetime = p.initial_lifetime;
                    proof {
                        assert forall|e: int| 0 <= e < n implies count_alive_for(
                            ps_before.update(j as int, p),
                            e,
                        ) == count_alive_for(ps_before, e) - (if e == idx as int {
                            1int
                        } else {
                            0int
                        }) by {
                            lemma_count_update(ps_before, j as int, p, e);
                        }
                    }
                    let slot = &mut self.particles[j];
                    *slot = p;
                    proof {
                        assert forall|q: int|
                            0 <= q < self.particles@.len() implies ((!(
                        #[trigger] self.particles@[q].alive)) <==> self.free_particles@.contains(
                            q as u32,
                        )) by {
                            if q != j as int {
                                assert(self.particles@[q] == ps_before[q]);
                                assert(self.free_particles@ == fr_before.push(j as u32));
                                if !self.particles@[q].alive {
                                    assert(fr_before.contains(q as u32));
                                    let w = choose|w: int|
                                        0 <= w < fr_before.len() && fr_before[w] == q as u32;
                                    assert(self.free_particles@[w] == q as u32);
                                } else {
                                    if self.free_particles@.contains(q as u32) {
                                        let w = choose|w: int|
                                            0 <= w < self.free_particles@.len()
                                                && self.free_particles@[w] == q as u32;
                                        assert(w < fr_before.len());
                                        assert(fr_before[w] == q as u32);
                                        assert(false);
                                    }
                                }
                            } else {
                                assert(self.free_particles@[fr_before.len() as int] == j as u32);
                            }
                        }
                    }
                } else {
                    p.velocity = p.velocity.add_sat(acc_off);
                    p.position = p.position.add_sat(p.velocity);
                    p.size = clamp_nonneg(sat_add(p.size, fx_mul(p.size_modifier, dt)));
                    p.rotation = sat_add(p.rotation, fx_mul(p.rotation_speed, dt));
                    match &self.color_over_lifetime {
                        Some(g) => {
                            let frac = life_fraction(p.lifetime, p.initial_lifetime);
                            p.color = g.get_color(frac);
                        },
                        None => {
                            p.color = Color::white();
                        },
                    }
                    let ghost ps_before = self.particles@;
                    proof {
                        assert forall|e: int| 0 <= e < n implies count_alive_for(
                            ps_before.update(j as int, p),
                            e,
                        ) == count_alive_for(ps_before, e) by {
                            lemma_count_update(ps_before, j as int, p, e);
                        }
                    }
                    let slot = &mut self.particles[j];
                    *slot = p;
                }
            }
            j = j + 1;
        }
        proof {
            lemma_spawn_total_prefix_nonneg(em0, dt as int, n as int);
            let f_ = f0 as int;
            let popped = if total > f_ {
                f_
            } else {
                total
            };
            assert forall|j: int|
                ps0.len() <= j < self.particles@.len() implies spawned_slot_post(
                em0,
                #[trigger] self.particles@[j],
                dt as int,
            ) by {
                assert(fresh_spawn_post(em0, ps2[j]));
            }
            assert forall|kk: int|
                f_ - popped <= kk < f_ implies spawned_slot_post(
                em0,
                self.particles@[(#[trigger] fr0[kk]) as int],
                dt as int,
            ) by {
                let sl = fr0[kk] as int;
                assert(fresh_spawn_post(em0, ps2[sl]));
            }
            assert forall|j: int|
                0 <= j < ps0.len() && !(#[trigger] ps0[j]).alive && !fr0.skip(f_ - popped).contains(
                    j as u32,
                ) implies self.particles@[j] == ps0[j] by {
                assert(ps2[j] == ps0[j]);
                assert(!ps2[j].alive);
            }
        }
    }
}

/// Summing nonnegative terms: a prefix total never exceeds the whole, and
/// one step adds the next emitter's due count.
pub proof fn lemma_spawn_total_prefix_step_bound<C: CustomEmitter>(
    emitters: Seq<Emitter<C>>,
    dt: int,
    i: int,
    n: int,
)
    requires
        0 <= i < n,
    ensures
        spawn_total_prefix(emitters, dt, i) + tick_spec(
            emitters[i].base_spec(),
            dt,
        ).particles_to_spawn <= spawn_total_prefix(emitters, dt, n),
    decreases n - i,
{
    if i + 1 == n {
    } else {
        lemma_spawn_total_prefix_step_bound(emitters, dt, i, n - 1);
    }
}


/// How many particles of `ps` are alive and owned by an emitter with index
/// below `n`.
pub open spec fn count_alive_below(ps: Seq<Particle>, n: int) -> int
    decreases ps.len(),
{
    if ps.len() == 0 {
        0
    } else {
        count_alive_below(ps.drop_last(), n) + if ps.last().alive && (ps.last().emitter_index
            as int) < n {
            1int
        } else {
            0int
        }
    }
}

proof fn lemma_below_zero(ps: Seq<Particle>)
    ensures
        count_alive_below(ps, 0) == 0,
    decreases ps.len(),
{
    if ps.len() > 0 {
        lemma_below_zero(ps.drop_last());
    }
}

proof fn lemma_below_step(ps: Seq<Particle>, n: int)
    requires
        n >= 1,
    ensures
        count_alive_below(ps, n) == count_alive_below(ps, n - 1) + count_alive_for(ps, n - 1),
    decreases ps.len(),
{
    if ps.len() > 0 {
        lemma_below_step(ps.drop_last(), n);
    }
}

proof fn lemma_below_full(ps: Seq<Particle>, n: int)
    requires
        forall|j: int|
            0 <= j < ps.len() && (#[trigger] ps[j]).alive ==> (ps[j].emitter_index as int) < n,
    ensures
        count_alive_below(ps, n) == count_alive(ps),
    decreases ps.len(),
{
    if ps.len() > 0 {
        assert(forall|j: int| 0 <= j < ps.drop_last().len() ==> ps.drop_last()[j] == ps[j]);
        lemma_below_full(ps.drop_last(), n);
    }
}

proof fn lemma_sum_helper<C: CustomEmitter>(ps: Seq<Particle>, em: Seq<Emitter<C>>)
    requires
        forall|i: int|
            0 <= i < em.len() ==> ((#[trigger] em[i]).base_spec().alive_particles as int)
                == count_alive_for(ps, i),
    ensures
        sum_alive_counters(em) == count_alive_below(ps, em.len() as int),
    decreases em.len(),
{
    if em.len() == 0 {
        lemma_below_zero(ps);
    } else {
        assert(forall|i: int| 0 <= i < em.drop_last().len() ==> em.drop_last()[i] == em[i]);
        lemma_sum_helper(ps, em.drop_last());
        lemma_below_step(ps, em.len() as int);
    }
}

/// Conservation of live particles: under the pool invariant, the sum of
/// the emitters' live counters equals the number of live particles in the
/// pool. Since `update` preserves the invariant, this holds after any
/// sequence of frames.
pub proof fn lemma_alive_conservation<C: CustomEmitter>(s: ParticleSystem<C>)
    requires
        s.inv(),
    ensures
        sum_alive_counters(s.emitters@) == count_alive(s.particles@),
{
    lemma_sum_helper(s.particles@, s.emitters@);
    lemma_below_full(s.particles@, s.emitters@.len() as int);
}

/// A declarative builder for a particle system.
pub struct ParticleSystemBuilder<C: CustomEmitter> {
    /// The emitters, in spawn order.
    pub emitters: Vec<Emitter<C>>,
    /// The shared texture handle, if any.
    pub texture: Option<TextureHandle>,
    /// The global particle acceleration.
    pub acceleration: Vec3,
    /// The color curve evaluated over each particle's life, if any.
    pub color_over_lifetime: Option<ColorGradient>,
}

impl<C: CustomEmitter> ParticleSystemBuilder<C> {
    /// Starts a builder with no emitters, no texture, no color curve, and
    /// standard gravity.
    pub fn new() -> (r: ParticleSystemBuilder<C>)
        ensures
            r.emitters@ =~= Seq::<Emitter<C>>::empty(),
            r.texture is None,
            r.acceleration == (Vec3 { x: 0, y: (-9_810_000) as i64, z: 0 }),
            r.color_over_lifetime is None,
    {
        ParticleSystemBuilder {
            emitters: Vec::new(),
            texture: None,
            acceleration: Vec3 { x: 0, y: -9_810_000, z: 0 },
            color_over_lifetime: None,
        }
    }

    /// Sets the emitters of the system.
    pub fn with_emitters(self, emitters: Vec<Emitter<C>>) -> (r: Self)
        ensures
            r == (ParticleSystemBuilder { emitters, ..self }),
    {
        ParticleSystemBuilder { emitters, ..self }
    }

    /// Sets the shared texture handle.
    pub fn with_texture(self, texture: TextureHandle) -> (r: Self)
        ensures
            r == (ParticleSystemBuilder { texture: Some(texture), ..self }),
    {
        ParticleSystemBuilder { texture: Some(texture), ..self }
    }

    /// Sets or clears the shared texture handle.
    pub fn with_opt_texture(self, texture: Option<TextureHandle>) -> (r: Self)
        ensures
            r == (ParticleSystemBuilder { texture, ..self }),
    {
        ParticleSystemBuilder { texture, ..self }
    }

    /// Sets the global particle acceleration.
    pub fn with_acceleration(self, acceleration: Vec3) -> (r: Self)
        ensures
            r == (ParticleSystemBuilder { acceleration, ..self }),
    {
        ParticleSystemBuilder { acceleration, ..self }
    }

    /// Sets the color curve evaluated over each particle's life.
    pub fn with_color_over_lifetime_gradient(self, color_over_lifetime: ColorGradient) -> (r: Self)
        ensures
            r == (ParticleSystemBuilder {
                color_over_lifetime: Some(color_over_lifetime),
                ..self
            }),
    {
        ParticleSystemBuilder { color_over_lifetime: Some(color_over_lifetime), ..self }
    }

    /// Builds the particle system with an empty pool.
    pub fn build(self) -> (r: ParticleSystem<C>)
        requires
            forall|i: int|
                0 <= i < self.emitters@.len() ==> (#[trigger] self.emitters@[i]).wf()
                    && self.emitters@[i].base_spec().alive_particles == 0,
            self.color_over_lifetime matches Some(g) ==> g.wf(),
        ensures
            r.particles@ =~= Seq::<Particle>::empty(),
            r.free_particles@ =~= Seq::<u32>::empty(),
            r.emitters@ == self.emitters@,
            r.texture == self.texture,
            r.acceleration == self.acceleration,
            r.color_over_lifetime == self.color_over_lifetime,
            r.inv(),
            r.emitters_wf(),
            r.gradient_wf(),
    {
        let r = ParticleSystem {
            particles: Vec::new(),
            free_particles: Vec::new(),
            emitters: self.emitters,
            texture: self.texture,
            acceleration: self.acceleration,
            color_over_lifetime: self.color_over_lifetime,
        };
        proof {
            assert forall|i: int| 0 <= i < r.emitters@.len() implies (#[trigger] r.emitters@[
                i
            ].base_spec().alive_particles) as int == count_alive_for(r.particles@, i) by {
                assert(count_alive_for(r.particles@, i) == 0);
            }
        }
        r
    }
}


impl<C: CustomEmitter> Default for ParticleSystem<C> {
    /// An empty system: no particles, no emitters, standard gravity.
    fn default() -> (r: ParticleSystem<C>)
        ensures
            r.particles@ =~= Seq::<Particle>::empty(),
            r.free_particles@ =~= Seq::<u32>::empty(),
            r.emitters@ =~= Seq::<Emitter<C>>::empty(),
            r.texture is None,
            r.color_over_lifetime is None,
            r.inv(),
            r.emitters_wf(),
            r.gradient_wf(),
    {
        ParticleSystemBuilder::new().build()
    }
}


} // verus!