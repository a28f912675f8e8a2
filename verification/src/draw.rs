//! Draw-data extraction: camera-distance ranking, back-to-front sorting,
//! and quad emission for every live particle.

use crate::color::Color;
use crate::emitter::CustomEmitter;
use crate::math::{sqr_distance_spec, vec3_add_spec, Vec2, Vec3, FX_ONE};
use crate::particle::Particle;
use crate::system::{count_alive, ParticleSystem};
use vstd::prelude::*;
use vstd::seq_lib::group_to_multiset_ensures;
use vstd::seq_lib::to_multiset_insert;

verus! {

/// One corner of a particle quad. The four corners of a quad share the
/// particle's state and differ only in their texture coordinates.
#[derive(Clone, Copy, Debug, PartialEq, Eq, Structural)]
pub struct Vertex {
    /// The particle's position in local coordinates.
    pub position: Vec3,
    /// The unit-square texture coordinate of this corner.
    pub tex_coord: Vec2,
    /// The particle's size.
    pub size: i64,
    /// The particle's rotation angle.
    pub rotation: i64,
    /// The particle's color.
    pub color: Color,
}

/// One triangle of a quad, as three vertex indices.
#[derive(Clone, Copy, Debug, PartialEq, Eq, Structural)]
pub struct TriangleDefinition(pub u32, pub u32, pub u32);

/// The vertex and triangle buffers a renderer consumes; fully rebuilt on
/// every extraction pass.
#[derive(Clone, Debug)]
pub struct DrawData {
    /// Four vertices per live particle, in back-to-front quad order.
    pub vertices: Vec<Vertex>,
    /// Two triangles per live particle, indexing into `vertices`.
    pub triangles: Vec<TriangleDefinition>,
}

impl Default for DrawData {
    /// Empty buffers.
    fn default() -> (r: DrawData)
        ensures
            r.vertices@ =~= Seq::<Vertex>::empty(),
            r.triangles@ =~= Seq::<TriangleDefinition>::empty(),
    {
        DrawData { vertices: Vec::new(), triangles: Vec::new() }
    }
}

impl DrawData {
    fn clear(&mut self)
        ensures
            final(self).vertices@ =~= Seq::<Vertex>::empty(),
            final(self).triangles@ =~= Seq::<TriangleDefinition>::empty(),
    {
        self.vertices.clear();
        self.triangles.clear();
    }

    /// The vertex buffer.
    pub fn vertices(&self) -> (r: &[Vertex])
        ensures
            r@ == self.vertices@,
    {
        self.vertices.as_slice()
    }

    /// The triangle buffer.
    pub fn triangles(&self) -> (r: &[TriangleDefinition])
        ensures
            r@ == self.triangles@,
    {
        self.triangles.as_slice()
    }
}

/// The squared camera distance a particle is ranked by: its local position
/// offset by the owning node's global position.
pub open spec fn dist_of(p: Particle, global: Vec3, cam: Vec3) -> int {
    sqr_distance_spec(cam, vec3_add_spec(p.position, global))
}

/// The `(distance, index)` entries of the live particles among the first
/// `upto` pool slots, in slot order.
pub open spec fn alive_entries(ps: Seq<Particle>, global: Vec3, cam: Vec3, upto: int) -> Seq<
    (i64, u32),
>
    decreases upto,
{
    if upto <= 0 {
        Seq::empty()
    } else {
        let prev = alive_entries(ps, global, cam, upto - 1);
        if ps[upto - 1].alive {
            prev.push((dist_of(ps[upto - 1], global, cam) as i64, (upto - 1) as u32))
        } else {
            prev
        }
    }
}

proof fn lemma_alive_entries_len(ps: Seq<Particle>, global: Vec3, cam: Vec3, upto: int)
    requires
        0 <= upto <= ps.len(),
    ensures
        alive_entries(ps, global, cam, upto).len() == count_alive(ps.take(upto)),
    decreases upto,
{
    if upto > 0 {
        lemma_alive_entries_len(ps, global, cam, upto - 1);
        assert(ps.take(upto).drop_last() =~= ps.take(upto - 1));
        assert(ps.take(upto).last() == ps[upto - 1]);
    }
}

proof fn lemma_alive_entries_props(ps: Seq<Particle>, global: Vec3, cam: Vec3, upto: int)
    requires
        0 <= upto <= ps.len(),
        ps.len() <= u32::MAX as int,
    ensures
        forall|k: int|
            0 <= k < alive_entries(ps, global, cam, upto).len() ==> {
                let ent = #[trigger] alive_entries(ps, global, cam, upto)[k];
                &&& (ent.1 as int) < upto
                &&& ps[ent.1 as int].alive
                &&& ent.0 as int == dist_of(ps[ent.1 as int], global, cam) as i64 as int
            },
        forall|k1: int, k2: int|
            0 <= k1 < k2 < alive_entries(ps, global, cam, upto).len() ==> (alive_entries(
                ps,
                global,
                cam,
                upto,
            )[k1].1 as int) < (alive_entries(ps, global, cam, upto)[k2].1 as int),
    decreases upto,
{
    if upto > 0 {
        lemma_alive_entries_props(ps, global, cam, upto - 1);
        let prev = alive_entries(ps, global, cam, upto - 1);
        let cur = alive_entries(ps, global, cam, upto);
        if ps[upto - 1].alive {
            assert(cur == prev.push(
                (dist_of(ps[upto - 1], global, cam) as i64, (upto - 1) as u32),
            ));
            assert(forall|k: int| 0 <= k < prev.len() ==> cur[k] == prev[k]);
            assert(cur[cur.len() - 1].1 as int == upto - 1);
        } else {
            assert(cur == prev);
        }
    }
}

/// Entries are ordered back to front: distances never increase.
pub open spec fn sorted_desc(s: Seq<(i64, u32)>) -> bool {
    forall|a: int, b: int| 0 <= a < b < s.len() ==> (#[trigger] s[a]).0 >= (#[trigger] s[b]).0
}

/// Insertion sort, descending by distance; the entries are preserved as a
/// multiset.
fn sort_desc(v: &mut Vec<(i64, u32)>)
    ensures
        final(v)@.len() == old(v)@.len(),
        final(v)@.to_multiset() == old(v)@.to_multiset(),
        sorted_desc(final(v)@),
{
    let ghost orig = v@;
    let n = v.len();
    if n == 0 {
        return ;
    }
    let mut i: usize = 1;
    while i < n
        invariant
            1 <= i <= n,
            n == v@.len(),
            n == orig.len(),
            v@.to_multiset() == orig.to_multiset(),
            sorted_desc(v@.take(i as int)),
        decreases n - i,
    {
        let ghost pre = v@;
        let x = v.remove(i);
        let ghost after_remove = v@;
        proof {
            broadcast use group_to_multiset_ensures;

            assert(pre.contains(pre[i as int]));
            assert(after_remove.to_multiset() =~= pre.to_multiset().remove(x));
            assert(forall|a: int| 0 <= a < i ==> after_remove[a] == pre[a]);
            assert(forall|a: int|
                i <= a < after_remove.len() ==> after_remove[a] == pre[a + 1]);
        }
        let mut pos: usize = 0;
        while pos < i && v[pos].0 >= x.0
            invariant
                pos <= i,
                i < n,
                v@ == after_remove,
                after_remove.len() == n - 1,
                forall|a: int| 0 <= a < pos ==> (#[trigger] after_remove[a]).0 >= x.0,
            decreases i - pos,
        {
            pos = pos + 1;
        }
        v.insert(pos, x);
        proof {
            broadcast use group_to_multiset_ensures;
            broadcast use to_multiset_insert;

            assert(v@ == after_remove.insert(pos as int, x));
            assert(v@.to_multiset() =~= after_remove.to_multiset().insert(x));
            assert(pre.to_multiset().count(x) > 0);
            assert(v@.to_multiset() =~= pre.to_multiset()) by {
                assert(v@.to_multiset() =~= pre.to_multiset().remove(x).insert(x));
            }
            assert(forall|a: int| 0 <= a < pos ==> v@[a] == after_remove[a]);
            assert(v@[pos as int] == x);
            assert(forall|a: int| pos < a < v@.len() ==> v@[a] == after_remove[a - 1]);
            assert forall|a: int, b: int|
                0 <= a < b < i + 1 implies (#[trigger] v@.take(i as int + 1)[a]).0 >= (
            #[trigger] v@.take(i as int + 1)[b]).0 by {
                if b < pos {
                    assert(pre[a] == v@[a] && pre[b] == v@[b]);
                    assert(pre.take(i as int)[a] == pre[a]);
                    assert(pre.take(i as int)[b] == pre[b]);
                } else if b == pos {
                    assert(v@[b] == x);
                    assert(v@[a].0 >= x.0);
                } else {
                    if pos < i {
                        assert(after_remove[pos as int].0 < x.0);
                    }
                    if a < pos {
                        assert(v@[a].0 >= x.0);
                        if pos < i {
                            assert(pre.take(i as int)[pos as int] == pre[pos as int]);
                            assert(pre.take(i as int)[b - 1] == pre[b - 1]);
                            assert(v@[b] == pre[b - 1]);
                            if (pos as int) <= b - 1 {
                                if (pos as int) < b - 1 {
                                    assert(pre[pos as int].0 >= pre[b - 1].0);
                                } else {
                                }
                            }
                            assert(x.0 > pre[pos as int].0);
                            assert(v@[a].0 >= v@[b].0);
                        }
                    } else if a == pos {
                        assert(v@[a] == x);
                        assert(v@[b] == pre[b - 1]);
                        assert(after_remove[pos as int] == pre[pos as int]);
                        if (pos as int) < b - 1 {
                            assert(pre.take(i as int)[pos as int] == pre[pos as int]);
                            assert(pre.take(i as int)[b - 1] == pre[b - 1]);
                            assert(pre[pos as int].0 >= pre[b - 1].0);
                        }
                        assert(x.0 > pre[pos as int].0);
                    } else {
                        assert(v@[a] == pre[a - 1]);
                        assert(v@[b] == pre[b - 1]);
                        assert(pre.take(i as int)[a - 1] == pre[a - 1]);
                        assert(pre.take(i as int)[b - 1] == pre[b - 1]);
                    }
                }
            }
            assert(sorted_desc(v@.take(i as int + 1)));
        }
        i = i + 1;
    }
    proof {
        assert(v@.take(n as int) =~= v@);
    }
}

impl<C: CustomEmitter> ParticleSystem<C> {
    /// Rebuilds the draw buffers for the current frame.
    ///
    /// Every live particle is ranked by squared distance from the camera
    /// (its local position offset by the owning node's global position),
    /// the ranking is sorted back to front for correct alpha compositing,
    /// and one quad — four vertices and two triangles — is emitted per
    /// live particle in that order.
    pub fn generate_draw_data(
        &self,
        sorted_particles: &mut Vec<u32>,
        draw_data: &mut DrawData,
        camera_pos: &Vec3,
        global_position: &Vec3,
    )
        requires
            4 * self.particles@.len() <= u32::MAX as int,
        ensures
            final(sorted_particles)@.len() == count_alive(self.particles@),
            final(draw_data).vertices@.len() == 4 * count_alive(self.particles@),
            final(draw_data).triangles@.len() == 2 * count_alive(self.particles@),
            // Every listed slot is a live particle, listed back to front.
            forall|k: int|
                0 <= k < final(sorted_particles)@.len() ==> ((
                #[trigger] final(sorted_particles)@[k]) as int) < self.particles@.len()
                    && self.particles@[final(sorted_particles)@[k] as int].alive,
            forall|k1: int, k2: int|
                0 <= k1 < k2 < final(sorted_particles)@.len() ==> dist_of(
                    self.particles@[final(sorted_particles)@[k1] as int],
                    *global_position,
                    *camera_pos,
                ) as i64 >= dist_of(
                    self.particles@[final(sorted_particles)@[k2] as int],
                    *global_position,
                    *camera_pos,
                ) as i64,
            final(sorted_particles)@.no_duplicates(),
            // One quad per listed particle: four corners sharing its state
            // with unit-square texture coordinates, and two triangles over
            // the quad's base offset.
            forall|q: int|
                0 <= q < final(sorted_particles)@.len() ==> {
                    let p = self.particles@[(#[trigger] final(sorted_particles)@[q]) as int];
                    &&& final(draw_data).vertices@[4 * q] == corner_vertex(p, 0, 0)
                    &&& final(draw_data).vertices@[4 * q + 1] == corner_vertex(p, FX_ONE, 0)
                    &&& final(draw_data).vertices@[4 * q + 2] == corner_vertex(p, FX_ONE, FX_ONE)
                    &&& final(draw_data).vertices@[4 * q + 3] == corner_vertex(p, 0, FX_ONE)
                    &&& final(draw_data).triangles@[2 * q] == TriangleDefinition(
                        (4 * q) as u32,
                        (4 * q + 1) as u32,
                        (4 * q + 2) as u32,
                    )
                    &&& final(draw_data).triangles@[2 * q + 1] == TriangleDefinition(
                        (4 * q) as u32,
                        (4 * q + 2) as u32,
                        (4 * q + 3) as u32,
                    )
                },
    {
        let ghost ps = self.particles@;
        let ghost g = *global_position;
        let ghost c = *camera_pos;
        sorted_particles.clear();
        let mut order: Vec<(i64, u32)> = Vec::new();
        let m = self.particles.len();
        let mut j: usize = 0;
        while j < m
            invariant
                j <= m,
                m == self.particles@.len(),
                ps == self.particles@,
                g == *global_position,
                c == *camera_pos,
                m <= u32::MAX,
                order@ == alive_entries(ps, g, c, j as int),
            decreases m - j,
        {
            let p = self.particles[j];
            if p.alive {
                let actual = p.position.add_sat(*global_position);
                let d = camera_pos.sqr_distance(&actual);
                proof {
                    assert(p == ps[j as int]);
                    assert(actual == vec3_add_spec(p.position, g));
                    assert(d as int == crate::math::sqr_distance_spec(c, actual));
                    assert(d as int == dist_of(ps[j as int], g, c));
                    assert(d == dist_of(ps[j as int], g, c) as i64);
                }
                order.push((d, j as u32));
            }
            proof {
                assert(order@ == alive_entries(ps, g, c, j as int + 1));
            }
            j = j + 1;
        }
        proof {
            lemma_alive_entries_len(ps, g, c, m as int);
            lemma_alive_entries_props(ps, g, c, m as int);
            assert(ps.take(m as int) =~= ps);
        }
        let ghost entries = order@;
        sort_desc(&mut order);
        proof {
            broadcast use group_to_multiset_ensures;

            assert forall|k: int| 0 <= k < order@.len() implies {
                let ent = #[trigger] order@[k];
                &&& (ent.1 as int) < m
                &&& ps[ent.1 as int].alive
                &&& ent.0 as int == dist_of(ps[ent.1 as int], g, c) as i64 as int
            } by {
                assert(order@.contains(order@[k]));
                assert(order@.to_multiset().count(order@[k]) > 0);
                assert(entries.to_multiset().count(order@[k]) > 0);
                assert(entries.contains(order@[k]));
                let w = choose|w: int| 0 <= w < entries.len() && entries[w] == order@[k];
                assert(entries[w] == order@[k]);
            }
            assert forall|k1: int, k2: int|
                0 <= k1 < k2 < order@.len() implies order@[k1].1 != order@[k2].1 by {
                if order@[k1] == order@[k2] {
                    entries.lemma_multiset_has_no_duplicates();
                    assert(order@.remove(k1).to_multiset() =~= order@.to_multiset().remove(
                        order@[k1],
                    ));
                    assert(order@.remove(k1)[k2 - 1] == order@[k2]);
                    assert(order@.remove(k1).contains(order@[k2]));
                    assert(order@.remove(k1).to_multiset().count(order@[k2]) > 0);
                    assert(order@.to_multiset().count(order@[k1]) >= 2);
                    assert(entries.to_multiset().count(order@[k1]) >= 2);
                    assert(entries.contains(order@[k1]));
                    assert(false);
                } else {
                    if order@[k1].1 == order@[k2].1 {
                        assert(order@.contains(order@[k1]));
                        assert(entries.to_multiset().count(order@[k1]) > 0);
                        assert(entries.contains(order@[k1]));
                        assert(order@.contains(order@[k2]));
                        assert(entries.to_multiset().count(order@[k2]) > 0);
                        assert(entries.contains(order@[k2]));
                        let w1 = choose|w: int|
                            0 <= w < entries.len() && entries[w] == order@[k1];
                        let w2 = choose|w: int|
                            0 <= w < entries.len() && entries[w] == order@[k2];
                        assert(w1 != w2);
                        assert(false);
                    }
                }
            }
        }
        draw_data.clear();
        proof {
            crate::system::lemma_count_alive_le_len(ps);
        }
        let cnt = order.len();
        let mut q: usize = 0;
        while q < cnt
            invariant
                q <= cnt,
                cnt == order@.len(),
                cnt == count_alive(ps),
                cnt <= m,
                ps == self.particles@,
                4 * m <= u32::MAX,
                m == ps.len(),
                sorted_desc(order@),
                forall|k: int|
                    0 <= k < cnt ==> {
                        let ent = #[trigger] order@[k];
                        &&& (ent.1 as int) < m
                        &&& ps[ent.1 as int].alive
                        &&& ent.0 as int == dist_of(ps[ent.1 as int], g, c) as i64 as int
                    },
                forall|k1: int, k2: int| 0 <= k1 < k2 < cnt ==> order@[k1].1 != order@[k2].1,
                sorted_particles@.len() == q,
                draw_data.vertices@.len() == 4 * q,
                draw_data.triangles@.len() == 2 * q,
                forall|r: int| 0 <= r < q ==> #[trigger] sorted_particles@[r] == order@[r].1,
                forall|r: int|
                    0 <= r < q ==> {
                        let p = ps[(#[trigger] sorted_particles@[r]) as int];
                        &&& draw_data.vertices@[4 * r] == corner_vertex(p, 0, 0)
                        &&& draw_data.vertices@[4 * r + 1] == corner_vertex(p, FX_ONE, 0)
                        &&& draw_data.vertices@[4 * r + 2] == corner_vertex(p, FX_ONE, FX_ONE)
                        &&& draw_data.vertices@[4 * r + 3] == corner_vertex(p, 0, FX_ONE)
                        &&& draw_data.triangles@[2 * r] == TriangleDefinition(
                            (4 * r) as u32,
                            (4 * r + 1) as u32,
                            (4 * r + 2) as u32,
                        )
                        &&& draw_data.triangles@[2 * r + 1] == TriangleDefinition(
                            (4 * r) as u32,
                            (4 * r + 2) as u32,
                            (4 * r + 3) as u32,
                        )
                    },
            decreases cnt - q,
        {
            let idx = order[q].1;
            let p = self.particles[idx as usize];
            draw_data.vertices.push(
                Vertex {
                    position: p.position,
                    tex_coord: Vec2 { x: 0, y: 0 },
                    size: p.size,
                    rotation: p.rotation,
                    color: p.color,
                },
            );
            draw_data.vertices.push(
                Vertex {
                    position: p.position,
                    tex_coord: Vec2 { x: FX_ONE, y: 0 },
                    size: p.size,
                    rotation: p.rotation,
                    color: p.color,
                },
            );
            draw_data.vertices.push(
                Vertex {
                    position: p.position,
                    tex_coord: Vec2 { x: FX_ONE, y: FX_ONE },
                    size: p.size,
                    rotation: p.rotation,
                    color: p.color,
                },
            );
            draw_data.vertices.push(
                Vertex {
                    position: p.position,
                    tex_coord: Vec2 { x: 0, y: FX_ONE },
                    size: p.size,
                    rotation: p.rotation,
                    color: p.color,
                },
            );
            let base_index: u32 = (q as u32) * 4;
            draw_data.triangles.push(
                TriangleDefinition(base_index, base_index + 1, base_index + 2),
            );
            draw_data.triangles.push(
                TriangleDefinition(base_index, base_index + 2, base_index + 3),
            );
            sorted_particles.push(idx);
            q = q + 1;
        }
    }
}

/// The vertex a particle contributes at one corner of its quad.
pub open spec fn corner_vertex(p: Particle, tx: i64, ty: i64) -> Vertex {
    Vertex {
        position: p.position,
        tex_coord: Vec2 { x: tx, y: ty },
        size: p.size,
        rotation: p.rotation,
        color: p.color,
    }
}

} // verus!
