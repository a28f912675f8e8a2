//! State persistence: every entity is written as a flat run of tokens —
//! a named region bracketed by `Enter`/`Leave` with its fields in the
//! documented order — and read back from such a run.
//!
//! The writers state exactly which tokens they append; the readers state
//! that whatever they accept is the token run of the value they return.

use crate::color::{Color, ColorGradient, GradientPoint};
use crate::emitter::{
    BaseEmitter, BoxEmitter, CustomEmitter, CustomEmitterFactory, CustomEmitterSource, Emitter,
    EmitterError, ParticleLimit, SphereEmitter,
};
use crate::math::Vec3;
use crate::particle::Particle;
use crate::system::{ParticleSystem, TextureHandle};
use vstd::prelude::*;

verus! {

/// One unit of serialized state.
#[derive(Clone, Copy, Debug, PartialEq, Eq, Structural)]
pub enum Token {
    /// Opens a region.
    Enter,
    /// Closes a region.
    Leave,
    /// A signed scalar field.
    Signed(i64),
    /// An unsigned scalar field.
    Unsigned(u64),
    /// A boolean field.
    Flag(bool),
}

/// Why a token run was rejected.
#[derive(Clone, Copy, Debug, PartialEq, Eq, Structural)]
pub enum ReadError {
    /// The run ended before the entity did.
    UnexpectedEnd,
    /// A token of the wrong kind stood where a field was expected.
    UnexpectedToken,
    /// A scalar field lay outside the range its type admits.
    ValueOutOfRange,
    /// An emitter kind id that names no shape.
    UnknownKind,
    /// The custom-emitter registry could not construct a shape.
    Emitter(EmitterError),
}

/// The token run of a vector: its three components.
pub open spec fn vec3_tokens(v: Vec3) -> Seq<Token> {
    seq![Token::Signed(v.x), Token::Signed(v.y), Token::Signed(v.z)]
}

/// The token run of a range: lower then upper bound.
pub open spec fn range_tokens(r: crate::range::NumericRange) -> Seq<Token> {
    seq![Token::Signed(r.min), Token::Signed(r.max)]
}

/// The token run of a particle limit: `-1` for no cap, else the cap.
pub open spec fn limit_tokens(l: ParticleLimit) -> Seq<Token> {
    match l {
        ParticleLimit::Unlimited => seq![Token::Signed((-1) as i64)],
        ParticleLimit::Strict(n) => seq![Token::Signed(n as i64)],
    }
}

/// The token run of a color: its four channels.
pub open spec fn color_tokens(c: Color) -> Seq<Token> {
    seq![
        Token::Unsigned(c.r as u64),
        Token::Unsigned(c.g as u64),
        Token::Unsigned(c.b as u64),
        Token::Unsigned(c.a as u64),
    ]
}

/// The token run of one particle: a region holding position, velocity,
/// size, liveness, size modifier, the two lifetime counters, rotation
/// speed, rotation, color and the owning emitter index. 20 tokens.
pub open spec fn particle_tokens(p: Particle) -> Seq<Token> {
    seq![Token::Enter] + vec3_tokens(p.position) + vec3_tokens(p.velocity) + seq![
        Token::Signed(p.size),
        Token::Flag(p.alive),
        Token::Signed(p.size_modifier),
        Token::Signed(p.lifetime),
        Token::Signed(p.initial_lifetime),
        Token::Signed(p.rotation_speed),
        Token::Signed(p.rotation),
    ] + color_tokens(p.color) + seq![Token::Unsigned(p.emitter_index as u64), Token::Leave]
}

/// The token runs of the first `upto` particles, concatenated.
pub open spec fn particles_tokens(ps: Seq<Particle>, upto: int) -> Seq<Token>
    decreases upto,
{
    if upto <= 0 {
        Seq::empty()
    } else {
        particles_tokens(ps, upto - 1) + particle_tokens(ps[upto - 1])
    }
}

/// The token run of a base emitter: a region holding its offset, spawn
/// rate, cap, the eight randomization ranges, and the live counters.
/// 28 tokens.
pub open spec fn base_tokens(b: BaseEmitter) -> Seq<Token> {
    seq![Token::Enter] + vec3_tokens(b.position) + seq![
        Token::Unsigned(b.particle_spawn_rate as u64),
    ] + limit_tokens(b.max_particles) + range_tokens(b.lifetime) + range_tokens(b.size)
        + range_tokens(b.size_modifier) + range_tokens(b.x_velocity) + range_tokens(b.y_velocity)
        + range_tokens(b.z_velocity) + range_tokens(b.rotation_speed) + range_tokens(b.rotation)
        + seq![
        Token::Unsigned(b.alive_particles as u64),
        Token::Signed(b.time),
        Token::Unsigned(b.particles_to_spawn as u64),
        Token::Flag(b.resurrect_particles),
        Token::Unsigned(b.spawned_particles),
        Token::Leave,
    ]
}

/// The token run of an emitter: a region with the kind id, the shared
/// base, and the shape's own fields. The extra state of a custom shape is
/// opaque and not persisted.
pub open spec fn emitter_tokens<C: CustomEmitter>(em: Emitter<C>) -> Seq<Token> {
    match em {
        Emitter::Unknown => seq![Token::Enter, Token::Signed((-1) as i64), Token::Leave],
        Emitter::Box(b) => seq![Token::Enter, Token::Signed((-2) as i64)] + base_tokens(b.emitter) + seq![
            Token::Signed(b.half_width),
            Token::Signed(b.half_height),
            Token::Signed(b.half_depth),
            Token::Leave,
        ],
        Emitter::Sphere(s) => seq![Token::Enter, Token::Signed((-3) as i64)] + base_tokens(s.emitter)
            + seq![Token::Signed(s.radius), Token::Leave],
        Emitter::Custom(b, c) => seq![Token::Enter, Token::Signed(c.kind_spec() as i64)]
            + base_tokens(b) + seq![Token::Leave],
    }
}

/// The token runs of the first `upto` emitters, concatenated.
pub open spec fn emitters_tokens<C: CustomEmitter>(es: Seq<Emitter<C>>, upto: int) -> Seq<Token>
    decreases upto,
{
    if upto <= 0 {
        Seq::empty()
    } else {
        emitters_tokens(es, upto - 1) + emitter_tokens(es[upto - 1])
    }
}

/// The token run of the free list: the first `upto` slot indices.
pub open spec fn indices_tokens(fr: Seq<u32>, upto: int) -> Seq<Token>
    decreases upto,
{
    if upto <= 0 {
        Seq::empty()
    } else {
        indices_tokens(fr, upto - 1) + seq![Token::Unsigned(fr[upto - 1] as u64)]
    }
}

/// The token run of an optional texture handle: a presence flag, then the
/// handle.
pub open spec fn texture_tokens(t: Option<TextureHandle>) -> Seq<Token> {
    match t {
        Option::None => seq![Token::Flag(false)],
        Option::Some(h) => seq![Token::Flag(true), Token::Unsigned(h.id)],
    }
}

/// The token runs of the first `upto` gradient keypoints.
pub open spec fn points_tokens(pts: Seq<GradientPoint>, upto: int) -> Seq<Token>
    decreases upto,
{
    if upto <= 0 {
        Seq::empty()
    } else {
        points_tokens(pts, upto - 1) + seq![Token::Signed(pts[upto - 1].location)]
            + color_tokens(pts[upto - 1].color)
    }
}

/// The token run of an optional color curve: a presence flag, the
/// keypoint count, and the keypoints.
pub open spec fn gradient_tokens(g: Option<ColorGradient>) -> Seq<Token> {
    match g {
        Option::None => seq![Token::Flag(false)],
        Option::Some(gr) => seq![Token::Flag(true), Token::Unsigned(gr.points@.len() as u64)]
            + points_tokens(gr.points@, gr.points@.len() as int),
    }
}

/// The token run of a whole particle system: a region holding the pool,
/// the free list, the texture, the emitters, the acceleration and the
/// color curve.
pub open spec fn system_tokens<C: CustomEmitter>(s: ParticleSystem<C>) -> Seq<Token> {
    seq![Token::Enter, Token::Unsigned(s.particles@.len() as u64)] + particles_tokens(
        s.particles@,
        s.particles@.len() as int,
    ) + seq![Token::Unsigned(s.free_particles@.len() as u64)] + indices_tokens(
        s.free_particles@,
        s.free_particles@.len() as int,
    ) + texture_tokens(s.texture) + seq![Token::Unsigned(s.emitters@.len() as u64)]
        + emitters_tokens(s.emitters@, s.emitters@.len() as int) + vec3_tokens(s.acceleration)
        + gradient_tokens(s.color_over_lifetime) + seq![Token::Leave]
}

fn push_vec3(out: &mut Vec<Token>, v: Vec3)
    ensures
        final(out)@ == old(out)@ + vec3_tokens(v),
{
    out.push(Token::Signed(v.x));
    out.push(Token::Signed(v.y));
    out.push(Token::Signed(v.z));
    proof {
        assert(out@ =~= old(out)@ + vec3_tokens(v));
    }
}

fn push_range(out: &mut Vec<Token>, r: crate::range::NumericRange)
    ensures
        final(out)@ == old(out)@ + range_tokens(r),
{
    out.push(Token::Signed(r.min));
    out.push(Token::Signed(r.max));
    proof {
        assert(out@ =~= old(out)@ + range_tokens(r));
    }
}

fn push_color(out: &mut Vec<Token>, c: Color)
    ensures
        final(out)@ == old(out)@ + color_tokens(c),
{
    out.push(Token::Unsigned(c.r as u64));
    out.push(Token::Unsigned(c.g as u64));
    out.push(Token::Unsigned(c.b as u64));
    out.push(Token::Unsigned(c.a as u64));
    proof {
        assert(out@ =~= old(out)@ + color_tokens(c));
    }
}

/// Appends the token run of one particle.
pub fn write_particle(p: &Particle, out: &mut Vec<Token>)
    ensures
        final(out)@ == old(out)@ + particle_tokens(*p),
{
    out.push(Token::Enter);
    push_vec3(out, p.position);
    push_vec3(out, p.velocity);
    out.push(Token::Signed(p.size));
    out.push(Token::Flag(p.alive));
    out.push(Token::Signed(p.size_modifier));
    out.push(Token::Signed(p.lifetime));
    out.push(Token::Signed(p.initial_lifetime));
    out.push(Token::Signed(p.rotation_speed));
    out.push(Token::Signed(p.rotation));
    push_color(out, p.color);
    out.push(Token::Unsigned(p.emitter_index as u64));
    out.push(Token::Leave);
    proof {
        assert(out@ =~= old(out)@ + particle_tokens(*p));
    }
}

/// Appends the token run of a base emitter.
pub fn write_base(b: &BaseEmitter, out: &mut Vec<Token>)
    ensures
        final(out)@ == old(out)@ + base_tokens(*b),
{
    out.push(Token::Enter);
    push_vec3(out, b.position);
    out.push(Token::Unsigned(b.particle_spawn_rate as u64));
    match b.max_particles {
        ParticleLimit::Unlimited => out.push(Token::Signed((-1) as i64)),
        ParticleLimit::Strict(n) => out.push(Token::Signed(n as i64)),
    }
    push_range(out, b.lifetime);
    push_range(out, b.size);
    push_range(out, b.size_modifier);
    push_range(out, b.x_velocity);
    push_range(out, b.y_velocity);
    push_range(out, b.z_velocity);
    push_range(out, b.rotation_speed);
    push_range(out, b.rotation);
    out.push(Token::Unsigned(b.alive_particles as u64));
    out.push(Token::Signed(b.time));
    out.push(Token::Unsigned(b.particles_to_spawn as u64));
    out.push(Token::Flag(b.resurrect_particles));
    out.push(Token::Unsigned(b.spawned_particles));
    out.push(Token::Leave);
    proof {
        assert(out@ =~= old(out)@ + base_tokens(*b));
    }
}

/// Appends the token run of an emitter.
///
/// A custom shape must report a nonnegative kind id; the placeholder and
/// built-in shapes write their reserved negative ids.
pub fn write_emitter<C: CustomEmitter>(em: &Emitter<C>, out: &mut Vec<Token>)
    requires
        em matches Emitter::Custom(_, c) ==> c.kind_spec() >= 0,
    ensures
        final(out)@ == old(out)@ + emitter_tokens(*em),
{
    out.push(Token::Enter);
    match em {
        Emitter::Unknown => {
            out.push(Token::Signed((-1) as i64));
            out.push(Token::Leave);
        },
        Emitter::Box(b) => {
            out.push(Token::Signed((-2) as i64));
            write_base(&b.emitter, out);
            out.push(Token::Signed(b.half_width));
            out.push(Token::Signed(b.half_height));
            out.push(Token::Signed(b.half_depth));
            out.push(Token::Leave);
        },
        Emitter::Sphere(s) => {
            out.push(Token::Signed((-3) as i64));
            write_base(&s.emitter, out);
            out.push(Token::Signed(s.radius));
            out.push(Token::Leave);
        },
        Emitter::Custom(b, c) => {
            out.push(Token::Signed(c.kind() as i64));
            write_base(b, out);
            out.push(Token::Leave);
        },
    }
    proof {
        assert(out@ =~= old(out)@ + emitter_tokens(*em));
    }
}

/// The token run of the pool section: the particle count and particles,
/// then the free-list length and indices.
pub open spec fn pool_tokens(ps: Seq<Particle>, fr: Seq<u32>) -> Seq<Token> {
    seq![Token::Enter, Token::Unsigned(ps.len() as u64)] + particles_tokens(ps, ps.len() as int)
        + seq![Token::Unsigned(fr.len() as u64)] + indices_tokens(fr, fr.len() as int)
}

/// The token run of the configuration section: texture, emitters,
/// acceleration and color curve.
pub open spec fn config_tokens<C: CustomEmitter>(s: ParticleSystem<C>) -> Seq<Token> {
    texture_tokens(s.texture) + seq![Token::Unsigned(s.emitters@.len() as u64)] + emitters_tokens(
        s.emitters@,
        s.emitters@.len() as int,
    ) + vec3_tokens(s.acceleration) + gradient_tokens(s.color_over_lifetime) + seq![Token::Leave]
}

fn write_pool<C: CustomEmitter>(s: &ParticleSystem<C>, out: &mut Vec<Token>)
    ensures
        final(out)@ == old(out)@ + pool_tokens(s.particles@, s.free_particles@),
{
    let ghost out0 = out@;
    out.push(Token::Enter);
    out.push(Token::Unsigned(s.particles.len() as u64));
    let n = s.particles.len();
    let mut i: usize = 0;
    while i < n
        invariant
            i <= n,
            n == s.particles@.len(),
            out@ == out0 + seq![
                Token::Enter,
                Token::Unsigned(s.particles@.len() as u64),
            ] + particles_tokens(s.particles@, i as int),
        decreases n - i,
    {
        write_particle(&s.particles[i], out);
        i = i + 1;
    }
    out.push(Token::Unsigned(s.free_particles.len() as u64));
    let ghost mid1 = out@;
    let fn_ = s.free_particles.len();
    let mut i: usize = 0;
    while i < fn_
        invariant
            i <= fn_,
            fn_ == s.free_particles@.len(),
            out@ == mid1 + indices_tokens(s.free_particles@, i as int),
        decreases fn_ - i,
    {
        out.push(Token::Unsigned(s.free_particles[i] as u64));
        proof {
            assert(out@ =~= mid1 + indices_tokens(s.free_particles@, i as int + 1));
        }
        i = i + 1;
    }
    proof {
        assert(out@ =~= out0 + pool_tokens(s.particles@, s.free_particles@));
    }
}

fn write_config<C: CustomEmitter>(s: &ParticleSystem<C>, out: &mut Vec<Token>)
    requires
        forall|i: int|
            0 <= i < s.emitters@.len() ==> ((#[trigger] s.emitters@[i]) matches Emitter::Custom(
                _,
                c,
            ) ==> c.kind_spec() >= 0),
    ensures
        final(out)@ == old(out)@ + config_tokens(*s),
{
    let ghost out0 = out@;
    match &s.texture {
        Some(h) => {
            out.push(Token::Flag(true));
            out.push(Token::Unsigned(h.id));
        },
        None => out.push(Token::Flag(false)),
    }
    out.push(Token::Unsigned(s.emitters.len() as u64));
    let ghost mid2 = out@;
    proof {
        assert(mid2 =~= out0 + texture_tokens(s.texture) + seq![
            Token::Unsigned(s.emitters@.len() as u64),
        ]);
    }
    let en = s.emitters.len();
    let mut i: usize = 0;
    while i < en
        invariant
            i <= en,
            en == s.emitters@.len(),
            forall|q: int|
                0 <= q < en ==> ((#[trigger] s.emitters@[q]) matches Emitter::Custom(_, c)
                    ==> c.kind_spec() >= 0),
            out@ == mid2 + emitters_tokens(s.emitters@, i as int),
        decreases en - i,
    {
        write_emitter(&s.emitters[i], out);
        i = i + 1;
    }
    push_vec3(out, s.acceleration);
    let ghost mid3 = out@;
    match &s.color_over_lifetime {
        Some(g) => {
            out.push(Token::Flag(true));
            out.push(Token::Unsigned(g.points.len() as u64));
            let ghost mid4 = out@;
            let pn = g.points.len();
            let mut i: usize = 0;
            while i < pn
                invariant
                    i <= pn,
                    pn == g.points@.len(),
                    out@ == mid4 + points_tokens(g.points@, i as int),
                decreases pn - i,
            {
                out.push(Token::Signed(g.points[i].location));
                push_color(out, g.points[i].color);
                proof {
                    assert(out@ =~= mid4 + points_tokens(g.points@, i as int + 1));
                }
                i = i + 1;
            }
            proof {
                assert(out@ =~= mid3 + gradient_tokens(s.color_over_lifetime));
            }
        },
        None => {
            out.push(Token::Flag(false));
            proof {
                assert(out@ =~= mid3 + gradient_tokens(s.color_over_lifetime));
            }
        },
    }
    out.push(Token::Leave);
    proof {
        assert(out@ =~= out0 + config_tokens(*s));
    }
}

/// Appends the token run of a whole particle system.
pub fn write_system<C: CustomEmitter>(s: &ParticleSystem<C>, out: &mut Vec<Token>)
    requires
        forall|i: int|
            0 <= i < s.emitters@.len() ==> ((#[trigger] s.emitters@[i]) matches Emitter::Custom(
                _,
                c,
            ) ==> c.kind_spec() >= 0),
    ensures
        final(out)@ == old(out)@ + system_tokens(*s),
{
    write_pool(s, out);
    write_config(s, out);
    proof {
        assert(system_tokens(*s) =~= pool_tokens(s.particles@, s.free_particles@)
            + config_tokens(*s));
        assert(out@ =~= old(out)@ + system_tokens(*s));
    }
}


fn take_signed(tokens: &Vec<Token>, pos: usize) -> (r: Result<(i64, usize), ReadError>)
    ensures
        r matches Ok(pr) ==> pos < tokens@.len() && tokens@[pos as int] == Token::Signed(pr.0)
            && pr.1 == pos + 1,
        r is Err ==> pos >= tokens@.len() || !(tokens@[pos as int] is Signed),
{
    if pos < tokens.len() {
        match tokens[pos] {
            Token::Signed(v) => Ok((v, pos + 1)),
            _ => Err(ReadError::UnexpectedToken),
        }
    } else {
        Err(ReadError::UnexpectedEnd)
    }
}

fn take_unsigned(tokens: &Vec<Token>, pos: usize) -> (r: Result<(u64, usize), ReadError>)
    ensures
        r matches Ok(pr) ==> pos < tokens@.len() && tokens@[pos as int] == Token::Unsigned(pr.0)
            && pr.1 == pos + 1,
        r is Err ==> pos >= tokens@.len() || !(tokens@[pos as int] is Unsigned),
{
    if pos < tokens.len() {
        match tokens[pos] {
            Token::Unsigned(v) => Ok((v, pos + 1)),
            _ => Err(ReadError::UnexpectedToken),
        }
    } else {
        Err(ReadError::UnexpectedEnd)
    }
}

fn take_flag(tokens: &Vec<Token>, pos: usize) -> (r: Result<(bool, usize), ReadError>)
    ensures
        r matches Ok(pr) ==> pos < tokens@.len() && tokens@[pos as int] == Token::Flag(pr.0)
            && pr.1 == pos + 1,
        r is Err ==> pos >= tokens@.len() || !(tokens@[pos as int] is Flag),
{
    if pos < tokens.len() {
        match tokens[pos] {
            Token::Flag(v) => Ok((v, pos + 1)),
            _ => Err(ReadError::UnexpectedToken),
        }
    } else {
        Err(ReadError::UnexpectedEnd)
    }
}

fn take_enter(tokens: &Vec<Token>, pos: usize) -> (r: Result<usize, ReadError>)
    ensures
        r matches Ok(np) ==> pos < tokens@.len() && tokens@[pos as int] == Token::Enter && np
            == pos + 1,
        r is Err ==> pos >= tokens@.len() || tokens@[pos as int] != Token::Enter,
{
    if pos < tokens.len() {
        match tokens[pos] {
            Token::Enter => Ok(pos + 1),
            _ => Err(ReadError::UnexpectedToken),
        }
    } else {
        Err(ReadError::UnexpectedEnd)
    }
}

fn take_leave(tokens: &Vec<Token>, pos: usize) -> (r: Result<usize, ReadError>)
    ensures
        r matches Ok(np) ==> pos < tokens@.len() && tokens@[pos as int] == Token::Leave && np
            == pos + 1,
        r is Err ==> pos >= tokens@.len() || tokens@[pos as int] != Token::Leave,
{
    if pos < tokens.len() {
        match tokens[pos] {
            Token::Leave => Ok(pos + 1),
            _ => Err(ReadError::UnexpectedToken),
        }
    } else {
        Err(ReadError::UnexpectedEnd)
    }
}

fn read_vec3(tokens: &Vec<Token>, pos: usize) -> (r: Result<(Vec3, usize), ReadError>)
    ensures
        r matches Ok(pr) ==> pr.1 as int == pos as int + 3 && pr.1 <= tokens@.len()
            && tokens@.subrange(pos as int, pr.1 as int) == vec3_tokens(pr.0),
        forall|v: Vec3|
            pos as int + 3 <= tokens@.len() && tokens@.subrange(pos as int, pos as int + 3)
                == vec3_tokens(v) ==> r == Result::<(Vec3, usize), ReadError>::Ok(
                (v, (pos + 3) as usize),
            ),
{
    proof {
        assert forall|v: Vec3|
            pos as int + 3 <= tokens@.len() && tokens@.subrange(pos as int, pos as int + 3)
                == vec3_tokens(v) implies {
            &&& tokens@[pos as int] == Token::Signed(v.x)
            &&& tokens@[pos as int + 1] == Token::Signed(v.y)
            &&& tokens@[pos as int + 2] == Token::Signed(v.z)
        } by {
            let w = tokens@.subrange(pos as int, pos as int + 3);
            assert(w[0] == tokens@[pos as int]);
            assert(w[1] == tokens@[pos as int + 1]);
            assert(w[2] == tokens@[pos as int + 2]);
        }
    }
    let (x, p1) = take_signed(tokens, pos)?;
    let (y, p2) = take_signed(tokens, p1)?;
    let (z, p3) = take_signed(tokens, p2)?;
    let v = Vec3 { x, y, z };
    proof {
        assert(tokens@.subrange(pos as int, p3 as int) =~= vec3_tokens(v));
    }
    Ok((v, p3))
}

/// Reads back a range written by the codec. This reader is exact in both
/// directions: whenever the run at `pos` is the token run of some range,
/// that range is returned.
pub fn read_range(tokens: &Vec<Token>, pos: usize) -> (r: Result<
    (crate::range::NumericRange, usize),
    ReadError,
>)
    ensures
        r matches Ok(pr) ==> pr.1 as int == pos as int + 2 && pr.1 <= tokens@.len()
            && tokens@.subrange(pos as int, pr.1 as int) == range_tokens(pr.0),
        forall|rr: crate::range::NumericRange|
            pos as int + 2 <= tokens@.len() && tokens@.subrange(pos as int, pos as int + 2)
                == range_tokens(rr) ==> (r matches Ok(pr) && pr.0 == rr && pr.1 as int == pos
                as int + 2),
{
    proof {
        assert forall|rr: crate::range::NumericRange|
            pos as int + 2 <= tokens@.len() && tokens@.subrange(pos as int, pos as int + 2)
                == range_tokens(rr) implies tokens@[pos as int] == Token::Signed(rr.min)
            && tokens@[pos as int + 1] == Token::Signed(rr.max) by {
            assert(tokens@.subrange(pos as int, pos as int + 2)[0] == tokens@[pos as int]);
            assert(tokens@.subrange(pos as int, pos as int + 2)[1] == tokens@[pos as int + 1]);
        }
    }
    let (mn, p1) = take_signed(tokens, pos)?;
    let (mx, p2) = take_signed(tokens, p1)?;
    let rr = crate::range::NumericRange { min: mn, max: mx };
    proof {
        assert(tokens@.subrange(pos as int, p2 as int) =~= range_tokens(rr));
    }
    Ok((rr, p2))
}

fn read_color(tokens: &Vec<Token>, pos: usize) -> (r: Result<(Color, usize), ReadError>)
    ensures
        r matches Ok(pr) ==> pr.1 as int == pos as int + 4 && pr.1 <= tokens@.len()
            && tokens@.subrange(pos as int, pr.1 as int) == color_tokens(pr.0),
        forall|c: Color|
            pos as int + 4 <= tokens@.len() && tokens@.subrange(pos as int, pos as int + 4)
                == color_tokens(c) ==> r == Result::<(Color, usize), ReadError>::Ok(
                (c, (pos + 4) as usize),
            ),
{
    proof {
        assert forall|c: Color|
            pos as int + 4 <= tokens@.len() && tokens@.subrange(pos as int, pos as int + 4)
                == color_tokens(c) implies {
            &&& tokens@[pos as int] == Token::Unsigned(c.r as u64)
            &&& tokens@[pos as int + 1] == Token::Unsigned(c.g as u64)
            &&& tokens@[pos as int + 2] == Token::Unsigned(c.b as u64)
            &&& tokens@[pos as int + 3] == Token::Unsigned(c.a as u64)
        } by {
            let w = tokens@.subrange(pos as int, pos as int + 4);
            assert(w[0] == tokens@[pos as int]);
            assert(w[1] == tokens@[pos as int + 1]);
            assert(w[2] == tokens@[pos as int + 2]);
            assert(w[3] == tokens@[pos as int + 3]);
        }
    }
    let (cr, p1) = take_unsigned(tokens, pos)?;
    let (cg, p2) = take_unsigned(tokens, p1)?;
    let (cb, p3) = take_unsigned(tokens, p2)?;
    let (ca, p4) = take_unsigned(tokens, p3)?;
    if cr > 255 || cg > 255 || cb > 255 || ca > 255 {
        return Err(ReadError::ValueOutOfRange);
    }
    let c = Color { r: cr as u8, g: cg as u8, b: cb as u8, a: ca as u8 };
    proof {
        assert(tokens@.subrange(pos as int, p4 as int) =~= color_tokens(c));
    }
    Ok((c, p4))
}

/// Reads back a particle written by the codec: whatever is accepted is the
/// token run of the returned particle.
pub fn read_particle(tokens: &Vec<Token>, pos: usize) -> (r: Result<(Particle, usize), ReadError>)
    ensures
        r matches Ok(pr) ==> pr.1 as int == pos as int + 20 && pr.1 <= tokens@.len()
            && tokens@.subrange(pos as int, pr.1 as int) == particle_tokens(pr.0),
        forall|p: Particle|
            pos as int + 20 <= tokens@.len() && tokens@.subrange(pos as int, pos as int + 20)
                == particle_tokens(p) ==> r == Result::<(Particle, usize), ReadError>::Ok(
                (p, (pos + 20) as usize),
            ),
{
    proof {
        assert forall|p: Particle|
            pos as int + 20 <= tokens@.len() && tokens@.subrange(pos as int, pos as int + 20)
                == particle_tokens(p) implies {
            &&& tokens@[pos as int] == Token::Enter
            &&& tokens@[pos as int + 1] == Token::Signed(p.position.x)
            &&& tokens@[pos as int + 2] == Token::Signed(p.position.y)
            &&& tokens@[pos as int + 3] == Token::Signed(p.position.z)
            &&& tokens@[pos as int + 4] == Token::Signed(p.velocity.x)
            &&& tokens@[pos as int + 5] == Token::Signed(p.velocity.y)
            &&& tokens@[pos as int + 6] == Token::Signed(p.velocity.z)
            &&& tokens@[pos as int + 7] == Token::Signed(p.size)
            &&& tokens@[pos as int + 8] == Token::Flag(p.alive)
            &&& tokens@[pos as int + 9] == Token::Signed(p.size_modifier)
            &&& tokens@[pos as int + 10] == Token::Signed(p.lifetime)
            &&& tokens@[pos as int + 11] == Token::Signed(p.initial_lifetime)
            &&& tokens@[pos as int + 12] == Token::Signed(p.rotation_speed)
            &&& tokens@[pos as int + 13] == Token::Signed(p.rotation)
            &&& tokens@[pos as int + 14] == Token::Unsigned(p.color.r as u64)
            &&& tokens@[pos as int + 15] == Token::Unsigned(p.color.g as u64)
            &&& tokens@[pos as int + 16] == Token::Unsigned(p.color.b as u64)
            &&& tokens@[pos as int + 17] == Token::Unsigned(p.color.a as u64)
            &&& tokens@[pos as int + 18] == Token::Unsigned(p.emitter_index as u64)
            &&& tokens@[pos as int + 19] == Token::Leave
            &&& tokens@.subrange(pos as int + 1, pos as int + 4) == vec3_tokens(p.position)
            &&& tokens@.subrange(pos as int + 4, pos as int + 7) == vec3_tokens(p.velocity)
            &&& tokens@.subrange(pos as int + 14, pos as int + 18) == color_tokens(p.color)
        } by {
            let w = tokens@.subrange(pos as int, pos as int + 20);
            let t = particle_tokens(p);
            assert(t[0] == Token::Enter);
            assert(t[1] == Token::Signed(p.position.x));
            assert(t[2] == Token::Signed(p.position.y));
            assert(t[3] == Token::Signed(p.position.z));
            assert(t[4] == Token::Signed(p.velocity.x));
            assert(t[5] == Token::Signed(p.velocity.y));
            assert(t[6] == Token::Signed(p.velocity.z));
            assert(t[7] == Token::Signed(p.size));
            assert(t[8] == Token::Flag(p.alive));
            assert(t[9] == Token::Signed(p.size_modifier));
            assert(t[10] == Token::Signed(p.lifetime));
            assert(t[11] == Token::Signed(p.initial_lifetime));
            assert(t[12] == Token::Signed(p.rotation_speed));
            assert(t[13] == Token::Signed(p.rotation));
            assert(t[14] == Token::Unsigned(p.color.r as u64));
            assert(t[15] == Token::Unsigned(p.color.g as u64));
            assert(t[16] == Token::Unsigned(p.color.b as u64));
            assert(t[17] == Token::Unsigned(p.color.a as u64));
            assert(t[18] == Token::Unsigned(p.emitter_index as u64));
            assert(t[19] == Token::Leave);
            assert(forall|o: int| 0 <= o < 20 ==> #[trigger] w[o] == tokens@[pos as int + o]);
            assert(tokens@.subrange(pos as int + 1, pos as int + 4) =~= vec3_tokens(p.position));
            assert(tokens@.subrange(pos as int + 4, pos as int + 7) =~= vec3_tokens(p.velocity));
            assert(tokens@.subrange(pos as int + 14, pos as int + 18) =~= color_tokens(p.color));
        }
    }
    let p0 = take_enter(tokens, pos)?;
    let (position, p1) = read_vec3(tokens, p0)?;
    let (velocity, p2) = read_vec3(tokens, p1)?;
    let (size, p3) = take_signed(tokens, p2)?;
    let (alive, p4) = take_flag(tokens, p3)?;
    let (size_modifier, p5) = take_signed(tokens, p4)?;
    let (lifetime, p6) = take_signed(tokens, p5)?;
    let (initial_lifetime, p7) = take_signed(tokens, p6)?;
    let (rotation_speed, p8) = take_signed(tokens, p7)?;
    let (rotation, p9) = take_signed(tokens, p8)?;
    let (color, p10) = read_color(tokens, p9)?;
    let (ei, p11) = take_unsigned(tokens, p10)?;
    if ei > u32::MAX as u64 {
        return Err(ReadError::ValueOutOfRange);
    }
    let p12 = take_leave(tokens, p11)?;
    let particle = Particle {
        position,
        velocity,
        size,
        alive,
        size_modifier,
        lifetime,
        initial_lifetime,
        rotation_speed,
        rotation,
        color,
        emitter_index: ei as u32,
    };
    proof {
        assert(tokens@.subrange(pos as int, p12 as int) =~= particle_tokens(particle));
        assert forall|p: Particle|
            pos as int + 20 <= tokens@.len() && tokens@.subrange(pos as int, pos as int + 20)
                == particle_tokens(p) implies p == particle by {
        }
    }
    Ok((particle, p12))
}

/// Reads back a base emitter written by the codec.
pub fn read_base(tokens: &Vec<Token>, pos: usize) -> (r: Result<(BaseEmitter, usize), ReadError>)
    ensures
        r matches Ok(pr) ==> pr.1 as int == pos as int + 28 && pr.1 <= tokens@.len()
            && tokens@.subrange(pos as int, pr.1 as int) == base_tokens(pr.0),
        forall|b: BaseEmitter|
            pos as int + 28 <= tokens@.len() && tokens@.subrange(pos as int, pos as int + 28)
                == base_tokens(b) ==> r == Result::<(BaseEmitter, usize), ReadError>::Ok(
                (b, (pos + 28) as usize),
            ),
{
    proof {
        assert forall|b: BaseEmitter|
            pos as int + 28 <= tokens@.len() && tokens@.subrange(pos as int, pos as int + 28)
                == base_tokens(b) implies {
            &&& tokens@[pos as int] == Token::Enter
            &&& tokens@.subrange(pos as int + 1, pos as int + 4) == vec3_tokens(b.position)
            &&& tokens@[pos as int + 4] == Token::Unsigned(b.particle_spawn_rate as u64)
            &&& tokens@[pos as int + 5] == (match b.max_particles {
                ParticleLimit::Unlimited => Token::Signed((-1) as i64),
                ParticleLimit::Strict(n) => Token::Signed(n as i64),
            })
            &&& tokens@.subrange(pos as int + 6, pos as int + 8) == range_tokens(b.lifetime)
            &&& tokens@.subrange(pos as int + 8, pos as int + 10) == range_tokens(b.size)
            &&& tokens@.subrange(pos as int + 10, pos as int + 12) == range_tokens(
                b.size_modifier,
            )
            &&& tokens@.subrange(pos as int + 12, pos as int + 14) == range_tokens(b.x_velocity)
            &&& tokens@.subrange(pos as int + 14, pos as int + 16) == range_tokens(b.y_velocity)
            &&& tokens@.subrange(pos as int + 16, pos as int + 18) == range_tokens(b.z_velocity)
            &&& tokens@.subrange(pos as int + 18, pos as int + 20) == range_tokens(
                b.rotation_speed,
            )
            &&& tokens@.subrange(pos as int + 20, pos as int + 22) == range_tokens(b.rotation)
            &&& tokens@[pos as int + 22] == Token::Unsigned(b.alive_particles as u64)
            &&& tokens@[pos as int + 23] == Token::Signed(b.time)
            &&& tokens@[pos as int + 24] == Token::Unsigned(b.particles_to_spawn as u64)
            &&& tokens@[pos as int + 25] == Token::Flag(b.resurrect_particles)
            &&& tokens@[pos as int + 26] == Token::Unsigned(b.spawned_particles)
            &&& tokens@[pos as int + 27] == Token::Leave
        } by {
            let w = tokens@.subrange(pos as int, pos as int + 28);
            let t = base_tokens(b);
            assert(t[0] == Token::Enter);
            assert(t[1] == Token::Signed(b.position.x));
            assert(t[2] == Token::Signed(b.position.y));
            assert(t[3] == Token::Signed(b.position.z));
            assert(t[4] == Token::Unsigned(b.particle_spawn_rate as u64));
            match b.max_particles {
                ParticleLimit::Unlimited => {
                    assert(t[5] == Token::Signed((-1) as i64));
                },
                ParticleLimit::Strict(n) => {
                    assert(t[5] == Token::Signed(n as i64));
                },
            }
            assert(t[6] == Token::Signed(b.lifetime.min));
            assert(t[7] == Token::Signed(b.lifetime.max));
            assert(t[8] == Token::Signed(b.size.min));
            assert(t[9] == Token::Signed(b.size.max));
            assert(t[10] == Token::Signed(b.size_modifier.min));
            assert(t[11] == Token::Signed(b.size_modifier.max));
            assert(t[12] == Token::Signed(b.x_velocity.min));
            assert(t[13] == Token::Signed(b.x_velocity.max));
            assert(t[14] == Token::Signed(b.y_velocity.min));
            assert(t[15] == Token::Signed(b.y_velocity.max));
            assert(t[16] == Token::Signed(b.z_velocity.min));
            assert(t[17] == Token::Signed(b.z_velocity.max));
            assert(t[18] == Token::Signed(b.rotation_speed.min));
            assert(t[19] == Token::Signed(b.rotation_speed.max));
            assert(t[20] == Token::Signed(b.rotation.min));
            assert(t[21] == Token::Signed(b.rotation.max));
            assert(t[22] == Token::Unsigned(b.alive_particles as u64));
            assert(t[23] == Token::Signed(b.time));
            assert(t[24] == Token::Unsigned(b.particles_to_spawn as u64));
            assert(t[25] == Token::Flag(b.resurrect_particles));
            assert(t[26] == Token::Unsigned(b.spawned_particles));
            assert(t[27] == Token::Leave);
            assert(forall|o: int| 0 <= o < 28 ==> #[trigger] w[o] == tokens@[pos as int + o]);
            assert(tokens@.subrange(pos as int + 1, pos as int + 4) =~= vec3_tokens(b.position));
            assert(tokens@.subrange(pos as int + 6, pos as int + 8) =~= range_tokens(b.lifetime));
            assert(tokens@.subrange(pos as int + 8, pos as int + 10) =~= range_tokens(b.size));
            assert(tokens@.subrange(pos as int + 10, pos as int + 12) =~= range_tokens(
                b.size_modifier,
            ));
            assert(tokens@.subrange(pos as int + 12, pos as int + 14) =~= range_tokens(
                b.x_velocity,
            ));
            assert(tokens@.subrange(pos as int + 14, pos as int + 16) =~= range_tokens(
                b.y_velocity,
            ));
            assert(tokens@.subrange(pos as int + 16, pos as int + 18) =~= range_tokens(
                b.z_velocity,
            ));
            assert(tokens@.subrange(pos as int + 18, pos as int + 20) =~= range_tokens(
                b.rotation_speed,
            ));
            assert(tokens@.subrange(pos as int + 20, pos as int + 22) =~= range_tokens(
                b.rotation,
            ));
        }
    }
    let p0 = take_enter(tokens, pos)?;
    let (position, p1) = read_vec3(tokens, p0)?;
    let (rate, p2) = take_unsigned(tokens, p1)?;
    if rate > u32::MAX as u64 {
        return Err(ReadError::ValueOutOfRange);
    }
    let (lim, p3) = take_signed(tokens, p2)?;
    let max_particles = if lim == -1 {
        ParticleLimit::Unlimited
    } else if lim >= 0 && lim <= u32::MAX as i64 {
        ParticleLimit::Strict(lim as u32)
    } else {
        return Err(ReadError::ValueOutOfRange);
    };
    let (lifetime, p4) = read_range(tokens, p3)?;
    let (size, p5) = read_range(tokens, p4)?;
    let (size_modifier, p6) = read_range(tokens, p5)?;
    let (x_velocity, p7) = read_range(tokens, p6)?;
    let (y_velocity, p8) = read_range(tokens, p7)?;
    let (z_velocity, p9) = read_range(tokens, p8)?;
    let (rotation_speed, p10) = read_range(tokens, p9)?;
    let (rotation, p11) = read_range(tokens, p10)?;
    let (alive, p12) = take_unsigned(tokens, p11)?;
    if alive > u32::MAX as u64 {
        return Err(ReadError::ValueOutOfRange);
    }
    let (time, p13) = take_signed(tokens, p12)?;
    let (pts, p14) = take_unsigned(tokens, p13)?;
    if pts > u32::MAX as u64 {
        return Err(ReadError::ValueOutOfRange);
    }
    let (resurrect, p15) = take_flag(tokens, p14)?;
    let (spawned, p16) = take_unsigned(tokens, p15)?;
    let p17 = take_leave(tokens, p16)?;
    let b = BaseEmitter {
        position,
        particle_spawn_rate: rate as u32,
        max_particles,
        lifetime,
        size,
        size_modifier,
        x_velocity,
        y_velocity,
        z_velocity,
        rotation_speed,
        rotation,
        alive_particles: alive as u32,
        time,
        particles_to_spawn: pts as u32,
        resurrect_particles: resurrect,
        spawned_particles: spawned,
    };
    proof {
        assert(tokens@.subrange(pos as int, p17 as int) =~= base_tokens(b));
        assert forall|v: BaseEmitter|
            pos as int + 28 <= tokens@.len() && tokens@.subrange(pos as int, pos as int + 28)
                == base_tokens(v) implies v == b by {
        }
    }
    Ok((b, p17))
}

/// Reads back an emitter written by the codec; a nonnegative kind id goes
/// through the registry, whose constructed shape reports that same id.
/// Reading a written built-in shape is owed to succeed and restore it
/// exactly; ids that name no shape are refused, and a missing registry
/// callback surfaces as the wrapped registry error.
pub fn read_emitter<C: CustomEmitter, S: CustomEmitterSource<C>>(
    tokens: &Vec<Token>,
    pos: usize,
    factory: &CustomEmitterFactory<S>,
) -> (r: Result<(Emitter<C>, usize), ReadError>)
    ensures
        r matches Ok(pr) ==> pr.1 > pos && pr.1 <= tokens@.len() && !pr.0.is_unknown()
            && tokens@.subrange(pos as int, pr.1 as int) == emitter_tokens(pr.0),
        forall|em: Emitter<C>|
            (em matches Emitter::Box(_)) && pos as int + 34 <= tokens@.len()
                && tokens@.subrange(pos as int, pos as int + 34) == emitter_tokens(em) ==> r
                == Result::<(Emitter<C>, usize), ReadError>::Ok((em, (pos + 34) as usize)),
        forall|em: Emitter<C>|
            (em matches Emitter::Sphere(_)) && pos as int + 32 <= tokens@.len()
                && tokens@.subrange(pos as int, pos as int + 32) == emitter_tokens(em) ==> r
                == Result::<(Emitter<C>, usize), ReadError>::Ok((em, (pos + 32) as usize)),
        forall|v: i64|
            pos as int + 2 <= tokens@.len() && tokens@[pos as int] == Token::Enter
                && tokens@[pos as int + 1] == Token::Signed(v) && (v == -1 || v < -3 || v
                > i32::MAX as i64) ==> r
                == Result::<(Emitter<C>, usize), ReadError>::Err(ReadError::UnknownKind),
        forall|v: i64|
            pos as int + 2 <= tokens@.len() && tokens@[pos as int] == Token::Enter
                && tokens@[pos as int + 1] == Token::Signed(v) && 0 <= v <= i32::MAX as i64
                && factory.callback is None ==> r
                == Result::<(Emitter<C>, usize), ReadError>::Err(
                ReadError::Emitter(EmitterError::NoCallbackRegistered),
            ),
{
    proof {
        assert forall|em: Emitter<C>|
            (em matches Emitter::Box(_)) && pos as int + 34 <= tokens@.len()
                && tokens@.subrange(pos as int, pos as int + 34) == emitter_tokens(em) implies {
            &&& tokens@[pos as int] == Token::Enter
            &&& tokens@[pos as int + 1] == Token::Signed((-2) as i64)
            &&& (em matches Emitter::Box(b) ==> tokens@.subrange(pos as int + 2, pos as int + 30)
                == base_tokens(b.emitter) && tokens@[pos as int + 30] == Token::Signed(
                b.half_width,
            ) && tokens@[pos as int + 31] == Token::Signed(b.half_height) && tokens@[pos as int
                + 32] == Token::Signed(b.half_depth) && tokens@[pos as int + 33] == Token::Leave)
        } by {
            let w = tokens@.subrange(pos as int, pos as int + 34);
            let t = emitter_tokens(em);
            if let Emitter::Box(b) = em {
                assert(base_tokens(b.emitter).len() == 28);
                assert(t[0] == Token::Enter);
                assert(t[1] == Token::Signed((-2) as i64));
                assert(t[30] == Token::Signed(b.half_width));
                assert(t[31] == Token::Signed(b.half_height));
                assert(t[32] == Token::Signed(b.half_depth));
                assert(t[33] == Token::Leave);
                assert(forall|o: int|
                    0 <= o < 34 ==> #[trigger] w[o] == tokens@[pos as int + o]);
                assert forall|o: int|
                    0 <= o < 28 implies tokens@.subrange(pos as int + 2, pos as int + 30)[o]
                        == base_tokens(b.emitter)[o] by {
                    assert(w[2 + o] == tokens@[pos as int + 2 + o]);
                    assert(t[2 + o] == base_tokens(b.emitter)[o]);
                }
                assert(tokens@.subrange(pos as int + 2, pos as int + 30) =~= base_tokens(
                    b.emitter,
                ));
            }
        }
        assert forall|em: Emitter<C>|
            (em matches Emitter::Sphere(_)) && pos as int + 32 <= tokens@.len()
                && tokens@.subrange(pos as int, pos as int + 32) == emitter_tokens(em) implies {
            &&& tokens@[pos as int] == Token::Enter
            &&& tokens@[pos as int + 1] == Token::Signed((-3) as i64)
            &&& (em matches Emitter::Sphere(sp) ==> tokens@.subrange(
                pos as int + 2,
                pos as int + 30,
            ) == base_tokens(sp.emitter) && tokens@[pos as int + 30] == Token::Signed(sp.radius)
                && tokens@[pos as int + 31] == Token::Leave)
        } by {
            let w = tokens@.subrange(pos as int, pos as int + 32);
            let t = emitter_tokens(em);
            if let Emitter::Sphere(sp) = em {
                assert(base_tokens(sp.emitter).len() == 28);
                assert(t[0] == Token::Enter);
                assert(t[1] == Token::Signed((-3) as i64));
                assert(t[30] == Token::Signed(sp.radius));
                assert(t[31] == Token::Leave);
                assert(forall|o: int|
                    0 <= o < 32 ==> #[trigger] w[o] == tokens@[pos as int + o]);
                assert forall|o: int|
                    0 <= o < 28 implies tokens@.subrange(pos as int + 2, pos as int + 30)[o]
                        == base_tokens(sp.emitter)[o] by {
                    assert(w[2 + o] == tokens@[pos as int + 2 + o]);
                    assert(t[2 + o] == base_tokens(sp.emitter)[o]);
                }
                assert(tokens@.subrange(pos as int + 2, pos as int + 30) =~= base_tokens(
                    sp.emitter,
                ));
            }
        }
    }
    let p0 = take_enter(tokens, pos)?;
    let (id, p1) = take_signed(tokens, p0)?;
    if id == -2 {
        let (base, p2) = read_base(tokens, p1)?;
        let (hw, p3) = take_signed(tokens, p2)?;
        let (hh, p4) = take_signed(tokens, p3)?;
        let (hd, p5) = take_signed(tokens, p4)?;
        let p6 = take_leave(tokens, p5)?;
        let em = Emitter::Box(
            BoxEmitter { emitter: base, half_width: hw, half_height: hh, half_depth: hd },
        );
        proof {
            assert(tokens@.subrange(pos as int, p6 as int) =~= emitter_tokens::<C>(em));
            assert forall|em2: Emitter<C>|
                (em2 matches Emitter::Box(_)) && pos as int + 34 <= tokens@.len()
                    && tokens@.subrange(pos as int, pos as int + 34) == emitter_tokens(em2)
                implies em2 == em by {
                if let Emitter::Box(b2) = em2 {
                    lemma_base_tokens_injective(b2.emitter, base);
                }
            }
        }
        Ok((em, p6))
    } else if id == -3 {
        let (base, p2) = read_base(tokens, p1)?;
        let (radius, p3) = take_signed(tokens, p2)?;
        let p4 = take_leave(tokens, p3)?;
        let em = Emitter::Sphere(SphereEmitter { emitter: base, radius });
        proof {
            assert(tokens@.subrange(pos as int, p4 as int) =~= emitter_tokens::<C>(em));
            assert forall|em2: Emitter<C>|
                (em2 matches Emitter::Sphere(_)) && pos as int + 32 <= tokens@.len()
                    && tokens@.subrange(pos as int, pos as int + 32) == emitter_tokens(em2)
                implies em2 == em by {
                if let Emitter::Sphere(s2) = em2 {
                    lemma_base_tokens_injective(s2.emitter, base);
                }
            }
        }
        Ok((em, p4))
    } else if id >= 0 && id <= i32::MAX as i64 {
        let custom = match factory.spawn(id as i32) {
            Ok(c) => c,
            Err(e) => {
                return Err(ReadError::Emitter(e));
            },
        };
        let (base, p2) = read_base(tokens, p1)?;
        let p3 = take_leave(tokens, p2)?;
        let em = Emitter::Custom(base, custom);
        proof {
            assert(tokens@.subrange(pos as int, p3 as int) =~= emitter_tokens::<C>(em));
        }
        Ok((em, p3))
    } else {
        Err(ReadError::UnknownKind)
    }
}

proof fn lemma_particles_tokens_push(ps: Seq<Particle>, p: Particle, upto: int)
    requires
        0 <= upto <= ps.len(),
    ensures
        particles_tokens(ps.push(p), upto) == particles_tokens(ps, upto),
    decreases upto,
{
    if upto > 0 {
        lemma_particles_tokens_push(ps, p, upto - 1);
        assert(ps.push(p)[upto - 1] == ps[upto - 1]);
    }
}

proof fn lemma_indices_tokens_push(fr: Seq<u32>, v: u32, upto: int)
    requires
        0 <= upto <= fr.len(),
    ensures
        indices_tokens(fr.push(v), upto) == indices_tokens(fr, upto),
    decreases upto,
{
    if upto > 0 {
        lemma_indices_tokens_push(fr, v, upto - 1);
        assert(fr.push(v)[upto - 1] == fr[upto - 1]);
    }
}

proof fn lemma_emitters_tokens_push<C: CustomEmitter>(
    es: Seq<Emitter<C>>,
    e: Emitter<C>,
    upto: int,
)
    requires
        0 <= upto <= es.len(),
    ensures
        emitters_tokens(es.push(e), upto) == emitters_tokens(es, upto),
    decreases upto,
{
    if upto > 0 {
        lemma_emitters_tokens_push(es, e, upto - 1);
        assert(es.push(e)[upto - 1] == es[upto - 1]);
    }
}

proof fn lemma_points_tokens_push(pts: Seq<GradientPoint>, p: GradientPoint, upto: int)
    requires
        0 <= upto <= pts.len(),
    ensures
        points_tokens(pts.push(p), upto) == points_tokens(pts, upto),
    decreases upto,
{
    if upto > 0 {
        lemma_points_tokens_push(pts, p, upto - 1);
        assert(pts.push(p)[upto - 1] == pts[upto - 1]);
    }
}

fn read_pool(tokens: &Vec<Token>, pos: usize) -> (r: Result<
    ((Vec<Particle>, Vec<u32>), usize),
    ReadError,
>)
    ensures
        r matches Ok(pr) ==> pr.1 >= pos && pr.1 <= tokens@.len() && tokens@.subrange(
            pos as int,
            pr.1 as int,
        ) == pool_tokens(pr.0.0@, pr.0.1@),
        pos as int + 3 <= tokens@.len() && tokens@[pos as int] == Token::Enter && tokens@[pos
            as int + 1] == Token::Unsigned(0) && tokens@[pos as int + 2] == Token::Unsigned(0)
            ==> (r matches Ok(pr) && pr.0.0@ =~= Seq::<Particle>::empty() && pr.0.1@
            =~= Seq::<u32>::empty() && pr.1 == pos + 3),
{
    let p0 = take_enter(tokens, pos)?;
    let (pcount, p1) = take_unsigned(tokens, p0)?;
    if pcount > usize::MAX as u64 {
        return Err(ReadError::ValueOutOfRange);
    }
    let pcount: usize = pcount as usize;
    let mut particles: Vec<Particle> = Vec::new();
    let mut cur: usize = p1;
    let mut i: usize = 0;
    while i < pcount
        invariant
            i <= pcount,
            particles@.len() == i,
            pos < p1 <= cur <= tokens@.len(),
            tokens@.subrange(p1 as int, cur as int) == particles_tokens(particles@, i as int),
            (pos as int + 3 <= tokens@.len() && tokens@[pos as int] == Token::Enter && tokens@[pos
                as int + 1] == Token::Unsigned(0) && tokens@[pos as int + 2] == Token::Unsigned(0)) ==> pcount == 0,
        decreases pcount - i,
    {
        let ghost before = particles@;
        let ghost cur0 = cur;
        let (p, np) = read_particle(tokens, cur)?;
        particles.push(p);
        proof {
            lemma_particles_tokens_push(before, p, i as int);
            assert(tokens@.subrange(p1 as int, np as int) =~= tokens@.subrange(
                p1 as int,
                cur0 as int,
            ) + tokens@.subrange(cur0 as int, np as int));
            assert(tokens@.subrange(p1 as int, np as int) =~= particles_tokens(
                particles@,
                i as int + 1,
            ));
        }
        cur = np;
        i = i + 1;
    }
    let (fcount, p2) = take_unsigned(tokens, cur)?;
    if fcount > usize::MAX as u64 {
        return Err(ReadError::ValueOutOfRange);
    }
    let fcount: usize = fcount as usize;
    let ghost fstart = p2;
    let mut free: Vec<u32> = Vec::new();
    let mut cur2: usize = p2;
    let mut i: usize = 0;
    while i < fcount
        invariant
            i <= fcount,
            free@.len() == i,
            fstart <= cur2 <= tokens@.len(),
            tokens@.subrange(fstart as int, cur2 as int) == indices_tokens(free@, i as int),
            (pos as int + 3 <= tokens@.len() && tokens@[pos as int] == Token::Enter && tokens@[pos
                as int + 1] == Token::Unsigned(0) && tokens@[pos as int + 2] == Token::Unsigned(0)) ==> fcount == 0 && cur2 == pos + 3,
        decreases fcount - i,
    {
        let ghost before = free@;
        let ghost cur0 = cur2;
        let (v, np) = take_unsigned(tokens, cur2)?;
        if v > u32::MAX as u64 {
            return Err(ReadError::ValueOutOfRange);
        }
        free.push(v as u32);
        proof {
            lemma_indices_tokens_push(before, v as u32, i as int);
            assert(tokens@.subrange(fstart as int, np as int) =~= tokens@.subrange(
                fstart as int,
                cur0 as int,
            ) + tokens@.subrange(cur0 as int, np as int));
            assert(tokens@.subrange(cur0 as int, np as int) =~= seq![Token::Unsigned(v)]);
            assert(tokens@.subrange(fstart as int, np as int) =~= indices_tokens(
                free@,
                i as int + 1,
            ));
        }
        cur2 = np;
        i = i + 1;
    }
    proof {
        assert(tokens@.subrange(pos as int, cur2 as int) =~= pool_tokens(particles@, free@));
    }
    Ok(((particles, free), cur2))
}


/// The per-offset shape of the token run of a system with an empty pool,
/// no emitters and no color curve.
proof fn lemma_empty_system_run_facts<C: CustomEmitter>(tokens: Seq<Token>, pos: int)
    requires
        pos >= 0,
    ensures
        forall|s: ParticleSystem<C>|
            s.particles@.len() == 0 && s.free_particles@.len() == 0 && s.emitters@.len() == 0
                && s.color_over_lifetime is None && pos + system_tokens(s).len() <= tokens.len()
                && tokens.subrange(pos, pos + system_tokens(s).len()) == system_tokens(s) ==> {
                &&& tokens[pos] == Token::Enter
                &&& tokens[pos + 1] == Token::Unsigned(0)
                &&& tokens[pos + 2] == Token::Unsigned(0)
                &&& (s.texture is None ==> tokens[pos + 3] == Token::Flag(false) && tokens[pos
                    + 4] == Token::Unsigned(0) && tokens.subrange(pos + 5, pos + 8)
                    == vec3_tokens(s.acceleration) && tokens[pos + 8] == Token::Flag(false)
                    && tokens[pos + 9] == Token::Leave && system_tokens(s).len() == 10)
                &&& (s.texture matches Some(h) ==> tokens[pos + 3] == Token::Flag(true)
                    && tokens[pos + 4] == Token::Unsigned(h.id) && tokens[pos + 5]
                    == Token::Unsigned(0) && tokens.subrange(pos + 6, pos + 9) == vec3_tokens(
                    s.acceleration,
                ) && tokens[pos + 9] == Token::Flag(false) && tokens[pos + 10] == Token::Leave
                    && system_tokens(s).len() == 11)
            },
{
    
    assert forall|s: ParticleSystem<C>|
        s.particles@.len() == 0 && s.free_particles@.len() == 0 && s.emitters@.len() == 0
            && s.color_over_lifetime is None && pos + system_tokens(s).len()
            <= tokens.len() && tokens.subrange(
            pos,
            pos + system_tokens(s).len(),
        ) == system_tokens(s) implies {
        &&& tokens[pos] == Token::Enter
        &&& tokens[pos + 1] == Token::Unsigned(0)
        &&& tokens[pos + 2] == Token::Unsigned(0)
        &&& (s.texture is None ==> tokens[pos + 3] == Token::Flag(false)
            && tokens[pos + 4] == Token::Unsigned(0) && tokens.subrange(pos + 5, pos + 8)
            == vec3_tokens(s.acceleration) && tokens[pos + 8] == Token::Flag(false)
            && tokens[pos + 9] == Token::Leave && system_tokens(s).len() == 10)
        &&& (s.texture matches Some(h) ==> tokens[pos + 3] == Token::Flag(true)
            && tokens[pos + 4] == Token::Unsigned(h.id) && tokens[pos + 5]
            == Token::Unsigned(0) && tokens.subrange(pos + 6, pos + 9)
            == vec3_tokens(s.acceleration) && tokens[pos + 9] == Token::Flag(false)
            && tokens[pos + 10] == Token::Leave && system_tokens(s).len() == 11)
    } by {
        let t = system_tokens(s);
        assert(particles_tokens(s.particles@, 0) == Seq::<Token>::empty());
        assert(indices_tokens(s.free_particles@, 0) == Seq::<Token>::empty());
        assert(emitters_tokens(s.emitters@, 0) == Seq::<Token>::empty());
        match s.texture {
            Option::None => {
                assert(t.len() == 10);
                assert(t[0] == Token::Enter);
                assert(t[1] == Token::Unsigned(0));
                assert(t[2] == Token::Unsigned(0));
                assert(t[3] == Token::Flag(false));
                assert(t[4] == Token::Unsigned(0));
                assert(t[5] == Token::Signed(s.acceleration.x));
                assert(t[6] == Token::Signed(s.acceleration.y));
                assert(t[7] == Token::Signed(s.acceleration.z));
                assert(t[8] == Token::Flag(false));
                assert(t[9] == Token::Leave);
                assert(forall|o: int|
                    0 <= o < 10 ==> #[trigger] tokens.subrange(
                        pos,
                        pos + 10,
                    )[o] == tokens[pos + o]);
                assert(tokens.subrange(pos + 5, pos + 8) =~= vec3_tokens(
                    s.acceleration,
                ));
            },
            Option::Some(h) => {
                assert(t.len() == 11);
                assert(t[0] == Token::Enter);
                assert(t[1] == Token::Unsigned(0));
                assert(t[2] == Token::Unsigned(0));
                assert(t[3] == Token::Flag(true));
                assert(t[4] == Token::Unsigned(h.id));
                assert(t[5] == Token::Unsigned(0));
                assert(t[6] == Token::Signed(s.acceleration.x));
                assert(t[7] == Token::Signed(s.acceleration.y));
                assert(t[8] == Token::Signed(s.acceleration.z));
                assert(t[9] == Token::Flag(false));
                assert(t[10] == Token::Leave);
                assert(forall|o: int|
                    0 <= o < 11 ==> #[trigger] tokens.subrange(
                        pos,
                        pos + 11,
                    )[o] == tokens[pos + o]);
                assert(tokens.subrange(pos + 6, pos + 9) =~= vec3_tokens(
                    s.acceleration,
                ));
            },
        }
    }
    
}

/// Reads back a whole particle system written by the codec: whatever is
/// accepted is the token run of the returned system, so reading what
/// `write_system` wrote restores the written state exactly.
///
/// Success is owed here only for the run of a system with nothing in its
/// pool and no emitters or color curve; for fuller runs the per-record
/// readers each owe success, but the window alignment across the
/// variable-length emitter section is not carried through this function's
/// contract.
#[verifier::rlimit(80)]
pub fn read_system<C: CustomEmitter, S: CustomEmitterSource<C>>(
    tokens: &Vec<Token>,
    pos: usize,
    factory: &CustomEmitterFactory<S>,
) -> (r: Result<(ParticleSystem<C>, usize), ReadError>)
    ensures
        r matches Ok(pr) ==> pr.1 >= pos && pr.1 <= tokens@.len() && tokens@.subrange(
            pos as int,
            pr.1 as int,
        ) == system_tokens(pr.0),
        forall|s: ParticleSystem<C>|
            s.particles@.len() == 0 && s.free_particles@.len() == 0 && s.emitters@.len() == 0
                && s.color_over_lifetime is None && pos as int + system_tokens(s).len()
                <= tokens@.len() && tokens@.subrange(
                pos as int,
                pos as int + system_tokens(s).len(),
            ) == system_tokens(s) ==> (r matches Ok(pr) && pr.0.particles@ == s.particles@
                && pr.0.free_particles@ == s.free_particles@ && pr.0.emitters@ == s.emitters@
                && pr.0.texture == s.texture && pr.0.acceleration == s.acceleration
                && pr.0.color_over_lifetime is None && pr.1 as int == pos as int
                + system_tokens(s).len()),
{
    proof {
        lemma_empty_system_run_facts::<C>(tokens@, pos as int);
    }
    let ((particles, free_particles), p0) = read_pool(tokens, pos)?;
    let (has_texture, p1) = take_flag(tokens, p0)?;
    let (texture, p2) = if has_texture {
        let (id, np) = take_unsigned(tokens, p1)?;
        (Some(TextureHandle { id }), np)
    } else {
        (None, p1)
    };
    let (ecount, p3) = take_unsigned(tokens, p2)?;
    if ecount > usize::MAX as u64 {
        return Err(ReadError::ValueOutOfRange);
    }
    let ecount: usize = ecount as usize;
    let ghost estart = p3;
    let mut emitters: Vec<Emitter<C>> = Vec::new();
    let mut cur: usize = p3;
    let mut i: usize = 0;
    while i < ecount
        invariant
            i <= ecount,
            emitters@.len() == i,
            estart <= cur <= tokens@.len(),
            tokens@.subrange(estart as int, cur as int) == emitters_tokens(emitters@, i as int),
            forall|s: ParticleSystem<C>|
                s.particles@.len() == 0 && s.free_particles@.len() == 0 && s.emitters@.len() == 0
                    && s.color_over_lifetime is None && pos as int + system_tokens(s).len()
                    <= tokens@.len() && tokens@.subrange(
                    pos as int,
                    pos as int + system_tokens(s).len(),
            ) == system_tokens(s) ==> ecount == 0,
        decreases ecount - i,
    {
        let ghost before = emitters@;
        let ghost cur0 = cur;
        let (em, np) = read_emitter(tokens, cur, factory)?;
        emitters.push(em);
        proof {
            lemma_emitters_tokens_push(before, em, i as int);
            assert(tokens@.subrange(estart as int, np as int) =~= tokens@.subrange(
                estart as int,
                cur0 as int,
            ) + tokens@.subrange(cur0 as int, np as int));
            assert(tokens@.subrange(estart as int, np as int) =~= emitters_tokens(
                emitters@,
                i as int + 1,
            ));
        }
        cur = np;
        i = i + 1;
    }
    let (acceleration, p4) = read_vec3(tokens, cur)?;
    let (has_gradient, p5) = take_flag(tokens, p4)?;
    let (color_over_lifetime, p6) = if has_gradient {
        let (gcount, q0) = take_unsigned(tokens, p5)?;
        if gcount > usize::MAX as u64 {
            return Err(ReadError::ValueOutOfRange);
        }
        let gcount: usize = gcount as usize;
        let ghost gstart = q0;
        let mut points: Vec<GradientPoint> = Vec::new();
        let mut gcur: usize = q0;
        let mut i: usize = 0;
        while i < gcount
            invariant
                i <= gcount,
                points@.len() == i,
                gstart <= gcur <= tokens@.len(),
                tokens@.subrange(gstart as int, gcur as int) == points_tokens(points@, i as int),
                forall|s: ParticleSystem<C>|
                    !(s.particles@.len() == 0 && s.free_particles@.len() == 0 && s.emitters@.len() == 0
                        && s.color_over_lifetime is None && pos as int + system_tokens(s).len()
                        <= tokens@.len() && tokens@.subrange(
                        pos as int,
                        pos as int + system_tokens(s).len(),
            ) == system_tokens(s)),
            decreases gcount - i,
        {
            let ghost before = points@;
            let ghost cur0 = gcur;
            let (loc, q1) = take_signed(tokens, gcur)?;
            let (col, q2) = read_color(tokens, q1)?;
            let pt = GradientPoint { location: loc, color: col };
            points.push(pt);
            proof {
                lemma_points_tokens_push(before, pt, i as int);
                assert(tokens@.subrange(gstart as int, q2 as int) =~= tokens@.subrange(
                    gstart as int,
                    cur0 as int,
                ) + tokens@.subrange(cur0 as int, q1 as int) + tokens@.subrange(
                    q1 as int,
                    q2 as int,
                ));
                assert(tokens@.subrange(cur0 as int, q1 as int) =~= seq![Token::Signed(loc)]);
                assert(tokens@.subrange(gstart as int, q2 as int) =~= points_tokens(
                    points@,
                    i as int + 1,
                ));
            }
            gcur = q2;
            i = i + 1;
        }
        (Some(ColorGradient { points }), gcur)
    } else {
        (None, p5)
    };
    let p7 = take_leave(tokens, p6)?;
    let s = ParticleSystem {
        particles,
        free_particles,
        emitters,
        texture,
        acceleration,
        color_over_lifetime,
    };
    proof {
        assert(tokens@.subrange(p0 as int, p7 as int) =~= config_tokens(s));
        assert(tokens@.subrange(pos as int, p7 as int) =~= tokens@.subrange(pos as int, p0 as int)
            + tokens@.subrange(p0 as int, p7 as int));
        assert(tokens@.subrange(pos as int, p7 as int) =~= system_tokens(s));
    }
    Ok((s, p7))
}


/// A token run determines its particle: two particles with the same run
/// are equal. Together with the reader's guarantee that whatever it
/// accepts is the run of what it returns, this closes the round trip for
/// one record: reading back a written particle restores it exactly.
pub proof fn lemma_particle_tokens_injective(a: Particle, b: Particle)
    requires
        particle_tokens(a) == particle_tokens(b),
    ensures
        a == b,
{
    let ta = particle_tokens(a);
    let tb = particle_tokens(b);
    assert(ta[1] == Token::Signed(a.position.x) && tb[1] == Token::Signed(b.position.x));
    assert(ta[2] == Token::Signed(a.position.y) && tb[2] == Token::Signed(b.position.y));
    assert(ta[3] == Token::Signed(a.position.z) && tb[3] == Token::Signed(b.position.z));
    assert(ta[4] == Token::Signed(a.velocity.x) && tb[4] == Token::Signed(b.velocity.x));
    assert(ta[5] == Token::Signed(a.velocity.y) && tb[5] == Token::Signed(b.velocity.y));
    assert(ta[6] == Token::Signed(a.velocity.z) && tb[6] == Token::Signed(b.velocity.z));
    assert(ta[7] == Token::Signed(a.size) && tb[7] == Token::Signed(b.size));
    assert(ta[8] == Token::Flag(a.alive) && tb[8] == Token::Flag(b.alive));
    assert(ta[9] == Token::Signed(a.size_modifier) && tb[9] == Token::Signed(b.size_modifier));
    assert(ta[10] == Token::Signed(a.lifetime) && tb[10] == Token::Signed(b.lifetime));
    assert(ta[11] == Token::Signed(a.initial_lifetime) && tb[11] == Token::Signed(
        b.initial_lifetime,
    ));
    assert(ta[12] == Token::Signed(a.rotation_speed) && tb[12] == Token::Signed(
        b.rotation_speed,
    ));
    assert(ta[13] == Token::Signed(a.rotation) && tb[13] == Token::Signed(b.rotation));
    assert(ta[14] == Token::Unsigned(a.color.r as u64) && tb[14] == Token::Unsigned(
        b.color.r as u64,
    ));
    assert(ta[15] == Token::Unsigned(a.color.g as u64) && tb[15] == Token::Unsigned(
        b.color.g as u64,
    ));
    assert(ta[16] == Token::Unsigned(a.color.b as u64) && tb[16] == Token::Unsigned(
        b.color.b as u64,
    ));
    assert(ta[17] == Token::Unsigned(a.color.a as u64) && tb[17] == Token::Unsigned(
        b.color.a as u64,
    ));
    assert(ta[18] == Token::Unsigned(a.emitter_index as u64) && tb[18] == Token::Unsigned(
        b.emitter_index as u64,
    ));
}

/// A token run determines its base emitter, in the same way.
pub proof fn lemma_base_tokens_injective(a: BaseEmitter, b: BaseEmitter)
    requires
        base_tokens(a) == base_tokens(b),
    ensures
        a == b,
{
    let ta = base_tokens(a);
    let tb = base_tokens(b);
    assert(ta[1] == Token::Signed(a.position.x) && tb[1] == Token::Signed(b.position.x));
    assert(ta[2] == Token::Signed(a.position.y) && tb[2] == Token::Signed(b.position.y));
    assert(ta[3] == Token::Signed(a.position.z) && tb[3] == Token::Signed(b.position.z));
    assert(ta[4] == Token::Unsigned(a.particle_spawn_rate as u64) && tb[4] == Token::Unsigned(
        b.particle_spawn_rate as u64,
    ));
    match (a.max_particles, b.max_particles) {
        (ParticleLimit::Unlimited, ParticleLimit::Unlimited) => {},
        (ParticleLimit::Unlimited, ParticleLimit::Strict(n)) => {
            assert(ta[5] == Token::Signed((-1) as i64) && tb[5] == Token::Signed(n as i64));
            assert(false);
        },
        (ParticleLimit::Strict(n), ParticleLimit::Unlimited) => {
            assert(ta[5] == Token::Signed(n as i64) && tb[5] == Token::Signed((-1) as i64));
            assert(false);
        },
        (ParticleLimit::Strict(n1), ParticleLimit::Strict(n2)) => {
            assert(ta[5] == Token::Signed(n1 as i64) && tb[5] == Token::Signed(n2 as i64));
        },
    }
    assert(ta[6] == Token::Signed(a.lifetime.min) && tb[6] == Token::Signed(b.lifetime.min));
    assert(ta[7] == Token::Signed(a.lifetime.max) && tb[7] == Token::Signed(b.lifetime.max));
    assert(ta[8] == Token::Signed(a.size.min) && tb[8] == Token::Signed(b.size.min));
    assert(ta[9] == Token::Signed(a.size.max) && tb[9] == Token::Signed(b.size.max));
    assert(ta[10] == Token::Signed(a.size_modifier.min) && tb[10] == Token::Signed(
        b.size_modifier.min,
    ));
    assert(ta[11] == Token::Signed(a.size_modifier.max) && tb[11] == Token::Signed(
        b.size_modifier.max,
    ));
    assert(ta[12] == Token::Signed(a.x_velocity.min) && tb[12] == Token::Signed(
        b.x_velocity.min,
    ));
    assert(ta[13] == Token::Signed(a.x_velocity.max) && tb[13] == Token::Signed(
        b.x_velocity.max,
    ));
    assert(ta[14] == Token::Signed(a.y_velocity.min) && tb[14] == Token::Signed(
        b.y_velocity.min,
    ));
    assert(ta[15] == Token::Signed(a.y_velocity.max) && tb[15] == Token::Signed(
        b.y_velocity.max,
    ));
    assert(ta[16] == Token::Signed(a.z_velocity.min) && tb[16] == Token::Signed(
        b.z_velocity.min,
    ));
    assert(ta[17] == Token::Signed(a.z_velocity.max) && tb[17] == Token::Signed(
        b.z_velocity.max,
    ));
    assert(ta[18] == Token::Signed(a.rotation_speed.min) && tb[18] == Token::Signed(
        b.rotation_speed.min,
    ));
    assert(ta[19] == Token::Signed(a.rotation_speed.max) && tb[19] == Token::Signed(
        b.rotation_speed.max,
    ));
    assert(ta[20] == Token::Signed(a.rotation.min) && tb[20] == Token::Signed(b.rotation.min));
    assert(ta[21] == Token::Signed(a.rotation.max) && tb[21] == Token::Signed(b.rotation.max));
    assert(ta[22] == Token::Unsigned(a.alive_particles as u64) && tb[22] == Token::Unsigned(
        b.alive_particles as u64,
    ));
    assert(ta[23] == Token::Signed(a.time) && tb[23] == Token::Signed(b.time));
    assert(ta[24] == Token::Unsigned(a.particles_to_spawn as u64) && tb[24] == Token::Unsigned(
        b.particles_to_spawn as u64,
    ));
    assert(ta[25] == Token::Flag(a.resurrect_particles) && tb[25] == Token::Flag(
        b.resurrect_particles,
    ));
    assert(ta[26] == Token::Unsigned(a.spawned_particles) && tb[26] == Token::Unsigned(
        b.spawned_particles,
    ));
}

} // verus!
