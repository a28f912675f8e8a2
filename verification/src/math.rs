//! Fixed-point scalar and vector arithmetic.
//!
//! A scalar is an `i64` counting millionths of a unit (`FX_ONE` is 1.0).
//! All operations saturate at the `i64` bounds instead of overflowing, and
//! products of two fixed-point scalars are rescaled by `FX_ONE` with
//! truncation toward zero.

use vstd::prelude::*;

verus! {

/// The fixed-point representation of 1.0 (and of one second, in microseconds).
pub const FX_ONE: i64 = 1_000_000;

/// The fixed-point representation of half of 1.0.
pub const FX_HALF: i64 = 500_000;

/// The fixed-point representation of pi.
pub const FX_PI: i64 = 3_141_593;

/// The fixed-point representation of two pi.
pub const FX_TAU: i64 = 6_283_186;

/// Saturates a mathematical integer into the `i64` range.
pub open spec fn sat64(x: int) -> int {
    if x > i64::MAX as int {
        i64::MAX as int
    } else if x < i64::MIN as int {
        i64::MIN as int
    } else {
        x
    }
}

/// Saturates a mathematical integer into the `u64` range.
pub open spec fn sat_u64(x: int) -> int {
    if x > u64::MAX as int {
        u64::MAX as int
    } else if x < 0 {
        0
    } else {
        x
    }
}

/// Division truncating toward zero, for a positive divisor.
pub open spec fn trunc_div(x: int, d: int) -> int
    recommends
        d > 0,
{
    if x >= 0 {
        x / d
    } else {
        -((-x) / d)
    }
}

/// The fixed-point product: `a * b` rescaled by `FX_ONE`, truncated toward
/// zero and saturated into the `i64` range.
pub open spec fn fx_mul_spec(a: int, b: int) -> int {
    sat64(trunc_div(a * b, FX_ONE as int))
}

/// Saturating addition.
pub fn sat_add(a: i64, b: i64) -> (r: i64)
    ensures
        r as int == sat64(a + b),
{
    match a.checked_add(b) {
        Some(v) => v,
        None => {
            if b > 0 {
                i64::MAX
            } else {
                i64::MIN
            }
        },
    }
}

/// Saturating subtraction.
pub fn sat_sub(a: i64, b: i64) -> (r: i64)
    ensures
        r as int == sat64(a - b),
{
    match a.checked_sub(b) {
        Some(v) => v,
        None => {
            if b < 0 {
                i64::MAX
            } else {
                i64::MIN
            }
        },
    }
}

/// Saturating addition on `u64`.
pub fn sat_add_u64(a: u64, b: u64) -> (r: u64)
    ensures
        r as int == sat_u64(a + b),
{
    a.saturating_add(b)
}

/// Fixed-point multiplication, saturating.
pub fn fx_mul(a: i64, b: i64) -> (r: i64)
    ensures
        r as int == fx_mul_spec(a as int, b as int),
{
    let aw: i128 = a as i128;
    let bw: i128 = b as i128;
    proof {
        assert(aw * bw <= 85070591730234615865843651857942052864int && aw * bw
            >= -85070591730234615865843651857942052864int) by (nonlinear_arith)
            requires
                -9223372036854775808int <= aw <= 9223372036854775807int,
                -9223372036854775808int <= bw <= 9223372036854775807int,
        ;
    }
    let p: i128 = aw * bw;
    let q: i128 = if p >= 0 {
        ((p as u128) / 1_000_000u128) as i128
    } else {
        proof {
            assert((((-p) as u128) / 1_000_000u128) as int == (-p) / 1_000_000);
        }
        -((((-p) as u128) / 1_000_000u128) as i128)
    };
    proof {
        assert(q == trunc_div(p as int, FX_ONE as int));
    }
    if q > (i64::MAX as i128) {
        i64::MAX
    } else if q < (i64::MIN as i128) {
        i64::MIN
    } else {
        q as i64
    }
}

/// Clamps a scalar to be at least zero.
pub fn clamp_nonneg(v: i64) -> (r: i64)
    ensures
        r as int == if v >= 0 { v as int } else { 0 },
{
    if v < 0 {
        0
    } else {
        v
    }
}

/// A three-component fixed-point vector.
#[derive(Clone, Copy, Debug, PartialEq, Eq, Structural)]
pub struct Vec3 {
    pub x: i64,
    pub y: i64,
    pub z: i64,
}

/// A two-component fixed-point vector, used for texture coordinates.
#[derive(Clone, Copy, Debug, PartialEq, Eq, Structural)]
pub struct Vec2 {
    pub x: i64,
    pub y: i64,
}

/// Componentwise saturating vector addition.
pub open spec fn vec3_add_spec(a: Vec3, b: Vec3) -> Vec3 {
    Vec3 { x: sat64(a.x + b.x) as i64, y: sat64(a.y + b.y) as i64, z: sat64(a.z + b.z) as i64 }
}

/// Componentwise fixed-point scaling of a vector.
pub open spec fn vec3_scale_spec(v: Vec3, s: int) -> Vec3 {
    Vec3 {
        x: fx_mul_spec(v.x as int, s) as i64,
        y: fx_mul_spec(v.y as int, s) as i64,
        z: fx_mul_spec(v.z as int, s) as i64,
    }
}

/// The squared distance between two points, each difference and the final
/// sum saturated into the `i64` range.
pub open spec fn sqr_distance_spec(a: Vec3, b: Vec3) -> int {
    let dx = sat64(a.x - b.x);
    let dy = sat64(a.y - b.y);
    let dz = sat64(a.z - b.z);
    sat64(dx * dx + dy * dy + dz * dz)
}

impl Vec3 {
    /// The zero vector.
    pub fn zero() -> (r: Vec3)
        ensures
            r == (Vec3 { x: 0i64, y: 0i64, z: 0i64 }),
    {
        Vec3 { x: 0, y: 0, z: 0 }
    }

    /// Builds a vector from its components.
    pub fn new(x: i64, y: i64, z: i64) -> (r: Vec3)
        ensures
            r == (Vec3 { x, y, z }),
    {
        Vec3 { x, y, z }
    }

    /// Componentwise saturating addition.
    pub fn add_sat(self, o: Vec3) -> (r: Vec3)
        ensures
            r == vec3_add_spec(self, o),
    {
        Vec3 { x: sat_add(self.x, o.x), y: sat_add(self.y, o.y), z: sat_add(self.z, o.z) }
    }

    /// Componentwise fixed-point scaling.
    pub fn scale(self, s: i64) -> (r: Vec3)
        ensures
            r == vec3_scale_spec(self, s as int),
    {
        Vec3 { x: fx_mul(self.x, s), y: fx_mul(self.y, s), z: fx_mul(self.z, s) }
    }

    /// The squared distance to another point.
    pub fn sqr_distance(&self, o: &Vec3) -> (r: i64)
        ensures
            r as int == sqr_distance_spec(*self, *o),
            r >= 0,
    {
        let dx = sat_sub(self.x, o.x);
        let dy = sat_sub(self.y, o.y);
        let dz = sat_sub(self.z, o.z);
        let sx = sq_widen(dx);
        let sy = sq_widen(dy);
        let sz = sq_widen(dz);
        let total: u128 = sx + sy + sz;
        if total > (i64::MAX as u128) {
            i64::MAX
        } else {
            total as i64
        }
    }
}

/// A scaled value stays within the magnitude of what it scales: when
/// `|b| <= FX_ONE` (so `b` stands for a factor in `[-1, 1]`), the
/// fixed-point product lies between `-|a|` and `|a|`.
pub proof fn lemma_fx_mul_within(a: int, b: int)
    requires
        -1_000_000 <= b <= 1_000_000,
        i64::MIN <= a <= i64::MAX,
    ensures
        a >= 0 ==> -a <= fx_mul_spec(a, b) <= a,
        a < 0 ==> a <= fx_mul_spec(a, b) <= -a,
{
    let m = if a >= 0 {
        a
    } else {
        -a
    };
    let p = a * b;
    assert(-(m * 1_000_000) <= p <= m * 1_000_000) by (nonlinear_arith)
        requires
            -1_000_000 <= b <= 1_000_000,
            m == (if a >= 0 {
                a
            } else {
                -a
            }),
            p == a * b,
    ;
    if p >= 0 {
        assert(p / 1_000_000 <= (m * 1_000_000) / 1_000_000) by (nonlinear_arith)
            requires
                0 <= p <= m * 1_000_000,
        ;
        assert((m * 1_000_000) / 1_000_000 == m) by (nonlinear_arith);
        assert(p / 1_000_000 >= 0) by (nonlinear_arith)
            requires
                p >= 0,
        ;
    } else {
        assert((-p) / 1_000_000 <= (m * 1_000_000) / 1_000_000) by (nonlinear_arith)
            requires
                0 <= -p <= m * 1_000_000,
        ;
        assert((m * 1_000_000) / 1_000_000 == m) by (nonlinear_arith);
        assert((-p) / 1_000_000 >= 0) by (nonlinear_arith)
            requires
                -p >= 0,
        ;
    }
}

/// Fixed-point sine on `[0, FX_PI]`, by Bhaskara's rational approximation,
/// clamped into `[0, FX_ONE]`.
fn sin_half_turn(x: i64) -> (r: i64)
    requires
        0 <= x <= FX_PI,
    ensures
        0 <= r <= FX_ONE,
{
    let xw: u128 = x as u128;
    let pi: u128 = FX_PI as u128;
    proof {
        assert(0 <= xw * (pi - xw) <= 9900000000000int) by (nonlinear_arith)
            requires
                0 <= xw <= 3141593,
                pi == 3141593,
        ;
    }
    let prod: u128 = xw * (pi - xw);
    proof {
        assert(4 * (xw * (pi - xw)) + (2 * xw - pi) * (2 * xw - pi) == pi * pi) by (nonlinear_arith);
        assert((2 * xw - pi) * (2 * xw - pi) >= 0) by (nonlinear_arith);
        assert(4 * prod <= pi * pi);
    }
    proof {
        assert(1 <= pi * pi <= 9900000000000int) by (nonlinear_arith)
            requires
                pi == 3141593,
        ;
    }
    let num: u128 = 16 * prod * 1_000_000;
    let den: u128 = 5 * (pi * pi) - 4 * prod;
    let q: u128 = num / den;
    if q > 1_000_000 {
        FX_ONE
    } else {
        q as i64
    }
}

/// Fixed-point sine on `[0, FX_TAU]`, clamped into `[-FX_ONE, FX_ONE]`.
pub fn fx_sin(x: i64) -> (r: i64)
    requires
        0 <= x <= FX_TAU,
    ensures
        -FX_ONE <= r <= FX_ONE,
{
    if x <= FX_PI {
        sin_half_turn(x)
    } else {
        -sin_half_turn(x - FX_PI)
    }
}

/// Fixed-point cosine on `[0, FX_TAU]`, clamped into `[-FX_ONE, FX_ONE]`.
pub fn fx_cos(x: i64) -> (r: i64)
    requires
        0 <= x <= FX_TAU,
    ensures
        -FX_ONE <= r <= FX_ONE,
{
    let shifted: i64 = x + 1_570_796;
    if shifted > FX_TAU {
        fx_sin(shifted - FX_TAU)
    } else {
        fx_sin(shifted)
    }
}

/// The square of a scalar, widened so that it cannot overflow.
fn sq_widen(x: i64) -> (r: u128)
    ensures
        r == (x as int) * (x as int),
        0 <= r <= 85070591730234615865843651857942052864int,
{
    let xw: i128 = x as i128;
    proof {
        assert(0 <= xw * xw <= 85070591730234615865843651857942052864int) by (nonlinear_arith)
            requires
                -9223372036854775808int <= xw <= 9223372036854775807int,
        ;
    }
    (xw * xw) as u128
}

} // verus!
