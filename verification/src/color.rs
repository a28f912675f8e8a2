//! Colors and the color-over-lifetime gradient.

use crate::math::{trunc_div, FX_ONE};
use vstd::prelude::*;

verus! {

/// An 8-bit-per-channel RGBA color.
#[derive(Clone, Copy, Debug, PartialEq, Eq, Structural)]
pub struct Color {
    pub r: u8,
    pub g: u8,
    pub b: u8,
    pub a: u8,
}

/// Opaque white, the color every particle starts from.
pub open spec fn white_spec() -> Color {
    Color { r: 255, g: 255, b: 255, a: 255 }
}

impl Color {
    /// Builds a color from its four channels.
    pub fn from_rgba(r: u8, g: u8, b: u8, a: u8) -> (c: Color)
        ensures
            c == (Color { r, g, b, a }),
    {
        Color { r, g, b, a }
    }

    /// Opaque white.
    pub fn white() -> (c: Color)
        ensures
            c == white_spec(),
    {
        Color { r: 255, g: 255, b: 255, a: 255 }
    }
}

/// One keypoint of a gradient: a time fraction in `[0, FX_ONE]` paired with
/// the color the gradient takes there.
#[derive(Clone, Copy, Debug, PartialEq, Eq, Structural)]
pub struct GradientPoint {
    pub location: i64,
    pub color: Color,
}

impl GradientPoint {
    /// Builds a keypoint.
    pub fn new(location: i64, color: Color) -> (p: GradientPoint)
        ensures
            p == (GradientPoint { location, color }),
    {
        GradientPoint { location, color }
    }
}

/// Linear interpolation of one channel: `c0 + (c1 - c0) * num / den`,
/// truncated toward zero.
pub open spec fn lerp_channel_spec(c0: u8, c1: u8, num: int, den: int) -> int {
    c0 + trunc_div((c1 - c0) * num, den)
}

/// Linear interpolation of a color between two keypoints at fraction `t`.
pub open spec fn lerp_point_spec(a: GradientPoint, b: GradientPoint, t: int) -> Color {
    let num = t - a.location;
    let den = b.location - a.location;
    Color {
        r: lerp_channel_spec(a.color.r, b.color.r, num, den) as u8,
        g: lerp_channel_spec(a.color.g, b.color.g, num, den) as u8,
        b: lerp_channel_spec(a.color.b, b.color.b, num, den) as u8,
        a: lerp_channel_spec(a.color.a, b.color.a, num, den) as u8,
    }
}

/// Piecewise evaluation of a gradient at fraction `t`: white when there are
/// no keypoints, clamped to the outer keypoints, and linearly interpolated
/// between the first adjacent pair that brackets `t`.
pub open spec fn gradient_eval(points: Seq<GradientPoint>, t: int) -> Color
    decreases points.len(),
{
    if points.len() == 0 {
        white_spec()
    } else if points.len() == 1 || t <= points[0].location {
        points[0].color
    } else if t <= points[1].location {
        lerp_point_spec(points[0], points[1], t)
    } else {
        gradient_eval(points.drop_first(), t)
    }
}

/// An ordered list of keypoints, evaluated as a piecewise-linear color
/// curve over the fraction range `[0, FX_ONE]`.
#[derive(Clone, Debug)]
pub struct ColorGradient {
    pub points: Vec<GradientPoint>,
}

impl ColorGradient {
    /// Every keypoint's location lies in `[0, FX_ONE]`.
    pub open spec fn wf(self) -> bool {
        forall|i: int| 0 <= i < self.points@.len() ==> 0 <= #[trigger] self.points@[i].location <= FX_ONE
    }

    /// Builds a gradient with no keypoints.
    pub fn new() -> (g: ColorGradient)
        ensures
            g.points@ =~= Seq::<GradientPoint>::empty(),
            g.wf(),
    {
        ColorGradient { points: Vec::new() }
    }

    /// Appends a keypoint to the curve.
    pub fn add_point(&mut self, point: GradientPoint)
        requires
            0 <= point.location <= FX_ONE,
    ensures
            final(self).points@ == old(self).points@.push(point),
            old(self).wf() ==> final(self).wf(),
    {
        self.points.push(point);
    }

    /// Evaluates the curve at fraction `t`.
    pub fn get_color(&self, t: i64) -> (c: Color)
        requires
            self.wf(),
        ensures
            c == gradient_eval(self.points@, t as int),
    {
        let n = self.points.len();
        if n == 0 {
            return Color::white();
        }
        if n == 1 || t <= self.points[0].location {
            return self.points[0].color;
        }
        let mut i: usize = 0;
        proof {
            assert(self.points@.skip(0) =~= self.points@);
        }
        while i + 1 < n
            invariant
                n == self.points@.len(),
                0 <= i < n,
                self.wf(),
                t > self.points@[i as int].location,
                gradient_eval(self.points@, t as int) == gradient_eval(
                    self.points@.skip(i as int),
                    t as int,
                ),
            decreases n - i,
        {
            proof {
                assert(self.points@.skip(i as int)[0] == self.points@[i as int]);
                assert(self.points@.skip(i as int)[1] == self.points@[i as int + 1]);
            }
            if t <= self.points[i + 1].location {
                let a = self.points[i];
                let b = self.points[i + 1];
                let num = t - a.location;
                let den = b.location - a.location;
                return Color {
                    r: lerp_channel(a.color.r, b.color.r, num, den),
                    g: lerp_channel(a.color.g, b.color.g, num, den),
                    b: lerp_channel(a.color.b, b.color.b, num, den),
                    a: lerp_channel(a.color.a, b.color.a, num, den),
                };
            }
            proof {
                assert(self.points@.skip(i as int).drop_first() =~= self.points@.skip(i as int + 1));
            }
            i = i + 1;
        }
        self.points[n - 1].color
    }
}

/// Interpolates one channel; the fraction `num / den` must lie in `(0, 1]`.
fn lerp_channel(c0: u8, c1: u8, num: i64, den: i64) -> (r: u8)
    requires
        0 < den <= FX_ONE,
        0 <= num <= den,
    ensures
        r as int == lerp_channel_spec(c0, c1, num as int, den as int),
{
    let d: i64 = (c1 as i64) - (c0 as i64);
    proof {
        assert(-255_000_000 <= (d as int) * (num as int) <= 255_000_000) by (nonlinear_arith)
            requires
                -255 <= d as int <= 255,
                0 <= num as int <= 1_000_000,
        ;
    }
    let prod: i64 = d * num;
    let q: i64 = if prod >= 0 {
        ((prod as u64) / (den as u64)) as i64
    } else {
        -((((-prod) as u64) / (den as u64)) as i64)
    };
    proof {
        let di = d as int;
        let ni = num as int;
        let de = den as int;
        assert(q == trunc_div(di * ni, de));
        if d >= 0 {
            assert(0 <= di * ni <= di * de) by (nonlinear_arith)
                requires
                    0 <= di,
                    0 <= ni <= de,
            ;
            assert(di * ni / de <= di * de / de) by (nonlinear_arith)
                requires
                    0 < de,
                    di * ni <= di * de,
            ;
            assert(di * de / de == di) by (nonlinear_arith)
                requires
                    0 < de,
            ;
        } else {
            assert(0 <= (-di) * ni <= (-di) * de) by (nonlinear_arith)
                requires
                    0 <= -di,
                    0 <= ni <= de,
            ;
            assert((-di) * ni / de <= (-di) * de / de) by (nonlinear_arith)
                requires
                    0 < de,
                    (-di) * ni <= (-di) * de,
            ;
            assert((-di) * de / de == -di) by (nonlinear_arith)
                requires
                    0 < de,
            ;
            assert(-(di * ni) == (-di) * ni) by (nonlinear_arith);
        }
        assert(0 <= c0 + q <= 255);
    }
    (c0 as i64 + q) as u8
}

} // verus!
