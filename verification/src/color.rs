//! Linear-space colors.
//!
//! A [`Color`] holds four fixed-point channels in the unit interval.  The
//! palette and the shading stages work in linear color space; display-space
//! (gamma-encoded) bytes enter through [`srgb_to_linear`], which uses the
//! square of the encoded value as the documented approximation of the sRGB
//! transfer curve — exact on integers, monotone, and exact at both ends.

use vstd::prelude::*;
use crate::fixed::{FP_ONE, is_unit, spec_fp_lerp, fp_lerp, lemma_fp_lerp_bounds};
use vstd::arithmetic::div_mod::lemma_div_is_ordered;
use vstd::arithmetic::mul::lemma_mul_inequality;

verus! {

/// Rec. 709 luminance weight of the red channel, in 1/4096 units.
pub const LUM_R: u32 = 871;

/// Rec. 709 luminance weight of the green channel, in 1/4096 units.
pub const LUM_G: u32 = 2930;

/// Rec. 709 luminance weight of the blue channel, in 1/4096 units.
pub const LUM_B: u32 = 295;

/// An RGBA color in linear space; each channel is a fixed-point value in
/// [0.0, 1.0].
#[derive(Clone, Copy, Debug, PartialEq, Eq, Structural)]
pub struct Color {
    pub r: u32,
    pub g: u32,
    pub b: u32,
    pub a: u32,
}

impl Color {
    /// All four channels lie in the unit interval.
    pub open spec fn is_valid(self) -> bool {
        is_unit(self.r) && is_unit(self.g) && is_unit(self.b) && is_unit(self.a)
    }

    /// The fully transparent black color.
    pub fn transparent() -> (c: Color)
        ensures
            c == (Color { r: 0, g: 0, b: 0, a: 0 }),
            c.is_valid(),
    {
        Color { r: 0, g: 0, b: 0, a: 0 }
    }

    /// The same color with the alpha channel forced to 1.0.
    pub fn with_opaque_alpha(self) -> (c: Color)
        ensures
            c == spec_force_opaque(self),
    {
        Color { r: self.r, g: self.g, b: self.b, a: FP_ONE }
    }
}

/// The color with its alpha channel replaced by 1.0.
pub open spec fn spec_force_opaque(c: Color) -> Color {
    Color { r: c.r, g: c.g, b: c.b, a: FP_ONE }
}

/// A display-space byte mapped to linear space: the square of the encoded
/// fraction, `(c/255)^2`, in fixed point.
pub open spec fn spec_srgb_to_linear(c: u8) -> int {
    (c as int) * (c as int) * (FP_ONE as int) / 65025
}

/// The linearized value of a display-space byte stays in the unit interval.
pub proof fn lemma_srgb_to_linear_unit(c: u8)
    ensures
        0 <= spec_srgb_to_linear(c) <= FP_ONE,
{
    assert((c as int) * (c as int) <= 65025) by (nonlinear_arith)
        requires
            c <= 255,
    ;
    assert((c as int) * (c as int) >= 0) by (nonlinear_arith);
    lemma_mul_inequality((c as int) * (c as int), 65025, FP_ONE as int);
    lemma_div_is_ordered(
        (c as int) * (c as int) * (FP_ONE as int),
        65025 * (FP_ONE as int),
        65025,
    );
    lemma_div_is_ordered(0, (c as int) * (c as int) * (FP_ONE as int), 65025);
}

/// Convert one display-space (gamma-encoded) byte to a linear fixed-point
/// channel.
pub fn srgb_to_linear(c: u8) -> (r: u32)
    ensures
        r == spec_srgb_to_linear(c),
        is_unit(r),
{
    proof {
        lemma_srgb_to_linear_unit(c);
        assert((c as int) * (c as int) <= 65025) by (nonlinear_arith)
            requires
                c <= 255,
        ;
        lemma_mul_inequality((c as int) * (c as int), 65025, FP_ONE as int);
    }
    let w: u32 = (c as u32) * (c as u32);
    (w * FP_ONE) / 65025
}

/// An sRGB byte triple as a linear color, with alpha fixed at 1.0.
pub open spec fn spec_srgb_color(r: u8, g: u8, b: u8) -> Color {
    Color {
        r: spec_srgb_to_linear(r) as u32,
        g: spec_srgb_to_linear(g) as u32,
        b: spec_srgb_to_linear(b) as u32,
        a: FP_ONE,
    }
}

/// Convert an sRGB byte triple to a linear color with alpha 1.0.
pub fn srgb_color(r: u8, g: u8, b: u8) -> (c: Color)
    ensures
        c == spec_srgb_color(r, g, b),
        c.is_valid(),
{
    proof {
        lemma_srgb_to_linear_unit(r);
        lemma_srgb_to_linear_unit(g);
        lemma_srgb_to_linear_unit(b);
    }
    Color { r: srgb_to_linear(r), g: srgb_to_linear(g), b: srgb_to_linear(b), a: FP_ONE }
}

/// The brightness of a color: the Rec. 709 weighted sum of the linear
/// channels, again a unit-interval fixed-point value.
pub open spec fn spec_luminance(c: Color) -> int {
    ((c.r as int) * (LUM_R as int) + (c.g as int) * (LUM_G as int) + (c.b as int) * (LUM_B as int))
        / (FP_ONE as int)
}

/// Brightness stays in the unit interval, and vanishes only on black.
pub proof fn lemma_luminance_unit(c: Color)
    requires
        c.is_valid(),
    ensures
        0 <= spec_luminance(c) <= FP_ONE,
{
    lemma_mul_inequality(c.r as int, FP_ONE as int, LUM_R as int);
    lemma_mul_inequality(c.g as int, FP_ONE as int, LUM_G as int);
    lemma_mul_inequality(c.b as int, FP_ONE as int, LUM_B as int);
}

/// Compute the brightness of a color.
pub fn luminance(c: &Color) -> (l: u32)
    requires
        c.is_valid(),
    ensures
        l == spec_luminance(*c),
        is_unit(l),
{
    proof {
        lemma_luminance_unit(*c);
        lemma_mul_inequality(c.r as int, FP_ONE as int, LUM_R as int);
        lemma_mul_inequality(c.g as int, FP_ONE as int, LUM_G as int);
        lemma_mul_inequality(c.b as int, FP_ONE as int, LUM_B as int);
    }
    (c.r * LUM_R + c.g * LUM_G + c.b * LUM_B) / FP_ONE
}

/// The squared distance between two colors: the sum of the squared channel
/// differences in linear RGB.  This is the documented palette metric of this
/// crate; alpha takes no part in it.
pub open spec fn spec_color_dist_sq(x: Color, y: Color) -> int {
    (x.r - y.r) * (x.r - y.r) + (x.g - y.g) * (x.g - y.g) + (x.b - y.b) * (x.b - y.b)
}

/// One squared channel difference, bounded by the square of the unit.
proof fn lemma_sq_diff_bound(u: int, v: int)
    requires
        0 <= u <= FP_ONE,
        0 <= v <= FP_ONE,
    ensures
        0 <= (u - v) * (u - v) <= (FP_ONE as int) * (FP_ONE as int),
{
    assert(0 <= (u - v) * (u - v) <= (FP_ONE as int) * (FP_ONE as int)) by (nonlinear_arith)
        requires
            0 <= u <= FP_ONE,
            0 <= v <= FP_ONE,
    ;
}

/// Compute one squared channel difference.
fn sq_diff(u: u32, v: u32) -> (s: u32)
    requires
        is_unit(u),
        is_unit(v),
    ensures
        s == (u - v) * (u - v),
        s <= (FP_ONE as int) * (FP_ONE as int),
{
    proof {
        lemma_sq_diff_bound(u as int, v as int);
    }
    let d: u32 = if u >= v {
        u - v
    } else {
        v - u
    };
    assert(d * d == (u - v) * (u - v)) by (nonlinear_arith)
        requires
            d == if u >= v {
                u - v
            } else {
                v - u
            },
    ;
    assert(d * d <= (FP_ONE as int) * (FP_ONE as int));
    d * d
}

/// Compute the squared distance between two colors.
pub fn color_dist_sq(x: &Color, y: &Color) -> (d: u32)
    requires
        x.is_valid(),
        y.is_valid(),
    ensures
        d == spec_color_dist_sq(*x, *y),
{
    let dr: u32 = sq_diff(x.r, y.r);
    let dg: u32 = sq_diff(x.g, y.g);
    let db: u32 = sq_diff(x.b, y.b);
    dr + dg + db
}

/// The blend of two colors' RGB channels by a unit-interval parameter; the
/// alpha of the first color is kept.
pub open spec fn spec_lerp_rgb(x: Color, y: Color, t: int) -> Color {
    Color {
        r: spec_fp_lerp(x.r as int, y.r as int, t) as u32,
        g: spec_fp_lerp(x.g as int, y.g as int, t) as u32,
        b: spec_fp_lerp(x.b as int, y.b as int, t) as u32,
        a: x.a,
    }
}

/// Blend the RGB channels of `x` toward those of `y` by `t`.
pub fn lerp_rgb(x: &Color, y: &Color, t: u32) -> (c: Color)
    requires
        x.is_valid(),
        y.is_valid(),
        is_unit(t),
    ensures
        c == spec_lerp_rgb(*x, *y, t as int),
        c.is_valid(),
{
    proof {
        lemma_fp_lerp_bounds(x.r as int, y.r as int, t as int);
        lemma_fp_lerp_bounds(x.g as int, y.g as int, t as int);
        lemma_fp_lerp_bounds(x.b as int, y.b as int, t as int);
    }
    Color {
        r: fp_lerp(x.r, y.r, t),
        g: fp_lerp(x.g, y.g, t),
        b: fp_lerp(x.b, y.b, t),
        a: x.a,
    }
}

} // verus!
