//! Depth-aware compositing.
//!
//! The compositor merges the full-resolution camera's color and depth with
//! the low-resolution camera's color and depth into one frame.  Per output
//! pixel it samples the low-res images nearest-neighbor at the
//! corresponding coordinate and shows the low-res color exactly where that
//! surface is at or in front of the full-res surface — the low-res depth is
//! given `depth_bias` of slack to absorb the precision mismatch between the
//! two depth buffers — and where its alpha is non-zero; everywhere else the
//! full-res color passes through unchanged.

use vstd::prelude::*;
use crate::color::Color;
use crate::fixed::{FP_ONE, is_unit};
use vstd::arithmetic::div_mod::{
    lemma_fundamental_div_mod,
    lemma_mod_division_less_than_divisor,
    lemma_multiply_divide_lt,
};
use vstd::arithmetic::mul::{lemma_mul_inequality, lemma_mul_is_commutative};

verus! {

/// The largest accepted image dimension; GPU surfaces stay far below it.
pub const MAX_IMAGE_DIM: usize = 0xffff;

/// A color surface: a row-major grid of texels.
pub struct ColorImage {
    pub width: usize,
    pub height: usize,
    pub texels: Vec<Color>,
}

impl ColorImage {
    /// The texel grid fills the surface exactly, every texel is a valid
    /// color, and the dimensions are within the machine limit.
    pub open spec fn is_valid(self) -> bool {
        &&& self.texels@.len() == self.width * self.height
        &&& self.width <= MAX_IMAGE_DIM
        &&& self.height <= MAX_IMAGE_DIM
        &&& forall|i: int| 0 <= i < self.texels@.len() ==> (#[trigger] self.texels@[i]).is_valid()
    }

    /// The texel at a coordinate.
    pub open spec fn spec_texel(self, x: int, y: int) -> Color {
        self.texels@[y * self.width + x]
    }

    /// Read the texel at a coordinate.
    pub fn texel(&self, x: usize, y: usize) -> (c: Color)
        requires
            self.is_valid(),
            x < self.width,
            y < self.height,
        ensures
            c == self.spec_texel(x as int, y as int),
            c.is_valid(),
    {
        proof {
            lemma_row_major_index(x as int, y as int, self.width as int, self.height as int);
            assert((y as int) * (self.width as int) + (x as int) <= 0xfffe0001) by (nonlinear_arith)
                requires
                    y as int <= 0xfffe,
                    self.width as int <= 0xffff,
                    x as int <= 0xffff,
            ;
        }
        self.texels[y * self.width + x]
    }
}

/// A depth surface: a row-major grid of unit-interval depth values, 0 at
/// the near plane and 1 at the far plane.
pub struct DepthImage {
    pub width: usize,
    pub height: usize,
    pub texels: Vec<u32>,
}

impl DepthImage {
    /// The texel grid fills the surface exactly, every depth lies in the
    /// unit interval, and the dimensions are within the machine limit.
    pub open spec fn is_valid(self) -> bool {
        &&& self.texels@.len() == self.width * self.height
        &&& self.width <= MAX_IMAGE_DIM
        &&& self.height <= MAX_IMAGE_DIM
        &&& forall|i: int| 0 <= i < self.texels@.len() ==> is_unit(#[trigger] self.texels@[i])
    }

    /// The depth at a coordinate.
    pub open spec fn spec_texel(self, x: int, y: int) -> u32 {
        self.texels@[y * self.width + x]
    }

    /// Read the depth at a coordinate.
    pub fn texel(&self, x: usize, y: usize) -> (d: u32)
        requires
            self.is_valid(),
            x < self.width,
            y < self.height,
        ensures
            d == self.spec_texel(x as int, y as int),
            is_unit(d),
    {
        proof {
            lemma_row_major_index(x as int, y as int, self.width as int, self.height as int);
            assert((y as int) * (self.width as int) + (x as int) <= 0xfffe0001) by (nonlinear_arith)
                requires
                    y as int <= 0xfffe,
                    self.width as int <= 0xffff,
                    x as int <= 0xffff,
            ;
        }
        self.texels[y * self.width + x]
    }
}

/// A row-major coordinate indexes inside the grid.
pub proof fn lemma_row_major_index(x: int, y: int, w: int, h: int)
    requires
        0 <= x < w,
        0 <= y < h,
    ensures
        0 <= y * w + x < w * h,
        y * w <= (h - 1) * w,
{
    lemma_mul_inequality(y, h - 1, w);
    assert((h - 1) * w + w == w * h) by (nonlinear_arith);
    assert(y * w >= 0) by (nonlinear_arith)
        requires
            y >= 0,
            w > 0,
    ;
}

/// Earlier coordinates in row-major order have smaller indices.
proof fn lemma_row_major_lt(xx: int, yy: int, x: int, y: int, w: int)
    requires
        0 <= xx < w,
        0 <= yy,
        0 <= x,
        yy < y || (yy == y && xx < x),
    ensures
        yy * w + xx < y * w + x,
{
    if yy < y {
        lemma_mul_inequality(yy + 1, y, w);
        assert((yy + 1) * w == yy * w + w) by (nonlinear_arith);
    }
}

/// The per-pixel compositing rule: where the low-res sample is visible
/// (alpha above zero) and its depth, less the bias, is at or in front of
/// the full-res depth, the low-res color is shown; everywhere else the
/// full-res color passes through unchanged.
pub open spec fn spec_composite_pixel(
    full: Color,
    full_d: int,
    low: Color,
    low_d: int,
    bias: int,
) -> Color {
    if low.a > 0 && low_d <= full_d + bias {
        low
    } else {
        full
    }
}

/// Composite one output pixel.
pub fn composite_pixel(full: &Color, full_d: u32, low: &Color, low_d: u32, bias: u32) -> (out:
    Color)
    requires
        is_unit(full_d),
        is_unit(bias),
    ensures
        out == spec_composite_pixel(*full, full_d as int, *low, low_d as int, bias as int),
{
    if low.a > 0 && low_d <= full_d + bias {
        *low
    } else {
        *full
    }
}

/// Holdout occlusion: over a full-res surface at some depth, a visible
/// low-res sample at or in front of that depth is shown, while any low-res
/// sample deeper than the bias allows is hidden, whatever its alpha says.
pub proof fn lemma_holdout_occlusion(
    full: Color,
    ground_d: int,
    sphere: Color,
    sphere_d: int,
    behind: Color,
    behind_d: int,
    bias: int,
)
    requires
        sphere.a > 0,
        0 <= bias,
        sphere_d <= ground_d,
        behind_d > ground_d + bias,
    ensures
        spec_composite_pixel(full, ground_d, sphere, sphere_d, bias) == sphere,
        spec_composite_pixel(full, ground_d, behind, behind_d, bias) == full,
{
}

/// The low-res coordinate sampled for a full-res coordinate: the
/// nearest-neighbor of the corresponding normalized position.
pub open spec fn spec_sample_coord(x: int, full_dim: int, low_dim: int) -> int {
    x * low_dim / full_dim
}

/// Sampled coordinates land inside the low-res surface.
pub proof fn lemma_sample_coord_bound(x: int, full_dim: int, low_dim: int)
    requires
        0 <= x < full_dim,
        1 <= low_dim,
    ensures
        0 <= spec_sample_coord(x, full_dim, low_dim) < low_dim,
{
    assert(x * low_dim >= 0) by (nonlinear_arith)
        requires
            x >= 0,
            low_dim >= 1,
    ;
    assert(x * low_dim < full_dim * low_dim) by (nonlinear_arith)
        requires
            0 <= x < full_dim,
            1 <= low_dim,
    ;
    lemma_multiply_divide_lt(x * low_dim, full_dim, low_dim);
    assert(full_dim * low_dim == low_dim * full_dim) by (nonlinear_arith);
    vstd::arithmetic::div_mod::lemma_div_is_ordered(0, x * low_dim, full_dim);
}

/// Map one full-res coordinate to the low-res grid.
fn sample_coord(x: usize, full_dim: usize, low_dim: usize) -> (s: usize)
    requires
        x < full_dim,
        1 <= low_dim,
        full_dim <= MAX_IMAGE_DIM,
        low_dim <= MAX_IMAGE_DIM,
    ensures
        s == spec_sample_coord(x as int, full_dim as int, low_dim as int),
        s < low_dim,
{
    proof {
        lemma_sample_coord_bound(x as int, full_dim as int, low_dim as int);
        assert((x as int) * (low_dim as int) <= 0xfffe0001) by (nonlinear_arith)
            requires
                x <= 0xffff,
                low_dim <= 0xffff,
        ;
    }
    (x * low_dim) / full_dim
}

/// The color the composite holds at one output coordinate: the full-res
/// texel merged with the nearest-sampled low-res texel under the per-pixel
/// rule.
pub open spec fn spec_composited_texel(
    full_color: ColorImage,
    full_depth: DepthImage,
    low_color: ColorImage,
    low_depth: DepthImage,
    bias: int,
    x: int,
    y: int,
) -> Color {
    let sx = spec_sample_coord(x, full_color.width as int, low_color.width as int);
    let sy = spec_sample_coord(y, full_color.height as int, low_color.height as int);
    spec_composite_pixel(
        full_color.spec_texel(x, y),
        full_depth.spec_texel(x, y) as int,
        low_color.spec_texel(sx, sy),
        low_depth.spec_texel(sx, sy) as int,
        bias,
    )
}

/// Merge the two cameras' outputs into one frame of the full-res size.
pub fn composite_frames(
    full_color: &ColorImage,
    full_depth: &DepthImage,
    low_color: &ColorImage,
    low_depth: &DepthImage,
    depth_bias: u32,
) -> (out: ColorImage)
    requires
        full_color.is_valid(),
        full_depth.is_valid(),
        low_color.is_valid(),
        low_depth.is_valid(),
        full_depth.width == full_color.width,
        full_depth.height == full_color.height,
        low_depth.width == low_color.width,
        low_depth.height == low_color.height,
        low_color.width >= 1,
        low_color.height >= 1,
        is_unit(depth_bias),
    ensures
        out.width == full_color.width,
        out.height == full_color.height,
        out.is_valid(),
        forall|x: int, y: int|
            0 <= x < full_color.width && 0 <= y < full_color.height ==> out.spec_texel(x, y)
                == #[trigger] spec_composited_texel(
                *full_color,
                *full_depth,
                *low_color,
                *low_depth,
                depth_bias as int,
                x,
                y,
            ),
{
    let w: usize = full_color.width;
    let h: usize = full_color.height;
    let mut texels: Vec<Color> = Vec::new();
    let mut y: usize = 0;
    while y < h
        invariant
            y <= h,
            w == full_color.width,
            h == full_color.height,
            full_color.is_valid(),
            full_depth.is_valid(),
            low_color.is_valid(),
            low_depth.is_valid(),
            full_depth.width == full_color.width,
            full_depth.height == full_color.height,
            low_depth.width == low_color.width,
            low_depth.height == low_color.height,
            low_color.width >= 1,
            low_color.height >= 1,
            is_unit(depth_bias),
            texels@.len() == y * w,
            forall|i: int| 0 <= i < texels@.len() ==> (#[trigger] texels@[i]).is_valid(),
            forall|xx: int, yy: int|
                0 <= xx < w && 0 <= yy < y ==> texels@[yy * w + xx]
                    == #[trigger] spec_composited_texel(
                    *full_color,
                    *full_depth,
                    *low_color,
                    *low_depth,
                    depth_bias as int,
                    xx,
                    yy,
                ),
        decreases h - y,
    {
        let mut x: usize = 0;
        while x < w
            invariant
                x <= w,
                y < h,
                w == full_color.width,
                h == full_color.height,
                full_color.is_valid(),
                full_depth.is_valid(),
                low_color.is_valid(),
                low_depth.is_valid(),
                full_depth.width == full_color.width,
                full_depth.height == full_color.height,
                low_depth.width == low_color.width,
                low_depth.height == low_color.height,
                low_color.width >= 1,
                low_color.height >= 1,
                is_unit(depth_bias),
                texels@.len() == y * w + x,
                forall|i: int| 0 <= i < texels@.len() ==> (#[trigger] texels@[i]).is_valid(),
                forall|xx: int, yy: int|
                    0 <= xx < w && (0 <= yy < y || (yy == y && 0 <= xx < x)) ==> texels@[yy * w
                        + xx] == #[trigger] spec_composited_texel(
                        *full_color,
                        *full_depth,
                        *low_color,
                        *low_depth,
                        depth_bias as int,
                        xx,
                        yy,
                    ),
            decreases w - x,
        {
            let sx: usize = sample_coord(x, w, low_color.width);
            let sy: usize = sample_coord(y, h, low_color.height);
            let fc: Color = full_color.texel(x, y);
            let fd: u32 = full_depth.texel(x, y);
            let lc: Color = low_color.texel(sx, sy);
            let ld: u32 = low_depth.texel(sx, sy);
            let c: Color = composite_pixel(&fc, fd, &lc, ld, depth_bias);
            proof {
                lemma_row_major_index(x as int, y as int, w as int, h as int);
            }
            texels.push(c);
            proof {
                assert forall|xx: int, yy: int|
                    0 <= xx < w && (0 <= yy < y || (yy == y && 0 <= xx < x + 1)) implies texels@[yy
                    * w + xx] == #[trigger] spec_composited_texel(
                    *full_color,
                    *full_depth,
                    *low_color,
                    *low_depth,
                    depth_bias as int,
                    xx,
                    yy,
                ) by {
                    if yy == y && xx == x {
                        assert(texels@[yy * w + xx] == c);
                    } else {
                        lemma_row_major_lt(xx, yy, x as int, y as int, w as int);
                    }
                }
            }
            x = x + 1;
        }
        proof {
            assert(y * w + w == (y + 1) * w) by (nonlinear_arith);
        }
        y = y + 1;
    }
    proof {
        assert(h * w == w * h) by (nonlinear_arith);
    }
    ColorImage { width: w, height: h, texels }
}

/// Round-trip identity: when every low-res texel is fully transparent — a
/// holdout-only low-res scene — the composite equals the full-res input
/// exactly, texel for texel.
pub proof fn lemma_transparent_lowres_identity(
    out: ColorImage,
    full_color: ColorImage,
    full_depth: DepthImage,
    low_color: ColorImage,
    low_depth: DepthImage,
    bias: int,
)
    requires
        full_color.is_valid(),
        low_color.is_valid(),
        low_color.width >= 1,
        low_color.height >= 1,
        out.is_valid(),
        out.width == full_color.width,
        out.height == full_color.height,
        forall|x: int, y: int|
            0 <= x < full_color.width && 0 <= y < full_color.height ==> out.spec_texel(x, y)
                == #[trigger] spec_composited_texel(
                full_color,
                full_depth,
                low_color,
                low_depth,
                bias,
                x,
                y,
            ),
        forall|i: int| 0 <= i < low_color.texels@.len() ==> (#[trigger] low_color.texels@[i]).a
            == 0,
    ensures
        out.texels@ =~= full_color.texels@,
{
    let w = full_color.width as int;
    let h = full_color.height as int;
    assert(out.texels@.len() == full_color.texels@.len());
    assert forall|i: int| 0 <= i < out.texels@.len() implies out.texels@[i]
        == full_color.texels@[i] by {
        assert(w > 0 && h > 0) by (nonlinear_arith)
            requires
                0 <= w,
                0 <= h,
                0 < w * h,
        ;
        let y = i / w;
        let x = i % w;
        lemma_fundamental_div_mod(i, w);
        lemma_mod_division_less_than_divisor(i, w);
        lemma_mul_is_commutative(w, h);
        lemma_multiply_divide_lt(i, w, h);
        lemma_mul_is_commutative(w, y);
        assert(out.spec_texel(x, y) == out.texels@[i]);
        let sx = spec_sample_coord(x, w, low_color.width as int);
        let sy = spec_sample_coord(y, h, low_color.height as int);
        lemma_sample_coord_bound(x, w, low_color.width as int);
        lemma_sample_coord_bound(y, h, low_color.height as int);
        lemma_row_major_index(sx, sy, low_color.width as int, low_color.height as int);
        assert(low_color.spec_texel(sx, sy).a == 0);
        assert(out.spec_texel(x, y) == spec_composited_texel(
            full_color,
            full_depth,
            low_color,
            low_depth,
            bias,
            x,
            y,
        ));
        assert(full_color.spec_texel(x, y) == full_color.texels@[i]);
    }
}

} // verus!
