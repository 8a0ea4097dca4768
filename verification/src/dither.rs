//! Ordered dithering.
//!
//! A fixed 4x4 Bayer matrix gives every fragment a threshold from its
//! position; the threshold's signed distance to 0.5, scaled by
//! `dither_strength`, nudges the color that the palette search sees.  Only
//! colors near a quantization boundary change their nearest entry, so the
//! stipple appears at band edges, not uniformly.  The pattern can tile in
//! screen space (resolution-dependent) or in world space (stable under
//! camera movement); the tiling space is an explicit configuration choice.

use vstd::prelude::*;
use crate::color::Color;
use crate::fixed::{FP_ONE, FP_HALF, is_unit, lemma_factor_scale_bound};

verus! {

/// Which coordinates the dither pattern tiles over.
#[derive(Clone, Copy, Debug, PartialEq, Eq, Structural)]
pub enum DitherSpace {
    /// Tile over screen pixels; the pattern is fixed to the output raster.
    ScreenSpace,
    /// Tile over world units; the pattern sticks to surfaces under camera
    /// movement.
    WorldSpace,
}

/// The per-fragment positions the dither pattern can tile over: integer
/// screen pixel coordinates and nonnegative fixed-point world coordinates.
#[derive(Clone, Copy, Debug, PartialEq, Eq, Structural)]
pub struct FragmentCoords {
    pub screen_x: u32,
    pub screen_y: u32,
    pub world_x: u32,
    pub world_y: u32,
}

/// The 4x4 Bayer matrix entry at a cell, a rank in `[0, 16)`.
pub open spec fn spec_bayer_rank(cx: int, cy: int) -> int {
    if cy == 0 {
        if cx == 0 { 0 } else if cx == 1 { 8 } else if cx == 2 { 2 } else { 10 }
    } else if cy == 1 {
        if cx == 0 { 12 } else if cx == 1 { 4 } else if cx == 2 { 14 } else { 6 }
    } else if cy == 2 {
        if cx == 0 { 3 } else if cx == 1 { 11 } else if cx == 2 { 1 } else { 9 }
    } else {
        if cx == 0 { 15 } else if cx == 1 { 7 } else if cx == 2 { 13 } else { 5 }
    }
}

/// The dither cell a coordinate falls in: the coordinate scaled by the
/// density, folded onto the 4x4 pattern.
pub open spec fn spec_dither_cell(coord: int, density: int) -> int {
    (coord * density / (FP_ONE as int)) % 4
}

/// The fragment's threshold: the Bayer rank mapped to the centers of 16
/// even steps of the unit interval.
pub open spec fn spec_dither_threshold(
    coords: FragmentCoords,
    space: DitherSpace,
    density: int,
) -> int {
    let cx = match space {
        DitherSpace::ScreenSpace => spec_dither_cell(coords.screen_x as int, density),
        DitherSpace::WorldSpace => spec_dither_cell(coords.world_x as int, density),
    };
    let cy = match space {
        DitherSpace::ScreenSpace => spec_dither_cell(coords.screen_y as int, density),
        DitherSpace::WorldSpace => spec_dither_cell(coords.world_y as int, density),
    };
    spec_bayer_rank(cx, cy) * 256 + 128
}

/// One channel nudged by the threshold's signed distance to 0.5, scaled by
/// the dither strength, saturating at both ends of the unit interval.
pub open spec fn spec_dither_channel(ch: int, threshold: int, strength: int) -> int {
    if threshold >= FP_HALF {
        let jitter = (threshold - (FP_HALF as int)) * strength / (FP_ONE as int);
        if ch + jitter > FP_ONE as int {
            FP_ONE as int
        } else {
            ch + jitter
        }
    } else {
        let jitter = ((FP_HALF as int) - threshold) * strength / (FP_ONE as int);
        if ch - jitter < 0 {
            0
        } else {
            ch - jitter
        }
    }
}

/// The color handed to the palette search: every RGB channel nudged by the
/// fragment's dither threshold; alpha is kept.
pub open spec fn spec_dither_perturb(
    c: Color,
    coords: FragmentCoords,
    space: DitherSpace,
    density: int,
    strength: int,
) -> Color {
    let threshold = spec_dither_threshold(coords, space, density);
    Color {
        r: spec_dither_channel(c.r as int, threshold, strength) as u32,
        g: spec_dither_channel(c.g as int, threshold, strength) as u32,
        b: spec_dither_channel(c.b as int, threshold, strength) as u32,
        a: c.a,
    }
}

/// A nudged channel stays in the unit interval.
pub proof fn lemma_dither_channel_unit(ch: int, threshold: int, strength: int)
    requires
        0 <= ch <= FP_ONE,
        128 <= threshold <= 3968,
        0 <= strength <= FP_ONE,
    ensures
        0 <= spec_dither_channel(ch, threshold, strength) <= FP_ONE,
{
    if threshold >= FP_HALF {
        lemma_factor_scale_bound(threshold - (FP_HALF as int), strength, FP_ONE as int);
    } else {
        lemma_factor_scale_bound((FP_HALF as int) - threshold, strength, FP_ONE as int);
    }
}

/// Dithering at strength zero is a no-op: whatever the density, the tiling
/// space and the fragment position, the color passes through unchanged.
pub proof fn lemma_dither_strength_zero_noop(
    c: Color,
    coords: FragmentCoords,
    space: DitherSpace,
    density: int,
)
    requires
        c.is_valid(),
    ensures
        spec_dither_perturb(c, coords, space, density, 0) == c,
{
    let threshold = spec_dither_threshold(coords, space, density);
    if threshold >= FP_HALF {
        assert((threshold - (FP_HALF as int)) * 0 == 0);
    } else {
        assert(((FP_HALF as int) - threshold) * 0 == 0);
    }
}

/// Look up the Bayer rank of one cell.
fn bayer_rank(cx: u32, cy: u32) -> (r: u32)
    requires
        cx < 4,
        cy < 4,
    ensures
        r == spec_bayer_rank(cx as int, cy as int),
        r < 16,
{
    if cy == 0 {
        if cx == 0 { 0 } else if cx == 1 { 8 } else if cx == 2 { 2 } else { 10 }
    } else if cy == 1 {
        if cx == 0 { 12 } else if cx == 1 { 4 } else if cx == 2 { 14 } else { 6 }
    } else if cy == 2 {
        if cx == 0 { 3 } else if cx == 1 { 11 } else if cx == 2 { 1 } else { 9 }
    } else {
        if cx == 0 { 15 } else if cx == 1 { 7 } else if cx == 2 { 13 } else { 5 }
    }
}

/// Fold one coordinate onto the 4x4 pattern at the given density.
fn dither_cell(coord: u32, density: u32) -> (c: u32)
    ensures
        c == spec_dither_cell(coord as int, density as int),
        c < 4,
{
    proof {
        assert((coord as int) * (density as int) <= 0xfffffffe00000001) by (nonlinear_arith)
            requires
                coord <= 0xffffffffu32,
                density <= 0xffffffffu32,
        ;
    }
    let scaled: u64 = (coord as u64) * (density as u64);
    let cell: u64 = (scaled / (FP_ONE as u64)) % 4;
    cell as u32
}

/// Compute the fragment's dither threshold.
pub fn dither_threshold(coords: &FragmentCoords, space: DitherSpace, density: u32) -> (t: u32)
    ensures
        t == spec_dither_threshold(*coords, space, density as int),
        128 <= t <= 3968,
{
    let cx: u32 = match space {
        DitherSpace::ScreenSpace => dither_cell(coords.screen_x, density),
        DitherSpace::WorldSpace => dither_cell(coords.world_x, density),
    };
    let cy: u32 = match space {
        DitherSpace::ScreenSpace => dither_cell(coords.screen_y, density),
        DitherSpace::WorldSpace => dither_cell(coords.world_y, density),
    };
    bayer_rank(cx, cy) * 256 + 128
}

/// Nudge one channel by the threshold's signed distance to 0.5.
fn dither_channel(ch: u32, threshold: u32, strength: u32) -> (r: u32)
    requires
        is_unit(ch),
        128 <= threshold <= 3968,
        is_unit(strength),
    ensures
        r == spec_dither_channel(ch as int, threshold as int, strength as int),
        is_unit(r),
{
    proof {
        lemma_dither_channel_unit(ch as int, threshold as int, strength as int);
        if threshold >= FP_HALF {
            lemma_factor_scale_bound(threshold - (FP_HALF as int), strength as int, FP_ONE as int);
        } else {
            lemma_factor_scale_bound((FP_HALF as int) - threshold, strength as int, FP_ONE as int);
        }
    }
    if threshold >= FP_HALF {
        let jitter: u32 = (threshold - FP_HALF) * strength / FP_ONE;
        if ch + jitter > FP_ONE {
            FP_ONE
        } else {
            ch + jitter
        }
    } else {
        let jitter: u32 = (FP_HALF - threshold) * strength / FP_ONE;
        if jitter > ch {
            0
        } else {
            ch - jitter
        }
    }
}

/// Nudge a color toward lighter or darker by the fragment's dither
/// threshold, ready for the palette search.
pub fn dither_perturb(
    c: &Color,
    coords: &FragmentCoords,
    space: DitherSpace,
    density: u32,
    strength: u32,
) -> (out: Color)
    requires
        c.is_valid(),
        is_unit(strength),
    ensures
        out == spec_dither_perturb(*c, *coords, space, density as int, strength as int),
        out.is_valid(),
        out.a == c.a,
{
    let threshold: u32 = dither_threshold(coords, space, density);
    Color {
        r: dither_channel(c.r, threshold, strength),
        g: dither_channel(c.g, threshold, strength),
        b: dither_channel(c.b, threshold, strength),
        a: c.a,
    }
}

} // verus!
