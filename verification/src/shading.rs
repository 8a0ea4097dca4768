//! The fragment shading stages.
//!
//! A pixel-art fragment starts from the host's physically-based lighting
//! result and passes, in order, through toon quantization, palette
//! quantization and ordered dithering; the debug-stage selector can stop
//! the pipeline after any step.  Output alpha is always forced to 1.0 so a
//! later edge-detection stage sees this geometry as opaque.  The holdout
//! stages emit fully transparent color while the rasterizer still writes
//! depth, turning duplicated occluder geometry into an invisible depth
//! mask.

use vstd::prelude::*;
use crate::color::{
    Color,
    spec_color_dist_sq,
    color_dist_sq,
    spec_force_opaque,
    spec_lerp_rgb,
    lerp_rgb,
};
use crate::fixed::lemma_fp_lerp_bounds;
use crate::dither::{
    DitherSpace,
    FragmentCoords,
    spec_dither_perturb,
    dither_perturb,
    lemma_dither_strength_zero_noop,
};
use crate::fixed::{FP_ONE, is_unit};
use crate::params::{
    PixelArtShaderParams,
    DEBUG_STAGE_LIGHTING,
    DEBUG_STAGE_TOON,
    DEBUG_STAGE_PALETTE,
};
use crate::toon::{spec_toon_stage, toon_stage, lemma_toon_stage_valid};
use crate::schedule::{AppModel, MaterialPluginKind, ShaderAsset};

verus! {

/// The inputs this material hands to the host's physically-based lighting
/// evaluation: the tint as albedo, maximal roughness and zero reflectance
/// for a flat, non-specular look.
#[derive(Clone, Copy, Debug, PartialEq, Eq, Structural)]
pub struct LightingInputs {
    pub albedo: Color,
    pub roughness: u32,
    pub reflectance: u32,
}

/// Fix the lighting inputs for a pixel-art material.
pub fn lighting_inputs(params: &PixelArtShaderParams) -> (li: LightingInputs)
    ensures
        li.albedo == params.base_tint,
        li.roughness == FP_ONE,
        li.reflectance == 0,
{
    LightingInputs { albedo: params.base_tint, roughness: FP_ONE, reflectance: 0 }
}

/// The index of the palette entry nearest to `c` among the first `n`
/// entries, by squared linear-RGB distance; the earliest entry wins ties.
pub open spec fn spec_nearest_index(c: Color, colors: Seq<Color>, n: int) -> int
    decreases n,
{
    if n <= 1 {
        0
    } else {
        let prev = spec_nearest_index(c, colors, n - 1);
        if spec_color_dist_sq(colors[n - 1], c) < spec_color_dist_sq(colors[prev], c) {
            n - 1
        } else {
            prev
        }
    }
}

/// The nearest index is in range, minimizes the distance among the active
/// entries, and is the first index to do so.
pub proof fn lemma_nearest_index_props(c: Color, colors: Seq<Color>, n: int)
    requires
        1 <= n <= colors.len(),
    ensures
        0 <= spec_nearest_index(c, colors, n) < n,
        forall|j: int|
            0 <= j < n ==> spec_color_dist_sq(colors[spec_nearest_index(c, colors, n)], c)
                <= spec_color_dist_sq(#[trigger] colors[j], c),
        forall|j: int|
            0 <= j < spec_nearest_index(c, colors, n) ==> spec_color_dist_sq(
                #[trigger] colors[j],
                c,
            ) > spec_color_dist_sq(colors[spec_nearest_index(c, colors, n)], c),
    decreases n,
{
    if n > 1 {
        lemma_nearest_index_props(c, colors, n - 1);
    }
}

/// Find the palette entry nearest to `c` among the first `count` entries.
pub fn nearest_palette_index(c: &Color, colors: &Vec<Color>, count: u32) -> (idx: usize)
    requires
        1 <= count <= colors@.len(),
        c.is_valid(),
        forall|i: int| 0 <= i < colors@.len() ==> (#[trigger] colors@[i]).is_valid(),
    ensures
        idx == spec_nearest_index(*c, colors@, count as int),
        idx < count,
{
    let mut best: usize = 0;
    let mut best_d: u32 = color_dist_sq(&colors[0], c);
    let mut i: usize = 1;
    while i < count as usize
        invariant
            1 <= i <= count,
            count <= colors@.len(),
            c.is_valid(),
            forall|k: int| 0 <= k < colors@.len() ==> (#[trigger] colors@[k]).is_valid(),
            best == spec_nearest_index(*c, colors@, i as int),
            best < i,
            best_d == spec_color_dist_sq(colors@[best as int], *c),
        decreases count - i,
    {
        let d: u32 = color_dist_sq(&colors[i], c);
        if d < best_d {
            best = i;
            best_d = d;
        }
        i = i + 1;
    }
    best
}

/// The palette stage: blend the fragment color toward the palette entry
/// nearest to the search color.  `search` differs from the fragment color
/// only when dithering nudged it.  A zero active count disables the stage.
pub open spec fn spec_palette_stage(
    c: Color,
    search: Color,
    colors: Seq<Color>,
    count: int,
    strength: int,
) -> Color {
    if count == 0 {
        c
    } else {
        spec_lerp_rgb(c, colors[spec_nearest_index(search, colors, count)], strength)
    }
}

/// Palette quantization at strength zero leaves the input color unchanged,
/// whatever the palette and the search color.
pub proof fn lemma_palette_strength_zero(c: Color, search: Color, colors: Seq<Color>, count: int)
    requires
        c.is_valid(),
        0 <= count <= colors.len(),
        forall|i: int| 0 <= i < colors.len() ==> (#[trigger] colors[i]).is_valid(),
    ensures
        spec_palette_stage(c, search, colors, count, 0) == c,
{
    if count != 0 {
        lemma_nearest_index_props(search, colors, count);
        let e = colors[spec_nearest_index(search, colors, count)];
        lemma_fp_lerp_bounds(c.r as int, e.r as int, 0);
        lemma_fp_lerp_bounds(c.g as int, e.g as int, 0);
        lemma_fp_lerp_bounds(c.b as int, e.b as int, 0);
    }
}

/// Palette quantization at full strength with a single active entry yields
/// exactly that entry's RGB, whatever the search color.
pub proof fn lemma_palette_full_strength_single(c: Color, search: Color, colors: Seq<Color>)
    requires
        c.is_valid(),
        1 <= colors.len(),
        colors[0].is_valid(),
    ensures
        spec_palette_stage(c, search, colors, 1, FP_ONE as int) == (Color {
            r: colors[0].r,
            g: colors[0].g,
            b: colors[0].b,
            a: c.a,
        }),
{
    lemma_fp_lerp_bounds(c.r as int, colors[0].r as int, FP_ONE as int);
    lemma_fp_lerp_bounds(c.g as int, colors[0].g as int, FP_ONE as int);
    lemma_fp_lerp_bounds(c.b as int, colors[0].b as int, FP_ONE as int);
}

/// Apply the palette stage.
pub fn palette_stage(
    c: &Color,
    search: &Color,
    colors: &Vec<Color>,
    count: u32,
    strength: u32,
) -> (out: Color)
    requires
        c.is_valid(),
        search.is_valid(),
        count <= colors@.len(),
        is_unit(strength),
        forall|i: int| 0 <= i < colors@.len() ==> (#[trigger] colors@[i]).is_valid(),
    ensures
        out == spec_palette_stage(*c, *search, colors@, count as int, strength as int),
        out.is_valid(),
        out.a == c.a,
{
    if count == 0 {
        *c
    } else {
        let idx: usize = nearest_palette_index(search, colors, count);
        proof {
            lemma_nearest_index_props(*search, colors@, count as int);
        }
        lerp_rgb(c, &colors[idx], strength)
    }
}

/// The full pixel-art fragment algorithm, starting from the host's lit
/// color: toon quantization, then palette quantization over a possibly
/// dither-nudged search color, stopping early at the selected debug stage;
/// alpha is forced to 1.0 on every path.
pub open spec fn spec_pixel_art_fragment(
    lit: Color,
    params: PixelArtShaderParams,
    coords: FragmentCoords,
    space: DitherSpace,
) -> Color {
    if params.debug_stage == DEBUG_STAGE_LIGHTING {
        spec_force_opaque(lit)
    } else {
        let tooned = spec_toon_stage(
            lit,
            params.toon_bands as int,
            params.toon_softness as int,
            params.toon_shadow_floor as int,
        );
        if params.debug_stage == DEBUG_STAGE_TOON || params.palette_count == 0 {
            spec_force_opaque(tooned)
        } else {
            let search = if params.debug_stage == DEBUG_STAGE_PALETTE {
                tooned
            } else {
                spec_dither_perturb(
                    tooned,
                    coords,
                    space,
                    params.dither_density as int,
                    params.dither_strength as int,
                )
            };
            spec_force_opaque(
                spec_palette_stage(
                    tooned,
                    search,
                    params.palette_colors@,
                    params.palette_count as int,
                    params.palette_strength as int,
                ),
            )
        }
    }
}

/// Shade one pixel-art fragment.
pub fn pixel_art_fragment(
    lit: &Color,
    params: &PixelArtShaderParams,
    coords: &FragmentCoords,
    space: DitherSpace,
) -> (out: Color)
    requires
        lit.is_valid(),
        params.is_valid(),
    ensures
        out == spec_pixel_art_fragment(*lit, *params, *coords, space),
        out.is_valid(),
        out.a == FP_ONE,
{
    if params.debug_stage == DEBUG_STAGE_LIGHTING {
        return lit.with_opaque_alpha();
    }
    let tooned: Color = toon_stage(lit, params);
    if params.debug_stage == DEBUG_STAGE_TOON || params.palette_count == 0 {
        return tooned.with_opaque_alpha();
    }
    let search: Color = if params.debug_stage == DEBUG_STAGE_PALETTE {
        tooned
    } else {
        dither_perturb(&tooned, coords, space, params.dither_density, params.dither_strength)
    };
    let quantized: Color = palette_stage(
        &tooned,
        &search,
        &params.palette_colors,
        params.palette_count,
        params.palette_strength,
    );
    quantized.with_opaque_alpha()
}

/// With a single active palette entry at full strength, the shaded fragment
/// is that entry made opaque, whatever the dither settings did to the
/// search color.
pub proof fn lemma_fragment_single_entry(
    lit: Color,
    params: PixelArtShaderParams,
    coords: FragmentCoords,
    space: DitherSpace,
)
    requires
        lit.is_valid(),
        params.is_valid(),
        params.palette_count == 1,
        params.palette_strength == FP_ONE,
        params.debug_stage != DEBUG_STAGE_LIGHTING,
        params.debug_stage != DEBUG_STAGE_TOON,
    ensures
        spec_pixel_art_fragment(lit, params, coords, space) == (Color {
            r: params.palette_colors@[0].r,
            g: params.palette_colors@[0].g,
            b: params.palette_colors@[0].b,
            a: FP_ONE,
        }),
{
    lemma_toon_stage_valid(
        lit,
        params.toon_bands as int,
        params.toon_softness as int,
        params.toon_shadow_floor as int,
    );
    let tooned = spec_toon_stage(
        lit,
        params.toon_bands as int,
        params.toon_softness as int,
        params.toon_shadow_floor as int,
    );
    let search = if params.debug_stage == DEBUG_STAGE_PALETTE {
        tooned
    } else {
        spec_dither_perturb(
            tooned,
            coords,
            space,
            params.dither_density as int,
            params.dither_strength as int,
        )
    };
    lemma_palette_full_strength_single(tooned, search, params.palette_colors@);
}

/// The pixel-art material extension: the tunable parameter record plus the
/// two fragment entry points that shade with it.
pub struct PixelArtExtension {
    pub params: PixelArtShaderParams,
}

impl PixelArtExtension {
    /// The main-pass fragment stage.
    pub fn fragment(&self, lit: &Color, coords: &FragmentCoords, space: DitherSpace) -> (out:
        Color)
        requires
            lit.is_valid(),
            self.params.is_valid(),
        ensures
            out == spec_pixel_art_fragment(*lit, self.params, *coords, space),
            out.is_valid(),
            out.a == FP_ONE,
    {
        pixel_art_fragment(lit, &self.params, coords, space)
    }

    /// The prepass fragment stage: it exists to write alpha 1.0 alongside
    /// depth, so edge detection treats this geometry as opaque.
    pub fn prepass_fragment(&self, lit: &Color) -> (out: Color)
        ensures
            out == spec_force_opaque(*lit),
            out.a == FP_ONE,
    {
        lit.with_opaque_alpha()
    }
}

/// The holdout material extension: no tunable state, only depth-write with
/// fully transparent output.
pub struct HoldoutExtension {}

impl HoldoutExtension {
    /// The main-pass fragment stage: fully transparent regardless of
    /// inputs; the rasterizer still writes depth normally.
    pub fn fragment(&self) -> (out: Color)
        ensures
            out == (Color { r: 0, g: 0, b: 0, a: 0 }),
            out.a == 0,
    {
        Color::transparent()
    }

    /// The prepass fragment stage: alpha 0, so edge detection treats
    /// holdout surfaces as non-edges.
    pub fn prepass_fragment(&self) -> (out: Color)
        ensures
            out == (Color { r: 0, g: 0, b: 0, a: 0 }),
            out.a == 0,
    {
        Color::transparent()
    }
}

/// Dithering at strength zero is a no-op at the fragment level: with every
/// other coefficient equal, the shaded result does not depend on the dither
/// density, the fragment position or the tiling space.
pub proof fn lemma_fragment_dither_zero(
    lit: Color,
    p1: PixelArtShaderParams,
    p2: PixelArtShaderParams,
    c1: FragmentCoords,
    s1: DitherSpace,
    c2: FragmentCoords,
    s2: DitherSpace,
)
    requires
        lit.is_valid(),
        p1.is_valid(),
        p2.is_valid(),
        p1.dither_strength == 0,
        p2.dither_strength == 0,
        p1.base_tint == p2.base_tint,
        p1.toon_bands == p2.toon_bands,
        p1.toon_softness == p2.toon_softness,
        p1.toon_shadow_floor == p2.toon_shadow_floor,
        p1.palette_count == p2.palette_count,
        p1.palette_strength == p2.palette_strength,
        p1.debug_stage == p2.debug_stage,
        p1.palette_colors@ == p2.palette_colors@,
    ensures
        spec_pixel_art_fragment(lit, p1, c1, s1) == spec_pixel_art_fragment(lit, p2, c2, s2),
{
    let tooned = spec_toon_stage(
        lit,
        p1.toon_bands as int,
        p1.toon_softness as int,
        p1.toon_shadow_floor as int,
    );
    lemma_toon_stage_valid(
        lit,
        p1.toon_bands as int,
        p1.toon_softness as int,
        p1.toon_shadow_floor as int,
    );
    lemma_dither_strength_zero_noop(tooned, c1, s1, p1.dither_density as int);
    lemma_dither_strength_zero_noop(tooned, c2, s2, p2.dither_density as int);
}

/// The plugin that registers the pixel-art and holdout materials with the
/// host: their four embedded fragment stages and the two material kinds.
pub struct PixelArtShaderPlugin {}

impl PixelArtShaderPlugin {
    /// Register shader stages and materials.
    pub fn build(&self, app: &mut AppModel)
        ensures
            final(app).shaders@ == old(app).shaders@ + seq![
                ShaderAsset::PixelArtFragment,
                ShaderAsset::PixelArtPrepassFragment,
                ShaderAsset::HoldoutFragment,
                ShaderAsset::HoldoutPrepassFragment,
            ],
            final(app).material_plugins@ == old(app).material_plugins@ + seq![
                MaterialPluginKind::PixelArt,
                MaterialPluginKind::Holdout,
            ],
    {
        app.shaders.push(ShaderAsset::PixelArtFragment);
        app.shaders.push(ShaderAsset::PixelArtPrepassFragment);
        app.shaders.push(ShaderAsset::HoldoutFragment);
        app.shaders.push(ShaderAsset::HoldoutPrepassFragment);
        app.material_plugins.push(MaterialPluginKind::PixelArt);
        app.material_plugins.push(MaterialPluginKind::Holdout);
        proof {
            assert(app.shaders@ =~= old(app).shaders@ + seq![
                ShaderAsset::PixelArtFragment,
                ShaderAsset::PixelArtPrepassFragment,
                ShaderAsset::HoldoutFragment,
                ShaderAsset::HoldoutPrepassFragment,
            ]);
            assert(app.material_plugins@ =~= old(app).material_plugins@ + seq![
                MaterialPluginKind::PixelArt,
                MaterialPluginKind::Holdout,
            ]);
        }
    }
}

} // verus!
