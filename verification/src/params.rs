//! Per-material shading parameters.
//!
//! [`PixelArtShaderParams`] is the plain data record that crosses to the
//! shading stage once per material per frame.  Its fields are public and
//! independently mutable in place — a tuning panel reads and writes them
//! directly — and [`PixelArtShaderParams::to_gpu_words`] fixes the exact
//! word layout under which the record is uploaded, which must never change
//! on one side alone.

use vstd::prelude::*;
use crate::color::Color;
use crate::fixed::{FP_ONE, FP_HALF, is_unit};
use crate::palette::{PALETTE_CAPACITY, palette_wf, palette_build_post, default_pixel_art_palette};

verus! {

/// Debug stage selector: run the full pipeline.
pub const DEBUG_STAGE_FULL: u32 = 0;

/// Debug stage selector: stop after physically-based lighting.
pub const DEBUG_STAGE_LIGHTING: u32 = 1;

/// Debug stage selector: stop after toon quantization.
pub const DEBUG_STAGE_TOON: u32 = 2;

/// Debug stage selector: stop after palette quantization, without dither.
pub const DEBUG_STAGE_PALETTE: u32 = 3;

/// Debug stage selector: stop after dithering (the full stylized result).
pub const DEBUG_STAGE_DITHER: u32 = 4;

/// The number of scalar words that precede the palette in the GPU layout.
pub const GPU_HEADER_WORDS: usize = 12;

/// The total number of words in the GPU layout: the header plus four words
/// for each palette slot.
pub const GPU_PARAM_WORDS: usize = 268;

/// Tunable shading coefficients of one pixel-art material, plus its palette
/// snapshot.
pub struct PixelArtShaderParams {
    /// Base tint color (linear RGBA); the albedo handed to lighting.
    pub base_tint: Color,
    /// Number of toon shading bands (at least 1).
    pub toon_bands: u32,
    /// Softness of toon band transitions, at most 0.5 in fixed point.
    pub toon_softness: u32,
    /// Minimum brightness in shadow areas, in fixed point.
    pub toon_shadow_floor: u32,
    /// Dither pattern scale: `FP_ONE` places one threshold cell per
    /// coordinate unit.
    pub dither_density: u32,
    /// Number of active palette colors; 0 disables palette quantization.
    pub palette_count: u32,
    /// Blend strength toward palette colors, a unit-interval value.
    pub palette_strength: u32,
    /// Ordered-dither strength, a unit-interval value; 0 disables dithering.
    pub dither_strength: u32,
    /// Debug visualization stage, one of the `DEBUG_STAGE_*` selectors.
    pub debug_stage: u32,
    /// Palette colors in linear space, always the full table.
    pub palette_colors: Vec<Color>,
}

impl PixelArtShaderParams {
    /// Every coefficient is in its documented range and the palette table is
    /// well formed.
    pub open spec fn is_valid(self) -> bool {
        &&& self.base_tint.is_valid()
        &&& self.toon_bands >= 1
        &&& self.toon_softness <= FP_HALF
        &&& is_unit(self.toon_shadow_floor)
        &&& self.palette_count <= PALETTE_CAPACITY
        &&& is_unit(self.palette_strength)
        &&& is_unit(self.dither_strength)
        &&& self.debug_stage <= DEBUG_STAGE_DITHER
        &&& palette_wf(self.palette_colors@, self.palette_count)
    }

    /// Serialize the record into its fixed GPU word order: the four tint
    /// channels, the seven scalar coefficients and the stage selector, then
    /// four words per palette slot.  The shading stage reads exactly this
    /// order; any change here must be mirrored there.
    pub fn to_gpu_words(&self) -> (words: Vec<u32>)
        requires
            self.palette_colors@.len() == PALETTE_CAPACITY,
        ensures
            words@.len() == GPU_PARAM_WORDS,
            words@[0] == self.base_tint.r,
            words@[1] == self.base_tint.g,
            words@[2] == self.base_tint.b,
            words@[3] == self.base_tint.a,
            words@[4] == self.toon_bands,
            words@[5] == self.toon_softness,
            words@[6] == self.toon_shadow_floor,
            words@[7] == self.dither_density,
            words@[8] == self.palette_count,
            words@[9] == self.palette_strength,
            words@[10] == self.dither_strength,
            words@[11] == self.debug_stage,
            forall|i: int|
                0 <= i < PALETTE_CAPACITY ==> {
                    let c = #[trigger] self.palette_colors@[i];
                    &&& words@[GPU_HEADER_WORDS + 4 * i] == c.r
                    &&& words@[GPU_HEADER_WORDS + 4 * i + 1] == c.g
                    &&& words@[GPU_HEADER_WORDS + 4 * i + 2] == c.b
                    &&& words@[GPU_HEADER_WORDS + 4 * i + 3] == c.a
                },
    {
        let mut words: Vec<u32> = Vec::new();
        words.push(self.base_tint.r);
        words.push(self.base_tint.g);
        words.push(self.base_tint.b);
        words.push(self.base_tint.a);
        words.push(self.toon_bands);
        words.push(self.toon_softness);
        words.push(self.toon_shadow_floor);
        words.push(self.dither_density);
        words.push(self.palette_count);
        words.push(self.palette_strength);
        words.push(self.dither_strength);
        words.push(self.debug_stage);
        let mut i: usize = 0;
        while i < PALETTE_CAPACITY
            invariant
                i <= PALETTE_CAPACITY,
                self.palette_colors@.len() == PALETTE_CAPACITY,
                words@.len() == GPU_HEADER_WORDS + 4 * i,
                words@[0] == self.base_tint.r,
                words@[1] == self.base_tint.g,
                words@[2] == self.base_tint.b,
                words@[3] == self.base_tint.a,
                words@[4] == self.toon_bands,
                words@[5] == self.toon_softness,
                words@[6] == self.toon_shadow_floor,
                words@[7] == self.dither_density,
                words@[8] == self.palette_count,
                words@[9] == self.palette_strength,
                words@[10] == self.dither_strength,
                words@[11] == self.debug_stage,
                forall|j: int|
                    0 <= j < i ==> {
                        let c = #[trigger] self.palette_colors@[j];
                        &&& words@[GPU_HEADER_WORDS + 4 * j] == c.r
                        &&& words@[GPU_HEADER_WORDS + 4 * j + 1] == c.g
                        &&& words@[GPU_HEADER_WORDS + 4 * j + 2] == c.b
                        &&& words@[GPU_HEADER_WORDS + 4 * j + 3] == c.a
                    },
            decreases PALETTE_CAPACITY - i,
        {
            let c = self.palette_colors[i];
            words.push(c.r);
            words.push(c.g);
            words.push(c.b);
            words.push(c.a);
            i = i + 1;
        }
        words
    }
}

impl Default for PixelArtShaderParams {
    /// The tuned defaults: a white tint, ten toon bands with hard edges, a
    /// 0.1 shadow floor, one dither cell per unit, the full default palette
    /// at quarter strength, 0.3 dither strength, and the full pipeline.
    fn default() -> (p: PixelArtShaderParams)
        ensures
            p.base_tint == (Color { r: FP_ONE, g: FP_ONE, b: FP_ONE, a: FP_ONE }),
            p.toon_bands == 10,
            p.toon_softness == 0,
            p.toon_shadow_floor == 410,
            p.dither_density == FP_ONE,
            p.palette_count == PALETTE_CAPACITY,
            p.palette_strength == 1024,
            p.dither_strength == 1229,
            p.debug_stage == DEBUG_STAGE_FULL,
            palette_build_post(p.palette_colors@, p.palette_count),
            p.is_valid(),
    {
        let (palette, count) = default_pixel_art_palette();
        PixelArtShaderParams {
            base_tint: Color { r: FP_ONE, g: FP_ONE, b: FP_ONE, a: FP_ONE },
            toon_bands: 10,
            toon_softness: 0,
            toon_shadow_floor: 410,
            dither_density: FP_ONE,
            palette_count: count,
            palette_strength: 1024,
            dither_strength: 1229,
            debug_stage: DEBUG_STAGE_FULL,
            palette_colors: palette,
        }
    }
}

} // verus!
