//! Toon quantization.
//!
//! The stage discretizes a fragment's brightness into `toon_bands` flat
//! levels.  Within each band the level is constant; over the last
//! `toon_softness` of a band the level ramps linearly up to the next one, so
//! band edges can be softened without breaking monotonicity.  The quantized
//! level is then remapped onto `[toon_shadow_floor, 1.0]` so the darkest
//! band never goes fully black.  Finally the fragment's color is rescaled to
//! the quantized brightness, preserving hue.

use vstd::prelude::*;
use crate::color::{Color, spec_luminance, luminance, lemma_luminance_unit};
use crate::fixed::{
    FP_ONE,
    FP_HALF,
    is_unit,
    lemma_factor_scale_bound,
    lemma_factor_scale_mono,
    lemma_scale_factor_bound,
    lemma_scale_factor_mono,
};
use crate::params::PixelArtShaderParams;
use vstd::arithmetic::div_mod::{
    lemma_div_is_ordered,
    lemma_div_multiples_vanish,
    lemma_fundamental_div_mod,
    lemma_mod_division_less_than_divisor,
};
use vstd::arithmetic::mul::{lemma_mul_inequality, lemma_mul_nonnegative};

verus! {

/// The band index a brightness value falls in: `lum * bands` scaled down by
/// the unit, clamped into `[0, bands - 1]`.
pub open spec fn spec_toon_band(lum: int, bands: int) -> int {
    let raw = lum * bands / (FP_ONE as int);
    if raw > bands - 1 {
        bands - 1
    } else {
        raw
    }
}

/// The position of a brightness value inside its band, in `[0, 1.0]`.
pub open spec fn spec_toon_frac(lum: int, bands: int) -> int {
    lum * bands - spec_toon_band(lum, bands) * (FP_ONE as int)
}

/// The representative brightness of a band: bands are flat levels
/// `1/bands, 2/bands, ..., 1.0`.
pub open spec fn spec_band_level(band: int, bands: int) -> int {
    (band + 1) * (FP_ONE as int) / bands
}

/// The blend weight toward the next band's level: zero until the last
/// `softness` of the band, then a linear ramp up to 1.0.
pub open spec fn spec_toon_t(frac: int, softness: int) -> int {
    if softness == 0 || frac <= FP_ONE - softness {
        0
    } else {
        (frac - (FP_ONE - softness)) * (FP_ONE as int) / softness
    }
}

/// The quantized brightness before the shadow-floor remap: the band's level,
/// blended toward the next level near the band's upper edge.
pub open spec fn spec_toon_quant(lum: int, bands: int, softness: int) -> int {
    let band = spec_toon_band(lum, bands);
    let base = spec_band_level(band, bands);
    let next = if band + 1 < bands {
        spec_band_level(band + 1, bands)
    } else {
        FP_ONE as int
    };
    base + (next - base) * spec_toon_t(spec_toon_frac(lum, bands), softness) / (FP_ONE as int)
}

/// The toon brightness curve: the quantized level remapped onto
/// `[floor, 1.0]`.
pub open spec fn spec_toon_curve(lum: int, bands: int, softness: int, floor: int) -> int {
    floor + spec_toon_quant(lum, bands, softness) * ((FP_ONE as int) - floor) / (FP_ONE as int)
}

/// The band index is in range and the in-band position lies in `[0, 1.0]`.
proof fn lemma_band_frac_bounds(lum: int, bands: int)
    requires
        0 <= lum <= FP_ONE,
        1 <= bands,
    ensures
        0 <= spec_toon_band(lum, bands) <= bands - 1,
        0 <= spec_toon_frac(lum, bands) <= FP_ONE,
{
    let scaled = lum * bands;
    let one = FP_ONE as int;
    lemma_mul_nonnegative(lum, bands);
    lemma_mul_inequality(lum, one, bands);
    let raw = scaled / one;
    lemma_div_is_ordered(0, scaled, one);
    let band = spec_toon_band(lum, bands);
    lemma_fundamental_div_mod(scaled, one);
    lemma_mod_division_less_than_divisor(scaled, one);
    if raw > bands - 1 {
        lemma_mul_inequality(band, raw, one);
        assert(scaled - band * one <= one) by (nonlinear_arith)
            requires
                scaled <= one * bands,
                band == bands - 1,
        ;
    }
}

/// Band levels are unit-interval values and the top band's level is 1.0.
proof fn lemma_level_bounds(band: int, bands: int)
    requires
        0 <= band <= bands - 1,
        1 <= bands,
    ensures
        0 <= spec_band_level(band, bands) <= FP_ONE,
        spec_band_level(bands - 1, bands) == FP_ONE,
{
    let one = FP_ONE as int;
    lemma_mul_inequality(band + 1, bands, one);
    assert(bands * one == one * bands) by (nonlinear_arith);
    lemma_div_is_ordered((band + 1) * one, bands * one, bands);
    lemma_div_multiples_vanish(one, bands);
    assert((band + 1) * one >= 0) by (nonlinear_arith)
        requires
            band + 1 >= 0,
            one >= 0,
    ;
    lemma_div_is_ordered(0, (band + 1) * one, bands);
}

/// Band levels are monotone in the band index.
proof fn lemma_level_mono(b1: int, b2: int, bands: int)
    requires
        b1 <= b2,
        1 <= bands,
    ensures
        spec_band_level(b1, bands) <= spec_band_level(b2, bands),
{
    let one = FP_ONE as int;
    lemma_mul_inequality(b1 + 1, b2 + 1, one);
    lemma_div_is_ordered((b1 + 1) * one, (b2 + 1) * one, bands);
}

/// The blend weight lies in `[0, 1.0]` and is monotone in the in-band
/// position.
proof fn lemma_t_bounds_mono(frac1: int, frac2: int, softness: int)
    requires
        0 <= frac1 <= frac2 <= FP_ONE,
        0 <= softness <= FP_HALF,
    ensures
        0 <= spec_toon_t(frac1, softness) <= FP_ONE,
        0 <= spec_toon_t(frac2, softness) <= FP_ONE,
        spec_toon_t(frac1, softness) <= spec_toon_t(frac2, softness),
{
    let one = FP_ONE as int;
    let ramp = one - softness;
    if softness > 0 {
        if frac1 > ramp {
            lemma_scale_factor_bound(frac1 - ramp, one, softness);
        }
        if frac2 > ramp {
            lemma_scale_factor_bound(frac2 - ramp, one, softness);
            if frac1 > ramp {
                lemma_scale_factor_mono(frac1 - ramp, frac2 - ramp, one, softness);
            }
        }
    }
}

/// The quantized level lies between its band's level and the next band's.
proof fn lemma_quant_bounds(lum: int, bands: int, softness: int)
    requires
        0 <= lum <= FP_ONE,
        1 <= bands,
        0 <= softness <= FP_HALF,
    ensures
        0 <= spec_toon_quant(lum, bands, softness) <= FP_ONE,
        spec_band_level(spec_toon_band(lum, bands), bands) <= spec_toon_quant(
            lum,
            bands,
            softness,
        ),
        spec_toon_quant(lum, bands, softness) <= if spec_toon_band(lum, bands) + 1 < bands {
            spec_band_level(spec_toon_band(lum, bands) + 1, bands)
        } else {
            FP_ONE as int
        },
{
    let one = FP_ONE as int;
    lemma_band_frac_bounds(lum, bands);
    let band = spec_toon_band(lum, bands);
    let frac = spec_toon_frac(lum, bands);
    let base = spec_band_level(band, bands);
    let next = if band + 1 < bands {
        spec_band_level(band + 1, bands)
    } else {
        one
    };
    lemma_level_bounds(band, bands);
    if band + 1 < bands {
        lemma_level_bounds(band + 1, bands);
        lemma_level_mono(band, band + 1, bands);
    }
    let t = spec_toon_t(frac, softness);
    lemma_t_bounds_mono(frac, frac, softness);
    lemma_factor_scale_bound(next - base, t, one);
}

/// The quantized level is monotone in brightness.
proof fn lemma_quant_mono(lum1: int, lum2: int, bands: int, softness: int)
    requires
        0 <= lum1 <= lum2 <= FP_ONE,
        1 <= bands,
        0 <= softness <= FP_HALF,
    ensures
        spec_toon_quant(lum1, bands, softness) <= spec_toon_quant(lum2, bands, softness),
{
    let one = FP_ONE as int;
    lemma_band_frac_bounds(lum1, bands);
    lemma_band_frac_bounds(lum2, bands);
    lemma_quant_bounds(lum1, bands, softness);
    lemma_quant_bounds(lum2, bands, softness);
    let band1 = spec_toon_band(lum1, bands);
    let band2 = spec_toon_band(lum2, bands);
    lemma_mul_inequality(lum1, lum2, bands);
    lemma_div_is_ordered(lum1 * bands, lum2 * bands, one);
    assert(band1 <= band2);
    if band1 == band2 {
        let base = spec_band_level(band1, bands);
        let next = if band1 + 1 < bands {
            spec_band_level(band1 + 1, bands)
        } else {
            one
        };
        lemma_level_bounds(band1, bands);
        if band1 + 1 < bands {
            lemma_level_bounds(band1 + 1, bands);
            lemma_level_mono(band1, band1 + 1, bands);
        }
        let frac1 = spec_toon_frac(lum1, bands);
        let frac2 = spec_toon_frac(lum2, bands);
        assert(frac1 <= frac2);
        lemma_t_bounds_mono(frac1, frac2, softness);
        lemma_factor_scale_mono(
            next - base,
            spec_toon_t(frac1, softness),
            spec_toon_t(frac2, softness),
            one,
        );
    } else {
        // The first value's quantized level tops out at its next band's
        // level, which the second value's band has already reached.
        assert(band1 + 1 < bands);
        lemma_level_mono(band1 + 1, band2, bands);
    }
}

/// The toon brightness curve maps `[0, 1.0]` into `[floor, 1.0]`,
/// monotonically.
pub proof fn lemma_toon_curve_bounds(lum: int, bands: int, softness: int, floor: int)
    requires
        0 <= lum <= FP_ONE,
        1 <= bands,
        0 <= softness <= FP_HALF,
        0 <= floor <= FP_ONE,
    ensures
        floor <= spec_toon_curve(lum, bands, softness, floor) <= FP_ONE,
{
    let one = FP_ONE as int;
    lemma_quant_bounds(lum, bands, softness);
    lemma_scale_factor_bound(spec_toon_quant(lum, bands, softness), one - floor, one);
}

/// For every valid parameter set, toon-quantized brightness is monotone
/// non-decreasing in the input brightness, and after the shadow-floor remap
/// it never falls below the floor.
pub proof fn lemma_toon_brightness_law(
    lum1: int,
    lum2: int,
    bands: int,
    softness: int,
    floor: int,
)
    requires
        0 <= lum1 <= lum2 <= FP_ONE,
        1 <= bands,
        0 <= softness <= FP_HALF,
        0 <= floor <= FP_ONE,
    ensures
        spec_toon_curve(lum1, bands, softness, floor) <= spec_toon_curve(
            lum2,
            bands,
            softness,
            floor,
        ),
        floor <= spec_toon_curve(lum1, bands, softness, floor) <= FP_ONE,
{
    let one = FP_ONE as int;
    lemma_toon_curve_bounds(lum1, bands, softness, floor);
    lemma_toon_curve_bounds(lum2, bands, softness, floor);
    lemma_quant_mono(lum1, lum2, bands, softness);
    lemma_quant_bounds(lum1, bands, softness);
    lemma_quant_bounds(lum2, bands, softness);
    lemma_scale_factor_mono(
        spec_toon_quant(lum1, bands, softness),
        spec_toon_quant(lum2, bands, softness),
        one - floor,
        one,
    );
}

/// Compute the toon brightness curve for one brightness value.
pub fn toon_quantize_brightness(lum: u32, bands: u32, softness: u32, floor: u32) -> (r: u32)
    requires
        is_unit(lum),
        bands >= 1,
        softness <= FP_HALF,
        is_unit(floor),
    ensures
        r == spec_toon_curve(lum as int, bands as int, softness as int, floor as int),
        floor <= r <= FP_ONE,
{
    proof {
        lemma_band_frac_bounds(lum as int, bands as int);
        lemma_quant_bounds(lum as int, bands as int, softness as int);
        lemma_toon_curve_bounds(lum as int, bands as int, softness as int, floor as int);
        lemma_level_bounds(spec_toon_band(lum as int, bands as int), bands as int);
        if spec_toon_band(lum as int, bands as int) + 1 < bands {
            lemma_level_bounds(spec_toon_band(lum as int, bands as int) + 1, bands as int);
            lemma_level_mono(
                spec_toon_band(lum as int, bands as int),
                spec_toon_band(lum as int, bands as int) + 1,
                bands as int,
            );
        }
        lemma_t_bounds_mono(
            spec_toon_frac(lum as int, bands as int),
            spec_toon_frac(lum as int, bands as int),
            softness as int,
        );
    }
    let one64: u64 = FP_ONE as u64;
    let scaled: u64 = (lum as u64) * (bands as u64);
    let raw: u64 = scaled / one64;
    let top: u64 = (bands - 1) as u64;
    let band: u64 = if raw > top {
        top
    } else {
        raw
    };
    let frac: u64 = scaled - band * one64;
    let base: u64 = (band + 1) * one64 / (bands as u64);
    let next: u64 = if band + 1 < bands as u64 {
        (band + 2) * one64 / (bands as u64)
    } else {
        one64
    };
    let ramp: u64 = (FP_ONE - softness) as u64;
    let t: u64 = if softness == 0 || frac <= ramp {
        0
    } else {
        (frac - ramp) * one64 / (softness as u64)
    };
    let quant: u64 = base + (next - base) * t / one64;
    let out: u64 = (floor as u64) + quant * ((FP_ONE - floor) as u64) / one64;
    out as u32
}

/// The toon stage applied to a whole color: the color rescaled so its
/// brightness equals the quantized curve value, preserving hue; pure black
/// (which carries no hue) becomes the curve's floor level as a grey.  Each
/// channel saturates at 1.0.  Alpha is kept.
pub open spec fn spec_toon_stage(c: Color, bands: int, softness: int, floor: int) -> Color {
    let lum = spec_luminance(c);
    let level = spec_toon_curve(lum, bands, softness, floor);
    if lum == 0 {
        Color { r: level as u32, g: level as u32, b: level as u32, a: c.a }
    } else {
        Color {
            r: spec_rescale(c.r as int, level, lum) as u32,
            g: spec_rescale(c.g as int, level, lum) as u32,
            b: spec_rescale(c.b as int, level, lum) as u32,
            a: c.a,
        }
    }
}

/// One channel scaled by `level / lum`, saturating at 1.0.
pub open spec fn spec_rescale(ch: int, level: int, lum: int) -> int {
    let scaled = ch * level / lum;
    if scaled > FP_ONE as int {
        FP_ONE as int
    } else {
        scaled
    }
}

/// The toon stage keeps colors valid and does not touch alpha.
pub proof fn lemma_toon_stage_valid(c: Color, bands: int, softness: int, floor: int)
    requires
        c.is_valid(),
        1 <= bands,
        0 <= softness <= FP_HALF,
        0 <= floor <= FP_ONE,
    ensures
        spec_toon_stage(c, bands, softness, floor).is_valid(),
        spec_toon_stage(c, bands, softness, floor).a == c.a,
{
    lemma_luminance_unit(c);
    let lum = spec_luminance(c);
    lemma_toon_curve_bounds(lum, bands, softness, floor);
    let level = spec_toon_curve(lum, bands, softness, floor);
    if lum != 0 {
        lemma_rescale_unit(c.r as int, level, lum);
        lemma_rescale_unit(c.g as int, level, lum);
        lemma_rescale_unit(c.b as int, level, lum);
    }
}

/// A rescaled channel stays in the unit interval.
proof fn lemma_rescale_unit(ch: int, level: int, lum: int)
    requires
        0 <= ch,
        0 <= level,
        0 < lum,
    ensures
        0 <= spec_rescale(ch, level, lum) <= FP_ONE,
{
    lemma_mul_nonnegative(ch, level);
    lemma_div_is_ordered(0, ch * level, lum);
}

/// Rescale one channel by `level / lum`.
fn rescale_channel(ch: u32, level: u32, lum: u32) -> (r: u32)
    requires
        is_unit(ch),
        is_unit(level),
        0 < lum <= FP_ONE,
    ensures
        r == spec_rescale(ch as int, level as int, lum as int),
        is_unit(r),
{
    proof {
        lemma_mul_inequality(ch as int, FP_ONE as int, level as int);
        lemma_div_is_ordered(0, (ch as int) * (level as int), lum as int);
        assert((ch as int) * (level as int) >= 0) by (nonlinear_arith);
    }
    let scaled: u32 = ch * level / lum;
    if scaled > FP_ONE {
        FP_ONE
    } else {
        scaled
    }
}

/// Apply toon quantization to a fragment color using the material's
/// parameters.
pub fn toon_stage(c: &Color, params: &PixelArtShaderParams) -> (out: Color)
    requires
        c.is_valid(),
        params.is_valid(),
    ensures
        out == spec_toon_stage(
            *c,
            params.toon_bands as int,
            params.toon_softness as int,
            params.toon_shadow_floor as int,
        ),
        out.is_valid(),
        out.a == c.a,
{
    proof {
        lemma_luminance_unit(*c);
    }
    let lum: u32 = luminance(c);
    let level: u32 = toon_quantize_brightness(
        lum,
        params.toon_bands,
        params.toon_softness,
        params.toon_shadow_floor,
    );
    if lum == 0 {
        Color { r: level, g: level, b: level, a: c.a }
    } else {
        Color {
            r: rescale_channel(c.r, level, lum),
            g: rescale_channel(c.g, level, lum),
            b: rescale_channel(c.b, level, lum),
            a: c.a,
        }
    }
}

} // verus!
