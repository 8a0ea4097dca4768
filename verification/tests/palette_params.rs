use pixel_art_shader::color::{srgb_color, srgb_to_linear, Color};
use pixel_art_shader::fixed::{FP_ONE, fp_lerp, fp_mul, clamp_unit};
use pixel_art_shader::palette::{default_pixel_art_palette, PALETTE_CAPACITY};
use pixel_art_shader::params::{
    PixelArtShaderParams, DEBUG_STAGE_FULL, GPU_HEADER_WORDS, GPU_PARAM_WORDS,
};

#[test]
fn srgb_endpoints_are_exact() {
    assert_eq!(srgb_to_linear(0), 0);
    assert_eq!(srgb_to_linear(255), FP_ONE);
}

#[test]
fn srgb_conversion_values() {
    // (77/255)^2 in 1/4096 units, rounded down.
    assert_eq!(srgb_to_linear(77), 373);
    assert_eq!(srgb_to_linear(29), 52);
    assert_eq!(srgb_to_linear(43), 116);
    assert_eq!(srgb_to_linear(83), 433);
}

#[test]
fn srgb_conversion_is_monotone() {
    let mut prev = 0;
    for c in 0..=255u16 {
        let lin = srgb_to_linear(c as u8);
        assert!(lin >= prev);
        prev = lin;
    }
}

#[test]
fn srgb_color_forces_opaque_alpha() {
    let c = srgb_color(10, 20, 30);
    assert_eq!(c.a, FP_ONE);
}

#[test]
fn palette_has_full_count_and_capacity() {
    let (colors, count) = default_pixel_art_palette();
    assert_eq!(count, 64);
    assert_eq!(colors.len(), PALETTE_CAPACITY);
}

#[test]
fn palette_construction_is_deterministic() {
    let (colors1, count1) = default_pixel_art_palette();
    let (colors2, count2) = default_pixel_art_palette();
    assert_eq!(count1, count2);
    assert_eq!(colors1, colors2);
}

#[test]
fn palette_known_entries() {
    let (colors, _) = default_pixel_art_palette();
    // Entry 0 is black, entry 8 is the red (255, 0, 77).
    assert_eq!(colors[0], Color { r: 0, g: 0, b: 0, a: FP_ONE });
    assert_eq!(colors[8], Color { r: FP_ONE, g: 0, b: 373, a: FP_ONE });
    // Entry 1 is the dark blue (29, 43, 83).
    assert_eq!(colors[1], Color { r: 52, g: 116, b: 433, a: FP_ONE });
    // Entry 63 is the charcoal (45, 45, 45).
    assert_eq!(colors[63], srgb_color(45, 45, 45));
}

#[test]
fn palette_entries_are_opaque_units() {
    let (colors, _) = default_pixel_art_palette();
    for c in &colors {
        assert!(c.r <= FP_ONE && c.g <= FP_ONE && c.b <= FP_ONE);
        assert_eq!(c.a, FP_ONE);
    }
}

#[test]
fn default_params_values() {
    let p = PixelArtShaderParams::default();
    assert_eq!(p.base_tint, Color { r: FP_ONE, g: FP_ONE, b: FP_ONE, a: FP_ONE });
    assert_eq!(p.toon_bands, 10);
    assert_eq!(p.toon_softness, 0);
    assert_eq!(p.toon_shadow_floor, 410);
    assert_eq!(p.dither_density, FP_ONE);
    assert_eq!(p.palette_count, 64);
    assert_eq!(p.palette_strength, 1024);
    assert_eq!(p.dither_strength, 1229);
    assert_eq!(p.debug_stage, DEBUG_STAGE_FULL);
    let (colors, _) = default_pixel_art_palette();
    assert_eq!(p.palette_colors, colors);
}

#[test]
fn gpu_words_layout() {
    let mut p = PixelArtShaderParams::default();
    p.base_tint = Color { r: 1, g: 2, b: 3, a: 4 };
    p.toon_bands = 5;
    p.toon_softness = 6;
    p.toon_shadow_floor = 7;
    p.dither_density = 8;
    p.palette_count = 9;
    p.palette_strength = 10;
    p.dither_strength = 11;
    p.debug_stage = 2;
    let words = p.to_gpu_words();
    assert_eq!(words.len(), GPU_PARAM_WORDS);
    assert_eq!(&words[0..12], &[1, 2, 3, 4, 5, 6, 7, 8, 9, 10, 11, 2]);
    // Each palette slot occupies four words after the header.
    for (i, c) in p.palette_colors.iter().enumerate() {
        let base = GPU_HEADER_WORDS + 4 * i;
        assert_eq!(words[base], c.r);
        assert_eq!(words[base + 1], c.g);
        assert_eq!(words[base + 2], c.b);
        assert_eq!(words[base + 3], c.a);
    }
}

#[test]
fn fixed_point_helpers() {
    assert_eq!(fp_mul(FP_ONE, FP_ONE), FP_ONE);
    assert_eq!(fp_mul(2048, 2048), 1024);
    assert_eq!(fp_lerp(100, 300, 0), 100);
    assert_eq!(fp_lerp(100, 300, FP_ONE), 300);
    assert_eq!(fp_lerp(300, 100, FP_ONE), 100);
    assert_eq!(fp_lerp(100, 300, 2048), 200);
    assert_eq!(clamp_unit(5000), FP_ONE);
    assert_eq!(clamp_unit(5), 5);
}
