use pixel_art_shader::color::{luminance, Color};
use pixel_art_shader::dither::{dither_perturb, dither_threshold, DitherSpace, FragmentCoords};
use pixel_art_shader::fixed::FP_ONE;
use pixel_art_shader::params::{
    PixelArtShaderParams, DEBUG_STAGE_LIGHTING, DEBUG_STAGE_PALETTE, DEBUG_STAGE_TOON,
};
use pixel_art_shader::shading::{
    nearest_palette_index, palette_stage, pixel_art_fragment, lighting_inputs, HoldoutExtension,
    PixelArtExtension,
};
use pixel_art_shader::toon::{toon_quantize_brightness, toon_stage};

fn gray(v: u32) -> Color {
    Color { r: v, g: v, b: v, a: FP_ONE }
}

fn coords_at(x: u32, y: u32) -> FragmentCoords {
    FragmentCoords { screen_x: x, screen_y: y, world_x: x, world_y: y }
}

#[test]
fn luminance_of_gray_is_its_level() {
    assert_eq!(luminance(&gray(0)), 0);
    assert_eq!(luminance(&gray(2048)), 2048);
    assert_eq!(luminance(&gray(FP_ONE)), FP_ONE);
}

#[test]
fn one_band_is_flat_full_brightness() {
    for lum in [0u32, 1, 1000, 2048, 4095, 4096] {
        assert_eq!(toon_quantize_brightness(lum, 1, 0, 0), FP_ONE);
        assert_eq!(toon_quantize_brightness(lum, 1, 0, 410), FP_ONE);
    }
}

#[test]
fn four_hard_bands() {
    assert_eq!(toon_quantize_brightness(0, 4, 0, 0), 1024);
    assert_eq!(toon_quantize_brightness(1023, 4, 0, 0), 1024);
    assert_eq!(toon_quantize_brightness(1024, 4, 0, 0), 2048);
    assert_eq!(toon_quantize_brightness(2048, 4, 0, 0), 3072);
    assert_eq!(toon_quantize_brightness(3072, 4, 0, 0), FP_ONE);
    assert_eq!(toon_quantize_brightness(FP_ONE, 4, 0, 0), FP_ONE);
}

#[test]
fn shadow_floor_remaps_darkest_band() {
    // The darkest of four bands, remapped onto [410, 4096].
    assert_eq!(toon_quantize_brightness(0, 4, 0, 410), 1331);
    // The brightest band still reaches full brightness.
    assert_eq!(toon_quantize_brightness(FP_ONE, 4, 0, 410), FP_ONE);
}

#[test]
fn softness_ramps_toward_next_band() {
    // Two bands, softness 0.5: below the ramp the band level holds.
    assert_eq!(toon_quantize_brightness(1024, 2, 2048, 0), 2048);
    // Inside the ramp the level climbs linearly.
    assert_eq!(toon_quantize_brightness(1536, 2, 2048, 0), 3072);
    // At the band edge the next level is reached.
    assert_eq!(toon_quantize_brightness(2048, 2, 2048, 0), FP_ONE);
}

#[test]
fn toon_curve_is_monotone_and_floored() {
    for &(bands, softness, floor) in
        &[(1u32, 0u32, 0u32), (3, 0, 410), (5, 1000, 300), (10, 2048, 820), (64, 100, 0)]
    {
        let mut prev = 0;
        let mut lum = 0u32;
        while lum <= FP_ONE {
            let out = toon_quantize_brightness(lum, bands, softness, floor);
            assert!(out >= prev, "brightness decreased at lum {lum}");
            assert!(out >= floor);
            assert!(out <= FP_ONE);
            prev = out;
            lum += 37;
        }
    }
}

#[test]
fn toon_stage_scales_hue_preserving() {
    let mut p = PixelArtShaderParams::default();
    p.toon_bands = 4;
    p.toon_softness = 0;
    p.toon_shadow_floor = 0;
    // A mid gray sits in the third band.
    assert_eq!(toon_stage(&gray(2048), &p), gray(3072));
    // Pure black has no hue: it becomes the floor-level gray of the curve.
    assert_eq!(toon_stage(&gray(0), &p), gray(1024));
}

#[test]
fn lighting_inputs_are_flat() {
    let p = PixelArtShaderParams::default();
    let li = lighting_inputs(&p);
    assert_eq!(li.albedo, p.base_tint);
    assert_eq!(li.roughness, FP_ONE);
    assert_eq!(li.reflectance, 0);
}

#[test]
fn nearest_picks_closest_entry() {
    let palette = vec![gray(0), gray(FP_ONE)];
    assert_eq!(nearest_palette_index(&gray(1000), &palette, 2), 0);
    assert_eq!(nearest_palette_index(&gray(3000), &palette, 2), 1);
}

#[test]
fn nearest_tie_takes_first_entry() {
    let palette = vec![gray(500), gray(500), gray(500)];
    assert_eq!(nearest_palette_index(&gray(1234), &palette, 3), 0);
}

#[test]
fn nearest_respects_active_count() {
    // The far closer white entry is beyond the active count.
    let palette = vec![gray(0), gray(FP_ONE)];
    assert_eq!(nearest_palette_index(&gray(4000), &palette, 1), 0);
}

#[test]
fn palette_strength_zero_is_identity() {
    let palette = vec![gray(0), gray(FP_ONE)];
    let c = Color { r: 700, g: 800, b: 900, a: FP_ONE };
    assert_eq!(palette_stage(&c, &c, &palette, 2, 0), c);
}

#[test]
fn palette_full_strength_single_entry_snaps() {
    let palette = vec![Color { r: 11, g: 22, b: 33, a: FP_ONE }];
    let c = Color { r: 700, g: 800, b: 900, a: FP_ONE };
    let out = palette_stage(&c, &c, &palette, 1, FP_ONE);
    assert_eq!(out, Color { r: 11, g: 22, b: 33, a: FP_ONE });
}

#[test]
fn palette_count_zero_disables_stage() {
    let palette = vec![gray(0), gray(FP_ONE)];
    let c = Color { r: 700, g: 800, b: 900, a: FP_ONE };
    assert_eq!(palette_stage(&c, &c, &palette, 0, FP_ONE), c);
}

#[test]
fn dither_strength_zero_is_noop() {
    let c = Color { r: 700, g: 800, b: 900, a: FP_ONE };
    for density in [1u32, 2048, FP_ONE, 4 * FP_ONE] {
        for space in [DitherSpace::ScreenSpace, DitherSpace::WorldSpace] {
            for xy in [0u32, 1, 2, 3, 17] {
                assert_eq!(dither_perturb(&c, &coords_at(xy, xy + 1), space, density, 0), c);
            }
        }
    }
}

#[test]
fn dither_threshold_follows_bayer_cells() {
    // Cell (0, 0) has rank 0; cell (1, 0) has rank 8.
    assert_eq!(dither_threshold(&coords_at(0, 0), DitherSpace::ScreenSpace, FP_ONE), 128);
    assert_eq!(dither_threshold(&coords_at(1, 0), DitherSpace::ScreenSpace, FP_ONE), 8 * 256 + 128);
}

#[test]
fn dither_nudges_and_saturates() {
    // Threshold 128 darkens by (2048 - 128) at full strength.
    let dark = dither_perturb(
        &gray(2048),
        &coords_at(0, 0),
        DitherSpace::ScreenSpace,
        FP_ONE,
        FP_ONE,
    );
    assert_eq!(dark, Color { r: 128, g: 128, b: 128, a: FP_ONE });
    // A channel near zero saturates at zero rather than wrapping.
    let floor = dither_perturb(
        &gray(100),
        &coords_at(0, 0),
        DitherSpace::ScreenSpace,
        FP_ONE,
        FP_ONE,
    );
    assert_eq!(floor, Color { r: 0, g: 0, b: 0, a: FP_ONE });
}

#[test]
fn world_space_tiling_uses_world_coordinates() {
    let c = FragmentCoords { screen_x: 0, screen_y: 0, world_x: 1, world_y: 0 };
    let screen = dither_threshold(&c, DitherSpace::ScreenSpace, FP_ONE);
    let world = dither_threshold(&c, DitherSpace::WorldSpace, FP_ONE);
    assert_eq!(screen, 128);
    assert_eq!(world, 8 * 256 + 128);
}

#[test]
fn fragment_stage_one_returns_lit_opaque() {
    let mut p = PixelArtShaderParams::default();
    p.debug_stage = DEBUG_STAGE_LIGHTING;
    let lit = Color { r: 700, g: 800, b: 900, a: 5 };
    let out = pixel_art_fragment(&lit, &p, &coords_at(0, 0), DitherSpace::ScreenSpace);
    assert_eq!(out, Color { r: 700, g: 800, b: 900, a: FP_ONE });
}

#[test]
fn fragment_stage_two_stops_after_toon() {
    let mut p = PixelArtShaderParams::default();
    p.debug_stage = DEBUG_STAGE_TOON;
    p.toon_bands = 4;
    p.toon_softness = 0;
    p.toon_shadow_floor = 0;
    let out = pixel_art_fragment(&gray(2048), &p, &coords_at(0, 0), DitherSpace::ScreenSpace);
    assert_eq!(out, gray(3072));
}

#[test]
fn fragment_forces_alpha_opaque() {
    let p = PixelArtShaderParams::default();
    let lit = Color { r: 700, g: 800, b: 900, a: 0 };
    let out = pixel_art_fragment(&lit, &p, &coords_at(3, 5), DitherSpace::ScreenSpace);
    assert_eq!(out.a, FP_ONE);
}

#[test]
fn fragment_single_entry_full_strength_snaps_to_palette() {
    let mut p = PixelArtShaderParams::default();
    p.palette_count = 1;
    p.palette_strength = FP_ONE;
    p.palette_colors[0] = Color { r: 11, g: 22, b: 33, a: FP_ONE };
    for stage in [0u32, DEBUG_STAGE_PALETTE, 4] {
        p.debug_stage = stage;
        let out = pixel_art_fragment(&gray(2000), &p, &coords_at(2, 3), DitherSpace::ScreenSpace);
        assert_eq!(out, Color { r: 11, g: 22, b: 33, a: FP_ONE });
    }
}

#[test]
fn fragment_dither_zero_matches_undithered_palette_stage() {
    let mut full = PixelArtShaderParams::default();
    full.dither_strength = 0;
    full.debug_stage = 0;
    let mut undithered = PixelArtShaderParams::default();
    undithered.dither_strength = 0;
    undithered.debug_stage = DEBUG_STAGE_PALETTE;
    undithered.dither_density = 9999;
    let lit = Color { r: 700, g: 1800, b: 2900, a: FP_ONE };
    let a = pixel_art_fragment(&lit, &full, &coords_at(7, 9), DitherSpace::ScreenSpace);
    let b = pixel_art_fragment(&lit, &undithered, &coords_at(1, 2), DitherSpace::WorldSpace);
    assert_eq!(a, b);
}

#[test]
fn pixel_art_extension_shades_with_its_params() {
    let ext = PixelArtExtension { params: PixelArtShaderParams::default() };
    let lit = gray(2048);
    let direct = pixel_art_fragment(
        &lit,
        &ext.params,
        &coords_at(0, 0),
        DitherSpace::ScreenSpace,
    );
    assert_eq!(ext.fragment(&lit, &coords_at(0, 0), DitherSpace::ScreenSpace), direct);
    assert_eq!(ext.prepass_fragment(&Color { r: 1, g: 2, b: 3, a: 0 }).a, FP_ONE);
}

#[test]
fn holdout_is_fully_transparent() {
    let holdout = HoldoutExtension {};
    assert_eq!(holdout.fragment(), Color { r: 0, g: 0, b: 0, a: 0 });
    assert_eq!(holdout.prepass_fragment().a, 0);
}
