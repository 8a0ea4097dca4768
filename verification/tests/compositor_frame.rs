use pixel_art_shader::color::Color;
use pixel_art_shader::compositor::{
    composite_frames, composite_pixel, ColorImage, DepthImage,
};
use pixel_art_shader::fixed::FP_ONE;

fn rgb(r: u32, g: u32, b: u32) -> Color {
    Color { r, g, b, a: FP_ONE }
}

fn clear() -> Color {
    Color { r: 0, g: 0, b: 0, a: 0 }
}

fn color_image(width: usize, height: usize, texels: Vec<Color>) -> ColorImage {
    assert_eq!(texels.len(), width * height);
    ColorImage { width, height, texels }
}

fn depth_image(width: usize, height: usize, texels: Vec<u32>) -> DepthImage {
    assert_eq!(texels.len(), width * height);
    DepthImage { width, height, texels }
}

#[test]
fn composite_pixel_depth_grid() {
    let full = rgb(100, 100, 100);
    let low = rgb(3000, 0, 0);
    // Low-res surface well in front: its color is shown.
    assert_eq!(composite_pixel(&full, 2048, &low, 410, 0), low);
    // Low-res surface well behind: the full-res color passes through.
    assert_eq!(composite_pixel(&full, 819, &low, 3686, 0), full);
    // Transparent low-res sample: full-res color regardless of depth.
    let transparent = clear();
    assert_eq!(composite_pixel(&full, 2048, &transparent, 410, 0), full);
}

#[test]
fn composite_pixel_bias_boundary() {
    let full = rgb(100, 100, 100);
    let low = rgb(3000, 0, 0);
    // Exactly at the biased boundary the low-res surface still wins.
    assert_eq!(composite_pixel(&full, 2000, &low, 2100, 100), low);
    // One unit past the bias it loses.
    assert_eq!(composite_pixel(&full, 2000, &low, 2101, 100), full);
}

#[test]
fn composite_frames_one_to_one() {
    let f00 = rgb(10, 0, 0);
    let f10 = rgb(20, 0, 0);
    let f01 = rgb(30, 0, 0);
    let f11 = rgb(40, 0, 0);
    let full_color = color_image(2, 2, vec![f00, f10, f01, f11]);
    let full_depth = depth_image(2, 2, vec![2048, 819, 2048, 819]);
    let l00 = rgb(0, 10, 0);
    let l10 = rgb(0, 20, 0);
    let l01 = rgb(0, 30, 0);
    let low_color = color_image(2, 2, vec![l00, l10, l01, clear()]);
    let low_depth = depth_image(2, 2, vec![410, 3686, 410, 410]);
    let out = composite_frames(&full_color, &full_depth, &low_color, &low_depth, 0);
    assert_eq!(out.width, 2);
    assert_eq!(out.height, 2);
    // (0,0): low in front, visible.
    assert_eq!(out.texel(0, 0), l00);
    // (1,0): low behind, full-res shows.
    assert_eq!(out.texel(1, 0), f10);
    // (0,1): low in front, visible.
    assert_eq!(out.texel(0, 1), l01);
    // (1,1): transparent low sample, full-res shows.
    assert_eq!(out.texel(1, 1), f11);
}

#[test]
fn composite_frames_upscales_nearest_neighbor() {
    // A 4x4 view over a 2x2 low-res target: each low-res texel covers a
    // blocky 2x2 area of the output.
    let full_color = color_image(4, 4, vec![rgb(1, 1, 1); 16]);
    let full_depth = depth_image(4, 4, vec![FP_ONE; 16]);
    let q00 = rgb(0, 100, 0);
    let q10 = rgb(0, 200, 0);
    let q01 = rgb(0, 300, 0);
    let q11 = rgb(0, 400, 0);
    let low_color = color_image(2, 2, vec![q00, q10, q01, q11]);
    let low_depth = depth_image(2, 2, vec![0, 0, 0, 0]);
    let out = composite_frames(&full_color, &full_depth, &low_color, &low_depth, 0);
    for y in 0..4 {
        for x in 0..4 {
            let expect = match (x / 2, y / 2) {
                (0, 0) => q00,
                (1, 0) => q10,
                (0, 1) => q01,
                _ => q11,
            };
            assert_eq!(out.texel(x, y), expect);
        }
    }
}

#[test]
fn transparent_lowres_round_trip_identity() {
    // A holdout-only low-res scene: alpha 0 everywhere, arbitrary depths.
    let full_color = color_image(
        3,
        2,
        vec![rgb(1, 2, 3), rgb(4, 5, 6), rgb(7, 8, 9), rgb(10, 11, 12), rgb(13, 14, 15), rgb(
            16, 17, 18,
        )],
    );
    let full_depth = depth_image(3, 2, vec![100, 4096, 2048, 0, 3000, 500]);
    let low_color = color_image(2, 2, vec![clear(), clear(), clear(), clear()]);
    let low_depth = depth_image(2, 2, vec![0, 0, 4096, 4096]);
    let out = composite_frames(&full_color, &full_depth, &low_color, &low_depth, 200);
    assert_eq!(out.texels, full_color.texels);
    assert_eq!(out.width, full_color.width);
    assert_eq!(out.height, full_color.height);
}

#[test]
fn holdout_ground_occludes_behind_shows_sphere_in_front() {
    // A ground plane at depth D is drawn in the full-res pass and
    // duplicated as a holdout in the low-res layer: the holdout writes
    // depth D with alpha 0.  A pixel-art sphere hovers just above the
    // ground, and another object hides behind it.
    let ground_depth: u32 = 2048;
    let bias: u32 = 100;
    let ground = rgb(900, 900, 900);
    let sphere = rgb(4096, 0, 0);
    let buried = rgb(0, 0, 4096);
    let full_color = color_image(2, 2, vec![ground, ground, ground, ground]);
    let full_depth = depth_image(2, 2, vec![ground_depth; 4]);
    // (0,0): the sphere, epsilon in front of the ground.
    // (1,0): the buried object, deeper than the bias allows.
    // (0,1): the holdout itself: ground depth, fully transparent.
    // (1,1): empty background: far depth, transparent clear.
    let low_color = color_image(
        2,
        2,
        vec![sphere, buried, Color { a: 0, ..ground }, clear()],
    );
    let low_depth = depth_image(2, 2, vec![ground_depth - 1, ground_depth + bias + 1, ground_depth, 4096]);
    let out = composite_frames(&full_color, &full_depth, &low_color, &low_depth, bias);
    assert_eq!(out.texel(0, 0), sphere);
    assert_eq!(out.texel(1, 0), ground);
    assert_eq!(out.texel(0, 1), ground);
    assert_eq!(out.texel(1, 1), ground);
}

#[test]
fn sphere_visible_for_any_epsilon_above_ground() {
    let ground_depth: u32 = 3000;
    let bias: u32 = 50;
    let ground = rgb(900, 900, 900);
    let sphere = rgb(4096, 0, 0);
    for epsilon in [1u32, 10, 100, 1000, 3000] {
        let full_color = color_image(1, 1, vec![ground]);
        let full_depth = depth_image(1, 1, vec![ground_depth]);
        let low_color = color_image(1, 1, vec![sphere]);
        let low_depth = depth_image(1, 1, vec![ground_depth - epsilon]);
        let out = composite_frames(&full_color, &full_depth, &low_color, &low_depth, bias);
        assert_eq!(out.texel(0, 0), sphere);
    }
    // And anything deeper than the bias is hidden.
    for epsilon in [bias + 1, bias + 10, 1000] {
        let full_color = color_image(1, 1, vec![ground]);
        let full_depth = depth_image(1, 1, vec![ground_depth]);
        let low_color = color_image(1, 1, vec![sphere]);
        let low_depth = depth_image(1, 1, vec![ground_depth + epsilon]);
        let out = composite_frames(&full_color, &full_depth, &low_color, &low_depth, bias);
        assert_eq!(out.texel(0, 0), ground);
    }
}
