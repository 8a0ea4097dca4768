//! The quantization palette.
//!
//! A palette is an ordered table of up to [`PALETTE_CAPACITY`] linear-space
//! colors together with an active count; entries at and beyond the count are
//! ignored by the shading stages, not zero-filled at use time.  The default
//! table is a curated 64-color pixel-art set converted from display space
//! once at startup.

use vstd::prelude::*;
use crate::color::{Color, spec_srgb_color, srgb_color, lemma_srgb_to_linear_unit};
use crate::fixed::FP_ONE;

verus! {

/// The fixed capacity of a palette table.
pub const PALETTE_CAPACITY: usize = 64;

/// A palette slice is well formed when it fills the fixed capacity, its
/// active count fits, and every entry is a valid color.
pub open spec fn palette_wf(colors: Seq<Color>, count: u32) -> bool {
    &&& colors.len() == PALETTE_CAPACITY
    &&& count <= PALETTE_CAPACITY
    &&& forall|i: int| 0 <= i < colors.len() ==> (#[trigger] colors[i]).is_valid()
}

/// The base 16 colors of the default table.
pub open spec fn spec_palette_base() -> Seq<Color> {
    seq![
        spec_srgb_color(0, 0, 0),
        spec_srgb_color(29, 43, 83),
        spec_srgb_color(126, 37, 83),
        spec_srgb_color(0, 135, 81),
        spec_srgb_color(171, 82, 54),
        spec_srgb_color(95, 87, 79),
        spec_srgb_color(194, 195, 199),
        spec_srgb_color(255, 241, 232),
        spec_srgb_color(255, 0, 77),
        spec_srgb_color(255, 163, 0),
        spec_srgb_color(255, 236, 39),
        spec_srgb_color(0, 228, 54),
        spec_srgb_color(41, 173, 255),
        spec_srgb_color(131, 118, 156),
        spec_srgb_color(255, 119, 168),
        spec_srgb_color(255, 204, 170),
    ]
}

/// The extended 16 colors of the default table.
pub open spec fn spec_palette_extended() -> Seq<Color> {
    seq![
        spec_srgb_color(41, 24, 20),
        spec_srgb_color(17, 29, 53),
        spec_srgb_color(66, 33, 54),
        spec_srgb_color(18, 83, 89),
        spec_srgb_color(116, 47, 41),
        spec_srgb_color(73, 51, 59),
        spec_srgb_color(162, 136, 121),
        spec_srgb_color(243, 239, 125),
        spec_srgb_color(190, 18, 80),
        spec_srgb_color(255, 108, 36),
        spec_srgb_color(168, 231, 46),
        spec_srgb_color(0, 181, 67),
        spec_srgb_color(6, 90, 181),
        spec_srgb_color(117, 70, 101),
        spec_srgb_color(255, 110, 89),
        spec_srgb_color(255, 157, 129),
    ]
}

/// The last 32 colors of the default table: earth tones, skin, sky, foliage
/// and metal accents.
pub open spec fn spec_palette_extras() -> Seq<Color> {
    seq![
        spec_srgb_color(34, 32, 52),
        spec_srgb_color(69, 40, 60),
        spec_srgb_color(102, 57, 49),
        spec_srgb_color(143, 86, 59),
        spec_srgb_color(223, 113, 38),
        spec_srgb_color(217, 160, 102),
        spec_srgb_color(238, 195, 154),
        spec_srgb_color(251, 242, 54),
        spec_srgb_color(153, 229, 80),
        spec_srgb_color(106, 190, 48),
        spec_srgb_color(55, 148, 110),
        spec_srgb_color(75, 105, 47),
        spec_srgb_color(82, 75, 36),
        spec_srgb_color(50, 60, 57),
        spec_srgb_color(63, 63, 116),
        spec_srgb_color(48, 96, 130),
        spec_srgb_color(91, 110, 225),
        spec_srgb_color(99, 155, 255),
        spec_srgb_color(95, 205, 228),
        spec_srgb_color(203, 219, 252),
        spec_srgb_color(155, 173, 183),
        spec_srgb_color(132, 126, 135),
        spec_srgb_color(105, 106, 106),
        spec_srgb_color(89, 86, 82),
        spec_srgb_color(118, 66, 138),
        spec_srgb_color(172, 50, 50),
        spec_srgb_color(217, 87, 99),
        spec_srgb_color(215, 123, 186),
        spec_srgb_color(143, 151, 74),
        spec_srgb_color(138, 111, 48),
        spec_srgb_color(75, 47, 55),
        spec_srgb_color(45, 45, 45),
    ]
}

/// The default 64-color palette, in linear space.
pub open spec fn spec_default_palette() -> Seq<Color> {
    spec_palette_base() + spec_palette_extended() + spec_palette_extras()
}

/// Every color produced from display-space bytes is valid and opaque.
pub proof fn lemma_srgb_colors_valid()
    ensures
        forall|r: u8, g: u8, b: u8|
            (#[trigger] spec_srgb_color(r, g, b)).is_valid() && spec_srgb_color(r, g, b).a
                == FP_ONE,
{
    assert forall|r: u8, g: u8, b: u8|
        (#[trigger] spec_srgb_color(r, g, b)).is_valid() && spec_srgb_color(r, g, b).a
            == FP_ONE by {
        lemma_srgb_to_linear_unit(r);
        lemma_srgb_to_linear_unit(g);
        lemma_srgb_to_linear_unit(b);
    }
}

/// The default palette is a well-formed full table.
pub proof fn lemma_default_palette_wf()
    ensures
        palette_wf(spec_default_palette(), PALETTE_CAPACITY as u32),
        forall|i: int|
            0 <= i < spec_default_palette().len() ==> (#[trigger] spec_default_palette()[i]).a
                == FP_ONE,
{
    lemma_srgb_colors_valid();
    assert(spec_default_palette().len() == PALETTE_CAPACITY);
}

/// What the palette builder promises: the full default table and its active
/// count.
pub open spec fn palette_build_post(colors: Seq<Color>, count: u32) -> bool {
    colors == spec_default_palette() && count == PALETTE_CAPACITY as u32
}

/// Palette construction is deterministic: any two results of the builder
/// hold the identical color sequence and the same active count.
pub proof fn lemma_palette_build_deterministic(
    colors1: Seq<Color>,
    count1: u32,
    colors2: Seq<Color>,
    count2: u32,
)
    requires
        palette_build_post(colors1, count1),
        palette_build_post(colors2, count2),
    ensures
        colors1 == colors2,
        count1 == count2,
{
}

/// Build the default pixel-art palette: 64 display-space triples converted
/// to linear space, alpha fixed at 1.0, all entries active.
pub fn default_pixel_art_palette() -> (result: (Vec<Color>, u32))
    ensures
        palette_build_post(result.0@, result.1),
        palette_wf(result.0@, result.1),
{
    let mut colors: Vec<Color> = Vec::new();
    push_palette_base(&mut colors);
    push_palette_extended(&mut colors);
    push_palette_extras(&mut colors);
    proof {
        lemma_default_palette_wf();
        assert(colors@ =~= spec_default_palette());
    }
    (colors, 64)
}

/// Append the base 16 colors.
fn push_palette_base(colors: &mut Vec<Color>)
    ensures
        final(colors)@ =~= old(colors)@ + spec_palette_base(),
{
    colors.push(srgb_color(0, 0, 0));
    colors.push(srgb_color(29, 43, 83));
    colors.push(srgb_color(126, 37, 83));
    colors.push(srgb_color(0, 135, 81));
    colors.push(srgb_color(171, 82, 54));
    colors.push(srgb_color(95, 87, 79));
    colors.push(srgb_color(194, 195, 199));
    colors.push(srgb_color(255, 241, 232));
    colors.push(srgb_color(255, 0, 77));
    colors.push(srgb_color(255, 163, 0));
    colors.push(srgb_color(255, 236, 39));
    colors.push(srgb_color(0, 228, 54));
    colors.push(srgb_color(41, 173, 255));
    colors.push(srgb_color(131, 118, 156));
    colors.push(srgb_color(255, 119, 168));
    colors.push(srgb_color(255, 204, 170));
}

/// Append the extended 16 colors.
fn push_palette_extended(colors: &mut Vec<Color>)
    ensures
        final(colors)@ =~= old(colors)@ + spec_palette_extended(),
{
    colors.push(srgb_color(41, 24, 20));
    colors.push(srgb_color(17, 29, 53));
    colors.push(srgb_color(66, 33, 54));
    colors.push(srgb_color(18, 83, 89));
    colors.push(srgb_color(116, 47, 41));
    colors.push(srgb_color(73, 51, 59));
    colors.push(srgb_color(162, 136, 121));
    colors.push(srgb_color(243, 239, 125));
    colors.push(srgb_color(190, 18, 80));
    colors.push(srgb_color(255, 108, 36));
    colors.push(srgb_color(168, 231, 46));
    colors.push(srgb_color(0, 181, 67));
    colors.push(srgb_color(6, 90, 181));
    colors.push(srgb_color(117, 70, 101));
    colors.push(srgb_color(255, 110, 89));
    colors.push(srgb_color(255, 157, 129));
}

/// Append the last 32 colors.
fn push_palette_extras(colors: &mut Vec<Color>)
    ensures
        final(colors)@ =~= old(colors)@ + spec_palette_extras(),
{
    colors.push(srgb_color(34, 32, 52));
    colors.push(srgb_color(69, 40, 60));
    colors.push(srgb_color(102, 57, 49));
    colors.push(srgb_color(143, 86, 59));
    colors.push(srgb_color(223, 113, 38));
    colors.push(srgb_color(217, 160, 102));
    colors.push(srgb_color(238, 195, 154));
    colors.push(srgb_color(251, 242, 54));
    colors.push(srgb_color(153, 229, 80));
    colors.push(srgb_color(106, 190, 48));
    colors.push(srgb_color(55, 148, 110));
    colors.push(srgb_color(75, 105, 47));
    colors.push(srgb_color(82, 75, 36));
    colors.push(srgb_color(50, 60, 57));
    colors.push(srgb_color(63, 63, 116));
    colors.push(srgb_color(48, 96, 130));
    colors.push(srgb_color(91, 110, 225));
    colors.push(srgb_color(99, 155, 255));
    colors.push(srgb_color(95, 205, 228));
    colors.push(srgb_color(203, 219, 252));
    colors.push(srgb_color(155, 173, 183));
    colors.push(srgb_color(132, 126, 135));
    colors.push(srgb_color(105, 106, 106));
    colors.push(srgb_color(89, 86, 82));
    colors.push(srgb_color(118, 66, 138));
    colors.push(srgb_color(172, 50, 50));
    colors.push(srgb_color(217, 87, 99));
    colors.push(srgb_color(215, 123, 186));
    colors.push(srgb_color(143, 151, 74));
    colors.push(srgb_color(138, 111, 48));
    colors.push(srgb_color(75, 47, 55));
    colors.push(srgb_color(45, 45, 45));
}

} // verus!
