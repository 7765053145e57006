//! What holds of the conversion from RGB for every colour.

use crate::arith::{
    lemma_floor_div_unique, lemma_round_div_at_least, lemma_round_div_within, round_div,
};
use crate::colors::{
    brightness_of, chromaticity_x, chromaticity_y, is_black, tristimulus_sum, tristimulus_x,
    tristimulus_y, within_limit, Position, BRIGHTNESS_MAX, CHROMATICITY_ONE, NEUTRAL_X, NEUTRAL_Y,
    RGB,
};
use crate::gamma::{lemma_linear_intensity_range, linear_intensity};
use vstd::prelude::*;

verus! {

/// The chromaticity of a colour lies in the unit square, with `y` above
/// zero, and its brightness is at most 254: the way back to RGB is open to it,
/// and so is the adjustment for a gamut.
pub proof fn lemma_chromaticity_in_range(rgb: RGB)
    ensures
        0 <= chromaticity_x(rgb) <= CHROMATICITY_ONE,
        0 < chromaticity_y(rgb) <= CHROMATICITY_ONE,
        0 <= brightness_of(rgb) <= BRIGHTNESS_MAX,
        within_limit(Position { x: chromaticity_x(rgb), y: chromaticity_y(rgb) }),
        is_black(rgb) <==> tristimulus_sum(rgb) == 0,
{
    let r = linear_intensity(rgb.r as int);
    let g = linear_intensity(rgb.g as int);
    let b = linear_intensity(rgb.b as int);
    lemma_linear_intensity_range(rgb.r as int);
    lemma_linear_intensity_range(rgb.g as int);
    lemma_linear_intensity_range(rgb.b as int);
    let x = tristimulus_x(r, g, b);
    let y = tristimulus_y(r, g, b);
    let sum = tristimulus_sum(rgb);
    lemma_round_div_within(BRIGHTNESS_MAX * y, 1_000_000_000_000, 254);
    lemma_round_div_at_least(BRIGHTNESS_MAX * y, 1_000_000_000_000, 0);
    if !is_black(rgb) {
        lemma_round_div_within(CHROMATICITY_ONE * x, sum, CHROMATICITY_ONE as int);
        lemma_round_div_within(CHROMATICITY_ONE * y, sum, CHROMATICITY_ONE as int);
        lemma_round_div_at_least(CHROMATICITY_ONE * x, sum, 0);
        lemma_round_div_at_least(CHROMATICITY_ONE * y, sum, 1);
    }
}

/// Every grey has the chromaticity of the neutral point.
pub proof fn lemma_grey_is_neutral(rgb: RGB)
    requires
        rgb.r == rgb.g,
        rgb.g == rgb.b,
    ensures
        chromaticity_x(rgb) == NEUTRAL_X,
        chromaticity_y(rgb) == NEUTRAL_Y,
{
    if !is_black(rgb) {
        let g = linear_intensity(rgb.r as int);
        lemma_linear_intensity_range(rgb.r as int);
        let d = tristimulus_sum(rgb);
        assert(d == 3039299 * g);
        lemma_floor_div_unique(2 * (CHROMATICITY_ONE * (980863 * g)) + d, 2 * d, NEUTRAL_X as int);
        lemma_floor_div_unique(2 * (CHROMATICITY_ONE * (999999 * g)) + d, 2 * d, NEUTRAL_Y as int);
    }
}

/// Black has the brightness zero, and white the highest.
pub proof fn lemma_brightness_ends()
    ensures
        brightness_of(RGB { r: 0, g: 0, b: 0 }) == 0,
        brightness_of(RGB { r: 255, g: 255, b: 255 }) == BRIGHTNESS_MAX,
{
    lemma_linear_intensity_range(0);
    lemma_linear_intensity_range(255);
    lemma_floor_div_unique(1_000_000_000_000, 2_000_000_000_000, 0);
    lemma_floor_div_unique(
        2 * (BRIGHTNESS_MAX * 999_999_000_000) + 1_000_000_000_000,
        2_000_000_000_000,
        254,
    );
    assert(round_div(0, 1_000_000_000_000) == 0);
    assert(round_div(BRIGHTNESS_MAX * 999_999_000_000, 1_000_000_000_000) == 254);
}

} // verus!
