//! Control of networked colour lights.
//!
//! A bridge takes colours as a chromaticity with a brightness, and each model
//! of light can show only the chromaticities of a triangle, its gamut. This
//! library converts between RGB and chromaticity, moves a chromaticity that a
//! light cannot show to the nearest one it can, and writes the requests that
//! switch, colour and name the lights of a bridge. It sends nothing itself.
//!
//! All numbers are whole: chromaticities in ten-thousandths, linear
//! intensities in millionths.

pub mod arith;
pub mod color_lemmas;
pub mod colors;
pub mod curve;
pub mod gamma;
pub mod gamut_lemmas;
pub mod hue;
pub mod json;
pub mod text;
