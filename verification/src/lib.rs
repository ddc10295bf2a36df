//! Batch conversion of raster images into composed SVG "cards".
//!
//! The library re-encodes a source image as PNG, embeds it as a base64
//! data URI in an SVG template by literal token substitution, and
//! rasterizes the composed document onto a fixed-size canvas.

use vstd::prelude::*;

pub mod compose;
pub mod encode;
pub mod errors;
pub mod names;
pub mod pipeline;
pub mod render;
pub mod text;

verus! {

/// Width in pixels of the rendered card canvas.
pub const CANVAS_WIDTH: u32 = 750;

/// Height in pixels of the rendered card canvas.
pub const CANVAS_HEIGHT: u32 = 600;

} // verus!
