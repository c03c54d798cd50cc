//! ASCII-art rendering core.
//!
//! Turns a decoded raster image into a grid of characters: each pixel is
//! reduced to a perceptual brightness value, the brightness selects a glyph
//! from a fixed ramp of characters ordered dark to bright, and the glyphs are
//! assembled into a two-dimensional grid that also keeps each pixel's original
//! color for optional tinting by a renderer.
//!
//! Decoding, resizing and terminal output are left to the caller; the library
//! itself is a pure transformation over in-memory pixel data.

pub mod grid;
pub mod pixel;
pub mod ramp;
