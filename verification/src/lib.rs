//! Turns one rasterized glyph, a grayscale coverage bitmap, into a fixed-size
//! grid of terminal cells: a character per cell, optionally with a grayscale
//! foreground colour.
//!
//! The work is split into four pure steps. [`aspect`] computes the size at
//! which the glyph should be rasterized, [`sampler`] resamples the bitmap into
//! the requested grid, [`density`] picks a character for each intensity and
//! [`color`] annotates it. [`render`] composes them and [`text`] writes the
//! cells out for a terminal. [`font`] takes over what the font parser
//! returned to the caller.

mod arith;
pub mod aspect;
pub mod color;
pub mod density;
pub mod font;
pub mod mode;
pub mod render;
pub mod sampler;
pub mod text;

pub use aspect::{compute_raster_size, AspectRatio, RasterSize};
pub use color::{encode, DisplayCell, Foreground};
pub use density::map_intensity;
pub use font::font_or_error;
pub use mode::{CharacterSet, ColorMode, RenderError, RenderMode};
pub use render::{
    bitmap_to_ascii, render, render_char, render_char_with_aspect_ratio, render_char_with_mode,
    render_lines,
};
pub use sampler::sample;
pub use text::line_to_string;
