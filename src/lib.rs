//! Plotting of functions and pixel grids as terminal text made of sextant
//! glyphs, with an in-place redraw controller.

pub mod color;
pub mod display;
pub mod glyph;
pub mod raster;
pub mod render;
mod text;

pub use display::{RedrawPlan, TerminalDisplay};
pub use glyph::{get_char_for_pixels, glyph_for, InvalidGlyphIndex};
pub use render::{bool_arr_to_int, cell_index, get_highest_x};
