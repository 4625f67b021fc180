//! A verified driver for a memory-mapped text-mode console.
//!
//! The display is a fixed grid of character cells, each a glyph byte plus a
//! packed color-attribute byte. A writer appends bytes on the bottom row,
//! handling carriage return, backspace, line wrap and scrolling; a guarded
//! console wraps the writer for process-wide shared use.

pub mod color;
pub mod console;
pub mod vga;

pub use crate::color::Color;
pub use crate::color::ColorCode;
pub use crate::console::Console;
pub use crate::console::get_color;
pub use crate::console::print_intern;
pub use crate::console::read_cell;
pub use crate::console::set_color;
pub use crate::console::set_color2;
pub use crate::console::set_color3;
pub use crate::vga::Kharakter;
pub use crate::vga::VGABuffer;
pub use crate::vga::VGAWriter;
