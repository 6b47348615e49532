//! A text-mode display writer: a 25 × 80 grid of character cells, written
//! through volatile cells, with line wrap and scroll on overflow.

pub mod color;
pub mod vga_buffer;
pub mod laws;
