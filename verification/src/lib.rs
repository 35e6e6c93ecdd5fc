//! A software reimplementation of a fixed-function 2D tile-and-sprite video
//! display processor in the style of a classic 8-bit console's picture
//! processing unit: a scanline-based rasterizer composites a background
//! tilemap (with attribute-driven palette selection) over which a bounded
//! set of hardware-style sprites is drawn, honoring authentic constraints —
//! a per-scanline sprite cap, 2-bit-per-pixel packed tile patterns,
//! transparent color 0, and 4-color palette groups addressed by 2-bit
//! attribute codes.
//!
//! - [`pattern`] holds the packed 2-bit-per-pixel tile format;
//! - [`ppu`] holds the processor's state and its mutation API;
//! - [`render`] holds the rasterizer and the laws of its composition rules;
//! - [`gfx`] holds the fixed pattern drawings and their loader.

pub mod gfx;
pub mod pattern;
pub mod ppu;
pub mod render;
