//! Frame scheduling, keypad latching and framebuffer rasterization for a
//! 64x32 monochrome virtual machine display driven by a host refresh loop.
//!
//! Everything here works on plain values: timestamps are integer
//! microseconds, colours are bytes, mesh positions are integer numerators
//! over the grid size. The host converts to and from its own representations.
use vstd::prelude::*;

pub mod frame;
pub mod input;
pub mod palette;
pub mod raster;
pub mod scheduler;

verus! {

/// Width of the pixel grid, in pixels.
pub const SCREEN_WIDTH: usize = 64;

/// Height of the pixel grid, in pixels.
pub const SCREEN_HEIGHT: usize = 32;

} // verus!
