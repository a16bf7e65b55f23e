use vstd::prelude::*;

pub mod cartridge;
pub mod cpu;
pub mod display;
pub mod font;
pub mod keypad;
pub mod rand;
pub mod theorems;

verus! {

/// Number of addressable bytes of machine memory.
pub const MEMORY_SIZE: usize = 4096;

/// Width of the framebuffer, in pixels.
pub const DISPLAY_PIXEL_WIDTH: usize = 64;

/// Height of the framebuffer, in pixels.
pub const DISPLAY_PIXEL_HEIGHT: usize = 32;

} // verus!
