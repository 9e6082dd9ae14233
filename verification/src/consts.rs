//! Fixed dimensions of the machine and the built-in hexadecimal font.

use vstd::prelude::*;

verus! {

/// Address at which a program is placed and at which execution starts.
pub const PROGRAM_START: u16 = 0x200;

/// Largest program that fits between `PROGRAM_START` and the end of the
/// 4096 bytes of memory.
pub const MAX_ROM_SIZE: usize = 3584;

/// Framebuffer width in pixels.
pub const SCREEN_WIDTH: usize = 64;

/// Framebuffer height in pixels.
pub const SCREEN_HEIGHT: usize = 32;

/// Width of one sprite row in pixels.
pub const NUM_BITS_IN_BYTE: usize = 8;

/// Address of the first byte of the glyph for digit 0.
pub const FONTSET_START_ADDRESS: usize = 0x50;

/// Bytes per glyph.
pub const GLYPH_SIZE: usize = 5;

/// Total size of the font: sixteen glyphs of five rows each.
pub const FONTSET_SIZE: usize = 80;

/// The glyphs for the digits 0 to F, five rows each, most significant bit leftmost.
pub const FONTSET: [u8; 80] = [
    0xF0, 0x90, 0x90, 0x90, 0xF0,
    0x20, 0x60, 0x20, 0x20, 0x70,
    0xF0, 0x10, 0xF0, 0x80, 0xF0,
    0xF0, 0x10, 0xF0, 0x10, 0xF0,
    0x90, 0x90, 0xF0, 0x10, 0x10,
    0xF0, 0x80, 0xF0, 0x10, 0xF0,
    0xF0, 0x80, 0xF0, 0x90, 0xF0,
    0xF0, 0x10, 0x20, 0x40, 0x40,
    0xF0, 0x90, 0xF0, 0x90, 0xF0,
    0xF0, 0x90, 0xF0, 0x10, 0xF0,
    0xF0, 0x90, 0xF0, 0x90, 0x90,
    0xE0, 0x90, 0xE0, 0x90, 0xE0,
    0xF0, 0x80, 0x80, 0x80, 0xF0,
    0xE0, 0x90, 0x90, 0x90, 0xE0,
    0xF0, 0x80, 0xF0, 0x80, 0xF0,
    0xF0, 0x80, 0xF0, 0x80, 0x80,
];

} // verus!
