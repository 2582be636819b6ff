use vstd::prelude::*;

verus! {

/// Address of the first glyph of the built-in font.
pub const FONT_MEM_OFFSET: usize = 0x050;

/// Number of bytes in one glyph.
pub const GLYPH_SIZE: usize = 5;

/// Number of bytes in the whole font: sixteen glyphs, one per hex digit.
pub const FONT_SIZE: usize = 80;

/// The built-in font. Glyph `d` occupies bytes `5 * d .. 5 * d + 5`; each
/// byte is one row of the glyph, drawn from its high four bits.
pub const FONT_SET: [u8; 80] = [
    0xF0, 0x90, 0x90, 0x90, 0xF0,
    0x20, 0x60, 0x20, 0x20, 0x70,
    0xF0, 0x10, 0xF0, 0x80, 0xF0,
    0xF0, 0x10, 0xF0, 0x10, 0xF0,
    0x90, 0x90, 0xF0, 0x10, 0x10,
    0xF0, 0x80, 0xF0, 0x10, 0xF0,
    0xF0, 0x80, 0xF0, 0x90, 0xF0,
    0xF0, 0x10, 0x20, 0x40, 0x40,
    0xF0, 0x90, 0xF0, 0x90, 0xF0,
    0xF0, 0x90, 0xF0, 0x10, 0xF0,
    0xF0, 0x90, 0xF0, 0x90, 0x90,
    0xE0, 0x90, 0xE0, 0x90, 0xE0,
    0xF0, 0x80, 0x80, 0x80, 0xF0,
    0xE0, 0x90, 0x90, 0x90, 0xE0,
    0xF0, 0x80, 0xF0, 0x80, 0xF0,
    0xF0, 0x80, 0xF0, 0x80, 0x80,
];

/// Address of the glyph for the hex digit `digit`.
pub open spec fn glyph_address(digit: int) -> int {
    FONT_MEM_OFFSET + GLYPH_SIZE * digit
}

} // verus!
