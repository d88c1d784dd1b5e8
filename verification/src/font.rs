//! The built-in font: sixteen glyphs of five bytes each, for the digits 0 to F.

use vstd::prelude::*;
use crate::memory::{overlay, write_block};

verus! {

/// The five rows of the glyph for hexadecimal digit `digit`, top row first.
/// Each row is a byte whose high four bits are the pixels.
pub open spec fn glyph(digit: int) -> Seq<u8> {
    if digit == 0x0 {
        seq![0xF0u8, 0x90u8, 0x90u8, 0x90u8, 0xF0u8]
    } else if digit == 0x1 {
        seq![0x20u8, 0x60u8, 0x20u8, 0x20u8, 0x70u8]
    } else if digit == 0x2 {
        seq![0xF0u8, 0x10u8, 0xF0u8, 0x80u8, 0xF0u8]
    } else if digit == 0x3 {
        seq![0xF0u8, 0x10u8, 0xF0u8, 0x10u8, 0xF0u8]
    } else if digit == 0x4 {
        seq![0x90u8, 0x90u8, 0xF0u8, 0x10u8, 0x10u8]
    } else if digit == 0x5 {
        seq![0xF0u8, 0x80u8, 0xF0u8, 0x10u8, 0xF0u8]
    } else if digit == 0x6 {
        seq![0xF0u8, 0x80u8, 0xF0u8, 0x90u8, 0xF0u8]
    } else if digit == 0x7 {
        seq![0xF0u8, 0x10u8, 0x20u8, 0x40u8, 0x40u8]
    } else if digit == 0x8 {
        seq![0xF0u8, 0x90u8, 0xF0u8, 0x90u8, 0xF0u8]
    } else if digit == 0x9 {
        seq![0xF0u8, 0x90u8, 0xF0u8, 0x10u8, 0xF0u8]
    } else if digit == 0xA {
        seq![0xF0u8, 0x90u8, 0xF0u8, 0x90u8, 0x90u8]
    } else if digit == 0xB {
        seq![0xE0u8, 0x90u8, 0xE0u8, 0x90u8, 0xE0u8]
    } else if digit == 0xC {
        seq![0xF0u8, 0x80u8, 0x80u8, 0x80u8, 0xF0u8]
    } else if digit == 0xD {
        seq![0xE0u8, 0x90u8, 0x90u8, 0x90u8, 0xE0u8]
    } else if digit == 0xE {
        seq![0xF0u8, 0x80u8, 0xF0u8, 0x80u8, 0xF0u8]
    } else {
        seq![0xF0u8, 0x80u8, 0xF0u8, 0x80u8, 0x80u8]
    }
}

/// The font as it lies in memory: the sixteen glyphs one after the other,
/// 80 bytes in all.
pub open spec fn font_table() -> Seq<u8> {
    Seq::new(80, |i: int| glyph(i / 5)[i % 5])
}

/// The glyph for hexadecimal digit `digit`.
pub fn glyph_bytes(digit: u8) -> (bytes: [u8; 5])
    requires
        digit < 16,
    ensures
        bytes@ == glyph(digit as int),
{
    let bytes: [u8; 5] = match digit {
        0x0 => [0xF0, 0x90, 0x90, 0x90, 0xF0],
        0x1 => [0x20, 0x60, 0x20, 0x20, 0x70],
        0x2 => [0xF0, 0x10, 0xF0, 0x80, 0xF0],
        0x3 => [0xF0, 0x10, 0xF0, 0x10, 0xF0],
        0x4 => [0x90, 0x90, 0xF0, 0x10, 0x10],
        0x5 => [0xF0, 0x80, 0xF0, 0x10, 0xF0],
        0x6 => [0xF0, 0x80, 0xF0, 0x90, 0xF0],
        0x7 => [0xF0, 0x10, 0x20, 0x40, 0x40],
        0x8 => [0xF0, 0x90, 0xF0, 0x90, 0xF0],
        0x9 => [0xF0, 0x90, 0xF0, 0x10, 0xF0],
        0xA => [0xF0, 0x90, 0xF0, 0x90, 0x90],
        0xB => [0xE0, 0x90, 0xE0, 0x90, 0xE0],
        0xC => [0xF0, 0x80, 0x80, 0x80, 0xF0],
        0xD => [0xE0, 0x90, 0x90, 0x90, 0xE0],
        0xE => [0xF0, 0x80, 0xF0, 0x80, 0xF0],
        _ => [0xF0, 0x80, 0xF0, 0x80, 0x80],
    };
    assert(bytes@ =~= glyph(digit as int));
    bytes
}

/// Writes the font to the first 80 bytes of `memory`.
pub fn write_font(memory: &mut [u8; 4096])
    ensures
        final(memory)@ == overlay(old(memory)@, 0, font_table()),
{
    let mut digit: u8 = 0;
    while digit < 16
        invariant
            digit <= 16,
            forall|a: int|
                0 <= a < 4096 ==> #[trigger] memory@[a] == if a < 5 * digit {
                    glyph(a / 5)[a % 5]
                } else {
                    old(memory)@[a]
                },
        decreases 16 - digit,
    {
        let bytes = glyph_bytes(digit);
        write_block(memory, 5 * digit as usize, bytes.as_slice());
        digit += 1;
    }
    assert(memory@ =~= overlay(old(memory)@, 0, font_table()));
}

} // verus!
