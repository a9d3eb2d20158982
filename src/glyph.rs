//! The glyph table: a six-bit block index to the character that draws it.

use vstd::prelude::*;

verus! {

/// Offset between a block index and its place in the sextant range: the
/// sextant range leaves out the three patterns that already have a glyph.
pub open spec fn sextant_offset(n: nat) -> nat {
    if n <= 20 {
        1
    } else if n <= 41 {
        2
    } else {
        3
    }
}

/// The code point drawn for block index `n` (`n < 64`).
pub open spec fn glyph_code(n: nat) -> u32 {
    if n == 0 {
        0x20u32
    } else if n == 21 {
        0x258Cu32
    } else if n == 42 {
        0x2590u32
    } else if n == 63 {
        0x2588u32
    } else {
        (0x1FB00 + n - sextant_offset(n)) as u32
    }
}

/// The character drawn for block index `n` (`n < 64`).
pub open spec fn glyph(n: nat) -> char {
    glyph_code(n) as char
}

/// Relies on char::from_u32: `Some` of the character with that scalar value,
/// exactly when the value is a Unicode scalar value.
#[verifier::external_body]
fn char_from_scalar(u: u32) -> (r: Option<char>)
    ensures
        (u < 0xD800 || (0xE000 <= u && u <= 0x10FFFF)) ==> r == Some(u as char),
{
    char::from_u32(u)
}

/// The glyph for a block index: space when empty, the half and full blocks
/// for the three patterns that have them, a sextant otherwise.
pub fn get_char_for_pixels(block_pixels: u8) -> (r: char)
    requires
        block_pixels < 64,
    ensures
        r == glyph(block_pixels as nat),
{
    let code: u32 = if block_pixels == 0 {
        0x20
    } else if block_pixels == 21 {
        0x258C
    } else if block_pixels == 42 {
        0x2590
    } else if block_pixels == 63 {
        0x2588
    } else {
        let offset: u32 = if block_pixels <= 20 {
            1
        } else if block_pixels <= 41 {
            2
        } else {
            3
        };
        0x1FB00 + block_pixels as u32 - offset
    };
    match char_from_scalar(code) {
        Some(c) => c,
        None => ' ',
    }
}

/// A block index outside the table.
#[derive(Debug, Clone, Copy, PartialEq, Eq, Structural)]
pub struct InvalidGlyphIndex {
    pub index: u8,
}

/// The glyph for a block index, or the index back as an error when it is
/// not below 64.
pub fn glyph_for(index: u8) -> (r: Result<char, InvalidGlyphIndex>)
    ensures
        index < 64 ==> r == Ok::<char, InvalidGlyphIndex>(glyph(index as nat)),
        index >= 64 ==> r == Err::<char, InvalidGlyphIndex>(InvalidGlyphIndex { index }),
{
    if index < 64 {
        Ok(get_char_for_pixels(index))
    } else {
        Err(InvalidGlyphIndex { index })
    }
}

} // verus!
