//! Glyph-to-bitmask tables for the sub-cell pixel formats.
//!
//! Each sub-cell format packs a small bitmask of logical pixels into one
//! glyph through a fixed, injective table: two pixels (half blocks) for
//! `Twoxel`, four (quadrant blocks) for `Blocktad`, eight (braille) for
//! `Octad`. Two cells of the same format merge by OR-ing their bitmasks and
//! looking the merged mask up again. A mask outside the format's range, or a
//! glyph outside the table, has no entry: lookups report `None` instead of
//! failing.

use crate::cell::CellFormat;
use vstd::prelude::*;

verus! {

/// Whether the format packs sub-cell pixels into its glyphs.
pub open spec fn spec_is_subcell(format: CellFormat) -> bool {
    !(format is Standard)
}

/// Whether the format packs sub-cell pixels into its glyphs.
pub fn is_subcell(format: CellFormat) -> (b: bool)
    ensures
        b == spec_is_subcell(format),
{
    !matches!(format, CellFormat::Standard)
}

/// The glyph that displays `mask` in the given sub-cell format, or `None`
/// when the mask has more bits than the format holds (or the format is not a
/// sub-cell format).
pub open spec fn spec_mask_to_glyph(format: CellFormat, mask: u8) -> Option<char> {
    match format {
        CellFormat::Standard => None,
        CellFormat::Twoxel => if mask == 0 {
            Some(' ')
        } else if mask == 1 {
            Some('\u{2580}')  // upper half block
        } else if mask == 2 {
            Some('\u{2584}')  // lower half block
        } else if mask == 3 {
            Some('\u{2588}')  // full block
        } else {
            None
        },
        CellFormat::Octad => Some(((0x2800 + mask) as u32) as char),  // braille pattern
        CellFormat::Blocktad => spec_blocktad_glyph(mask),
    }
}

/// The quadrant-block glyph for a four-bit mask: bit 0 is the upper-left
/// quadrant, bit 1 the upper-right, bit 2 the lower-left, bit 3 the
/// lower-right.
pub open spec fn spec_blocktad_glyph(mask: u8) -> Option<char> {
    if mask == 0 {
        Some(' ')
    } else if mask == 1 {
        Some('\u{2598}')  // quadrant upper left
    } else if mask == 2 {
        Some('\u{259d}')  // quadrant upper right
    } else if mask == 3 {
        Some('\u{2580}')  // upper half block
    } else if mask == 4 {
        Some('\u{2596}')  // quadrant lower left
    } else if mask == 5 {
        Some('\u{258c}')  // left half block
    } else if mask == 6 {
        Some('\u{259e}')  // quadrant upper right and lower left
    } else if mask == 7 {
        Some('\u{259b}')  // all but lower right
    } else if mask == 8 {
        Some('\u{2597}')  // quadrant lower right
    } else if mask == 9 {
        Some('\u{259a}')  // quadrant upper left and lower right
    } else if mask == 10 {
        Some('\u{2590}')  // right half block
    } else if mask == 11 {
        Some('\u{259c}')  // all but lower left
    } else if mask == 12 {
        Some('\u{2584}')  // lower half block
    } else if mask == 13 {
        Some('\u{2599}')  // all but upper right
    } else if mask == 14 {
        Some('\u{259f}')  // all but upper left
    } else if mask == 15 {
        Some('\u{2588}')  // full block
    } else {
        None
    }
}

/// The bitmask a glyph stands for in the given sub-cell format, or `None`
/// when the glyph is not in the format's table.
pub open spec fn spec_glyph_to_mask(format: CellFormat, glyph: char) -> Option<u8> {
    match format {
        CellFormat::Standard => None,
        CellFormat::Twoxel => if glyph == ' ' {
            Some(0u8)
        } else if glyph == '\u{2580}' {
            Some(1u8)
        } else if glyph == '\u{2584}' {
            Some(2u8)
        } else if glyph == '\u{2588}' {
            Some(3u8)
        } else {
            None
        },
        CellFormat::Octad => if 0x2800 <= glyph as u32 <= 0x28ff {
            Some((glyph as u32 - 0x2800) as u8)
        } else {
            None
        },
        CellFormat::Blocktad => spec_blocktad_mask(glyph),
    }
}

/// The four-bit mask of a quadrant-block glyph.
pub open spec fn spec_blocktad_mask(glyph: char) -> Option<u8> {
    if glyph == ' ' {
        Some(0u8)
    } else if glyph == '\u{2598}' {
        Some(1u8)
    } else if glyph == '\u{259d}' {
        Some(2u8)
    } else if glyph == '\u{2580}' {
        Some(3u8)
    } else if glyph == '\u{2596}' {
        Some(4u8)
    } else if glyph == '\u{258c}' {
        Some(5u8)
    } else if glyph == '\u{259e}' {
        Some(6u8)
    } else if glyph == '\u{259b}' {
        Some(7u8)
    } else if glyph == '\u{2597}' {
        Some(8u8)
    } else if glyph == '\u{259a}' {
        Some(9u8)
    } else if glyph == '\u{2590}' {
        Some(10u8)
    } else if glyph == '\u{259c}' {
        Some(11u8)
    } else if glyph == '\u{2584}' {
        Some(12u8)
    } else if glyph == '\u{2599}' {
        Some(13u8)
    } else if glyph == '\u{259f}' {
        Some(14u8)
    } else if glyph == '\u{2588}' {
        Some(15u8)
    } else {
        None
    }
}

/// Relies on `char::from_u32`: by its documentation it returns `None` only
/// for surrogate code points (0xD800..=0xDFFF) and values above 0x10FFFF, so
/// for every code below 0xD800 it returns `Some` of exactly that code point.
#[verifier::external_body]
fn char_from_code(code: u32) -> (c: char)
    requires
        code < 0xd800,
    ensures
        c as u32 == code,
{
    match char::from_u32(code) {
        Some(c) => c,
        None => ' ',
    }
}

/// Looks up the glyph that displays `mask` in the given sub-cell format.
pub fn mask_to_glyph(format: CellFormat, mask: u8) -> (glyph: Option<char>)
    ensures
        glyph == spec_mask_to_glyph(format, mask),
{
    match format {
        CellFormat::Standard => None,
        CellFormat::Twoxel => match mask {
            0 => Some(' '),
            1 => Some('\u{2580}'),
            2 => Some('\u{2584}'),
            3 => Some('\u{2588}'),
            _ => None,
        },
        CellFormat::Octad => {
            let c = char_from_code(0x2800 + mask as u32);
            proof {
                vstd::utf8::char_u32_cast(c, (0x2800 + mask as u32) as u32);
            }
            Some(c)
        },
        CellFormat::Blocktad => match mask {
            0 => Some(' '),
            1 => Some('\u{2598}'),
            2 => Some('\u{259d}'),
            3 => Some('\u{2580}'),
            4 => Some('\u{2596}'),
            5 => Some('\u{258c}'),
            6 => Some('\u{259e}'),
            7 => Some('\u{259b}'),
            8 => Some('\u{2597}'),
            9 => Some('\u{259a}'),
            10 => Some('\u{2590}'),
            11 => Some('\u{259c}'),
            12 => Some('\u{2584}'),
            13 => Some('\u{2599}'),
            14 => Some('\u{259f}'),
            15 => Some('\u{2588}'),
            _ => None,
        },
    }
}

/// Looks up the bitmask a glyph stands for in the given sub-cell format.
pub fn glyph_to_mask(format: CellFormat, glyph: char) -> (mask: Option<u8>)
    ensures
        mask == spec_glyph_to_mask(format, glyph),
{
    match format {
        CellFormat::Standard => None,
        CellFormat::Twoxel => match glyph {
            ' ' => Some(0),
            '\u{2580}' => Some(1),
            '\u{2584}' => Some(2),
            '\u{2588}' => Some(3),
            _ => None,
        },
        CellFormat::Octad => {
            let code = glyph as u32;
            if 0x2800 <= code && code <= 0x28ff {
                Some((code - 0x2800) as u8)
            } else {
                None
            }
        },
        CellFormat::Blocktad => match glyph {
            ' ' => Some(0),
            '\u{2598}' => Some(1),
            '\u{259d}' => Some(2),
            '\u{2580}' => Some(3),
            '\u{2596}' => Some(4),
            '\u{258c}' => Some(5),
            '\u{259e}' => Some(6),
            '\u{259b}' => Some(7),
            '\u{2597}' => Some(8),
            '\u{259a}' => Some(9),
            '\u{2590}' => Some(10),
            '\u{259c}' => Some(11),
            '\u{2584}' => Some(12),
            '\u{2599}' => Some(13),
            '\u{259f}' => Some(14),
            '\u{2588}' => Some(15),
            _ => None,
        },
    }
}

/// Every glyph in a format's table maps back to the mask it was looked up
/// with: the tables are injective.
pub proof fn lemma_mask_glyph_roundtrip(format: CellFormat, mask: u8)
    requires
        spec_mask_to_glyph(format, mask) is Some,
    ensures
        spec_glyph_to_mask(format, spec_mask_to_glyph(format, mask)->Some_0) == Some(mask),
{
    match format {
        CellFormat::Standard => {},
        CellFormat::Twoxel => {},
        CellFormat::Octad => {
            let c = ((0x2800 + mask) as u32) as char;
            vstd::utf8::char_u32_cast(c, (0x2800 + mask) as u32);
        },
        CellFormat::Blocktad => {},
    }
}

/// Every mask read out of a glyph displays as that same glyph again.
pub proof fn lemma_glyph_mask_roundtrip(format: CellFormat, glyph: char)
    requires
        spec_glyph_to_mask(format, glyph) is Some,
    ensures
        spec_mask_to_glyph(format, spec_glyph_to_mask(format, glyph)->Some_0) == Some(glyph),
{
    match format {
        CellFormat::Standard => {},
        CellFormat::Twoxel => {},
        CellFormat::Octad => {
            vstd::utf8::char_u32_cast(glyph, glyph as u32);
        },
        CellFormat::Blocktad => {},
    }
}

/// The OR of two masks that both have glyphs has a glyph as well: merging
/// never leaves the table.
pub proof fn lemma_mask_or_valid(format: CellFormat, a: u8, b: u8)
    requires
        spec_mask_to_glyph(format, a) is Some,
        spec_mask_to_glyph(format, b) is Some,
    ensures
        spec_mask_to_glyph(format, a | b) is Some,
{
    match format {
        CellFormat::Standard => {},
        CellFormat::Twoxel => {
            assert(a < 4 && b < 4 ==> (a | b) < 4) by (bit_vector);
        },
        CellFormat::Octad => {},
        CellFormat::Blocktad => {
            assert(a < 16 && b < 16 ==> (a | b) < 16) by (bit_vector);
            assert(spec_blocktad_glyph(a | b) is Some);
        },
    }
}

} // verus!
