//! The atomic renderable unit: one terminal cell.

use crate::color::Color;
use crate::style::Attributes;
use vstd::prelude::*;

verus! {

/// How a cell's glyph is to be read. `Standard` means ordinary text; the
/// other three mean the glyph encodes a bitmask of sub-cell pixels (2, 8, or
/// 4 of them) through a fixed glyph-to-bitmask table, so that two cells of
/// the same sub-cell format can be merged by OR-ing their bitmasks.
#[derive(Clone, Copy, Debug, PartialEq, Eq, Structural)]
pub enum CellFormat {
    Standard,
    /// Two sub-pixels per cell, drawn with half-block glyphs.
    Twoxel,
    /// Eight sub-pixels per cell, drawn with braille glyphs.
    Octad,
    /// Four sub-pixels per cell, drawn with quadrant-block glyphs.
    Blocktad,
}

/// One character-sized terminal slot's full visual state. Two cells are equal
/// exactly when every field is equal; the diff engine uses this equality.
#[derive(Clone, Copy, Debug, PartialEq, Eq, Structural)]
pub struct Cell {
    pub ch: char,
    pub fg: Color,
    pub bg: Color,
    pub attributes: Attributes,
    pub format: CellFormat,
}

impl Cell {
    /// The default empty cell: a space, both colors absent, standard format.
    pub open spec fn spec_empty() -> Cell {
        Cell {
            ch: ' ',
            fg: Color { r: 0, g: 0, b: 0, a: 0 },
            bg: Color { r: 0, g: 0, b: 0, a: 0 },
            attributes: Attributes {
                no_fg_color: true,
                no_bg_color: true,
                ..Attributes::spec_empty()
            },
            format: CellFormat::Standard,
        }
    }

    /// The default empty cell: a space, both colors absent, standard format.
    pub fn empty() -> (c: Cell)
        ensures
            c == Cell::spec_empty(),
    {
        Cell {
            ch: ' ',
            fg: Color::clear(),
            bg: Color::clear(),
            attributes: (Attributes {
                no_fg_color: true,
                no_bg_color: true,
                ..Attributes::empty()
            }),
            format: CellFormat::Standard,
        }
    }

    /// Overlays `other`'s style on this cell: the glyph and all set attribute
    /// flags are taken over, and each color is replaced exactly when `other`
    /// specifies it (its presence flag then wins over the inherited one).
    /// The format tag is left as it was.
    pub fn merge(&mut self, other: Self)
        ensures
            final(self).ch == other.ch,
            final(self).format == old(self).format,
            final(self).attributes.bold == (old(self).attributes.bold || other.attributes.bold),
            final(self).attributes.italic == (old(self).attributes.italic
                || other.attributes.italic),
            final(self).attributes.underlined == (old(self).attributes.underlined
                || other.attributes.underlined),
            final(self).attributes.hidden == (old(self).attributes.hidden
                || other.attributes.hidden),
            final(self).attributes.no_fg_color == other.attributes.no_fg_color,
            final(self).attributes.no_bg_color == other.attributes.no_bg_color,
            final(self).fg == if other.attributes.no_fg_color {
                old(self).fg
            } else {
                other.fg
            },
            final(self).bg == if other.attributes.no_bg_color {
                old(self).bg
            } else {
                other.bg
            },
    {
        self.ch = other.ch;
        self.attributes = self.attributes.union(other.attributes);
        if !other.attributes.no_fg_color {
            self.attributes.no_fg_color = false;
            self.fg = other.fg;
        }
        if !other.attributes.no_bg_color {
            self.attributes.no_bg_color = false;
            self.bg = other.bg;
        }
    }
}

} // verus!
