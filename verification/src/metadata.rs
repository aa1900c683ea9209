//! A compact one-byte encoding of a cell's format tag and color presence.
//!
//! The low nibble holds the exclusive [`CellFormat`] tag; two of the high
//! bits hold the "no foreground" / "no background" presence flags. This is
//! the raw sentinel form of what [`crate::style::Attributes`] and
//! [`CellFormat`] carry as plain fields.

use crate::cell::CellFormat;
use vstd::prelude::*;

verus! {

/// The packed byte. Well-formed values keep the format nibble below 4.
#[derive(Clone, Copy, Debug, PartialEq, Eq, Structural)]
pub struct Metadata(pub u8);

impl Metadata {
    /// The bits of the format nibble.
    pub const EXCLUSIVE_FORMAT_MASK: u8 = 0x0f;

    /// The "no foreground color" flag bit.
    pub const NO_FG_COLOR_MASK: u8 = 0x10;

    /// The "no background color" flag bit.
    pub const NO_BG_COLOR_MASK: u8 = 0x20;

    /// The numeric code of a format tag, as stored in the low nibble.
    pub open spec fn spec_format_code(format: CellFormat) -> u8 {
        match format {
            CellFormat::Standard => 0u8,
            CellFormat::Twoxel => 1u8,
            CellFormat::Octad => 2u8,
            CellFormat::Blocktad => 3u8,
        }
    }

    /// Well-formed: the format nibble encodes one of the four format tags.
    pub open spec fn wf(self) -> bool {
        self.0 & 0x0f < 4
    }

    /// The format tag encoded in the low nibble.
    pub open spec fn spec_cell_format(self) -> CellFormat {
        let code = self.0 & 0x0f;
        if code == 0 {
            CellFormat::Standard
        } else if code == 1 {
            CellFormat::Twoxel
        } else if code == 2 {
            CellFormat::Octad
        } else {
            CellFormat::Blocktad
        }
    }

    /// Whether the "no foreground color" flag is set.
    pub open spec fn spec_no_fg_color(self) -> bool {
        self.0 & 0x10 != 0
    }

    /// Whether the "no background color" flag is set.
    pub open spec fn spec_no_bg_color(self) -> bool {
        self.0 & 0x20 != 0
    }

    /// Reads the format tag back out of the low nibble.
    pub fn cell_format(self) -> (format: CellFormat)
        requires
            self.wf(),
        ensures
            format == self.spec_cell_format(),
    {
        let code: u8 = self.0 & Self::EXCLUSIVE_FORMAT_MASK;
        if code == 0 {
            CellFormat::Standard
        } else if code == 1 {
            CellFormat::Twoxel
        } else if code == 2 {
            CellFormat::Octad
        } else {
            CellFormat::Blocktad
        }
    }

    /// All bits clear: standard format, both colors present.
    pub fn empty() -> (m: Metadata)
        ensures
            m == Metadata(0u8),
            m.wf(),
    {
        proof {
            assert(0u8 & 0x0f < 4) by (bit_vector);
        }
        Metadata(0)
    }

    /// The same metadata with the format nibble replaced by `format`.
    pub fn with_cell_format(self, format: CellFormat) -> (m: Metadata)
        ensures
            m.0 == (self.0 & !0x0fu8) | Self::spec_format_code(format),
            m.wf(),
            m.spec_cell_format() == format,
            m.spec_no_fg_color() == self.spec_no_fg_color(),
            m.spec_no_bg_color() == self.spec_no_bg_color(),
    {
        let code: u8 = match format {
            CellFormat::Standard => 0,
            CellFormat::Twoxel => 1,
            CellFormat::Octad => 2,
            CellFormat::Blocktad => 3,
        };
        let m = Metadata((self.0 & !Self::EXCLUSIVE_FORMAT_MASK) | code);
        proof {
            let x = self.0;
            let r = m.0;
            assert(((x & !0x0fu8) | code) & 0x0f == code && ((x & !0x0fu8) | code) & 0x10 == x
                & 0x10 && ((x & !0x0fu8) | code) & 0x20 == x & 0x20) by (bit_vector)
                requires
                    code < 4,
            ;
        }
        m
    }

    /// The same metadata with the "no foreground color" flag set or cleared.
    pub fn with_no_fg_color(self, enabled: bool) -> (m: Metadata)
        ensures
            m.spec_no_fg_color() == enabled,
            m.spec_no_bg_color() == self.spec_no_bg_color(),
            m.spec_cell_format() == self.spec_cell_format(),
            m.wf() == self.wf(),
    {
        let m = if enabled {
            Metadata(self.0 | Self::NO_FG_COLOR_MASK)
        } else {
            Metadata(self.0 & !Self::NO_FG_COLOR_MASK)
        };
        proof {
            let x = self.0;
            assert((x | 0x10) & 0x10 != 0 && (x & !0x10u8) & 0x10 == 0 && (x | 0x10) & 0x20 == x
                & 0x20 && (x & !0x10u8) & 0x20 == x & 0x20 && (x | 0x10) & 0x0f == x & 0x0f && (x
                & !0x10u8) & 0x0f == x & 0x0f) by (bit_vector);
        }
        m
    }

    /// The same metadata with the "no background color" flag set or cleared.
    pub fn with_no_bg_color(self, enabled: bool) -> (m: Metadata)
        ensures
            m.spec_no_bg_color() == enabled,
            m.spec_no_fg_color() == self.spec_no_fg_color(),
            m.spec_cell_format() == self.spec_cell_format(),
            m.wf() == self.wf(),
    {
        let m = if enabled {
            Metadata(self.0 | Self::NO_BG_COLOR_MASK)
        } else {
            Metadata(self.0 & !Self::NO_BG_COLOR_MASK)
        };
        proof {
            let x = self.0;
            assert((x | 0x20) & 0x20 != 0 && (x & !0x20u8) & 0x20 == 0 && (x | 0x20) & 0x10 == x
                & 0x10 && (x & !0x20u8) & 0x10 == x & 0x10 && (x | 0x20) & 0x0f == x & 0x0f && (x
                & !0x20u8) & 0x0f == x & 0x0f) by (bit_vector);
        }
        m
    }

    /// Whether the "no foreground color" flag is set.
    pub fn no_fg_color(&self) -> (b: bool)
        ensures
            b == self.spec_no_fg_color(),
    {
        (self.0 & Self::NO_FG_COLOR_MASK) != 0
    }

    /// Whether the "no background color" flag is set.
    pub fn no_bg_color(&self) -> (b: bool)
        ensures
            b == self.spec_no_bg_color(),
    {
        (self.0 & Self::NO_BG_COLOR_MASK) != 0
    }
}

} // verus!
