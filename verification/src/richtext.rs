//! Styled text: the payload of a draw call.

use crate::cell::CellFormat;
use crate::color::Color;
use crate::style::{Attributes, Style};
use vstd::prelude::*;

verus! {

/// A run of text together with the style and cell format it is to be drawn
/// with. Built once per draw call and consumed by the compositor.
#[derive(Clone, Debug)]
pub struct RichText {
    pub text: String,
    pub style: Style,
    pub cell_format: CellFormat,
}

impl RichText {
    /// Text with the empty style: both colors absent, no attributes,
    /// standard format.
    pub fn new(text: &str) -> (t: RichText)
        ensures
            t.text@ == text@,
            t.style == Style::spec_empty(),
            t.cell_format == CellFormat::Standard,
    {
        RichText { text: String::from_str(text), style: Style::empty(), cell_format: CellFormat::Standard }
    }

    /// The same text with the foreground set or cleared.
    pub fn with_fg(self, color: Option<Color>) -> (t: RichText)
        ensures
            t.text@ == self.text@,
            t.cell_format == self.cell_format,
            t.style.spec_fg() == color,
            t.style.bg == self.style.bg,
            t.style.attributes == self.style.attributes.spec_with_presence(
                color is Some,
                !self.style.attributes.no_bg_color,
            ),
    {
        let mut t = self;
        t.style.set_fg(color);
        t
    }

    /// The same text with the background set or cleared.
    pub fn with_bg(self, color: Option<Color>) -> (t: RichText)
        ensures
            t.text@ == self.text@,
            t.cell_format == self.cell_format,
            t.style.spec_bg() == color,
            t.style.fg == self.style.fg,
            t.style.attributes == self.style.attributes.spec_with_presence(
                !self.style.attributes.no_fg_color,
                color is Some,
            ),
    {
        let mut t = self;
        t.style.set_bg(color);
        t
    }

    /// The same text with the given cell format.
    pub fn with_cell_format(self, format: CellFormat) -> (t: RichText)
        ensures
            t == (RichText { cell_format: format, ..self }),
    {
        RichText { cell_format: format, ..self }
    }

    /// The same text with the given visual attributes added. Only the four
    /// visual flags are taken over; the presence flags stay as they are.
    pub fn with_attributes(self, attrs: Attributes) -> (t: RichText)
        ensures
            t.text@ == self.text@,
            t.cell_format == self.cell_format,
            t.style.fg == self.style.fg,
            t.style.bg == self.style.bg,
            t.style.attributes == (Attributes {
                bold: self.style.attributes.bold || attrs.bold,
                italic: self.style.attributes.italic || attrs.italic,
                underlined: self.style.attributes.underlined || attrs.underlined,
                hidden: self.style.attributes.hidden || attrs.hidden,
                ..self.style.attributes
            }),
    {
        let mut t = self;
        t.style.attributes.bold = t.style.attributes.bold || attrs.bold;
        t.style.attributes.italic = t.style.attributes.italic || attrs.italic;
        t.style.attributes.underlined = t.style.attributes.underlined || attrs.underlined;
        t.style.attributes.hidden = t.style.attributes.hidden || attrs.hidden;
        t
    }
}

} // verus!
