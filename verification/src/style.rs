//! Text attributes and the per-draw style.
//!
//! [`Attributes`] is a set of independent boolean flags: four visual text
//! attributes plus the two presence flags that record whether a foreground or
//! background color was specified at all. [`Style`] bundles the two colors
//! with the attributes; an absent color keeps its last stored value, but the
//! presence flag is what every consumer consults.

use crate::color::Color;
use vstd::prelude::*;

verus! {

/// Attributes that can be applied to drawn text, plus the two color presence
/// flags. All flags are independent and combinable.
#[derive(Clone, Copy, Debug, PartialEq, Eq, Structural)]
pub struct Attributes {
    pub bold: bool,
    pub italic: bool,
    pub underlined: bool,
    pub hidden: bool,
    /// No foreground color was specified; the foreground inherits from below.
    pub no_fg_color: bool,
    /// No background color was specified; the background inherits from below.
    pub no_bg_color: bool,
}

impl Attributes {
    /// No flag set.
    pub fn empty() -> (a: Attributes)
        ensures
            a == Attributes::spec_empty(),
    {
        Attributes {
            bold: false,
            italic: false,
            underlined: false,
            hidden: false,
            no_fg_color: false,
            no_bg_color: false,
        }
    }

    /// No flag set.
    pub open spec fn spec_empty() -> Attributes {
        Attributes {
            bold: false,
            italic: false,
            underlined: false,
            hidden: false,
            no_fg_color: false,
            no_bg_color: false,
        }
    }

    /// The flag-wise union of two attribute sets.
    pub open spec fn spec_union(self, other: Attributes) -> Attributes {
        Attributes {
            bold: self.bold || other.bold,
            italic: self.italic || other.italic,
            underlined: self.underlined || other.underlined,
            hidden: self.hidden || other.hidden,
            no_fg_color: self.no_fg_color || other.no_fg_color,
            no_bg_color: self.no_bg_color || other.no_bg_color,
        }
    }

    /// The flag-wise union of two attribute sets.
    pub fn union(self, other: Attributes) -> (a: Attributes)
        ensures
            a == self.spec_union(other),
    {
        Attributes {
            bold: self.bold || other.bold,
            italic: self.italic || other.italic,
            underlined: self.underlined || other.underlined,
            hidden: self.hidden || other.hidden,
            no_fg_color: self.no_fg_color || other.no_fg_color,
            no_bg_color: self.no_bg_color || other.no_bg_color,
        }
    }

    /// The same attributes with both presence flags replaced. `fg_present`
    /// and `bg_present` say whether the respective color *is* specified.
    pub open spec fn spec_with_presence(self, fg_present: bool, bg_present: bool) -> Attributes {
        Attributes { no_fg_color: !fg_present, no_bg_color: !bg_present, ..self }
    }

    /// The same attributes with both presence flags replaced.
    pub fn with_presence(self, fg_present: bool, bg_present: bool) -> (a: Attributes)
        ensures
            a == self.spec_with_presence(fg_present, bg_present),
    {
        Attributes { no_fg_color: !fg_present, no_bg_color: !bg_present, ..self }
    }
}

/// A foreground color, a background color, and attributes, as attached to a
/// draw call. The presence flags in `attributes` decide whether `fg` and `bg`
/// count as specified.
#[derive(Clone, Copy, Debug, PartialEq, Eq, Structural)]
pub struct Style {
    pub fg: Color,
    pub bg: Color,
    pub attributes: Attributes,
}

impl Style {
    /// The empty style: both colors absent, no attribute set.
    pub open spec fn spec_empty() -> Style {
        Style {
            fg: Color { r: 0, g: 0, b: 0, a: 0 },
            bg: Color { r: 0, g: 0, b: 0, a: 0 },
            attributes: Attributes { no_fg_color: true, no_bg_color: true, ..Attributes::spec_empty() },
        }
    }

    /// The empty style: both colors absent, no attribute set.
    pub fn empty() -> (s: Style)
        ensures
            s == Style::spec_empty(),
    {
        Style {
            fg: Color::clear(),
            bg: Color::clear(),
            attributes: (Attributes { no_fg_color: true, no_bg_color: true, ..Attributes::empty() }),
        }
    }

    /// A style from an optional foreground, an optional background, and
    /// attributes; the presence flags follow the two options.
    pub fn new(fg: Option<Color>, bg: Option<Color>, attr: Attributes) -> (s: Style)
        ensures
            s.attributes.bold == attr.bold,
            s.attributes.italic == attr.italic,
            s.attributes.underlined == attr.underlined,
            s.attributes.hidden == attr.hidden,
            s.spec_fg() == fg,
            s.spec_bg() == bg,
    {
        let mut s = Style::empty();
        s.attributes = attr;
        s.set_fg(fg);
        s.set_bg(bg);
        s
    }

    /// The foreground as an option: `None` when no foreground is specified.
    pub open spec fn spec_fg(self) -> Option<Color> {
        if self.attributes.no_fg_color {
            None
        } else {
            Some(self.fg)
        }
    }

    /// The background as an option: `None` when no background is specified.
    pub open spec fn spec_bg(self) -> Option<Color> {
        if self.attributes.no_bg_color {
            None
        } else {
            Some(self.bg)
        }
    }

    /// Sets or clears the foreground; `None` marks it as not specified.
    pub fn set_fg(&mut self, color: Option<Color>)
        ensures
            final(self).spec_fg() == color,
            final(self).bg == old(self).bg,
            final(self).attributes == old(self).attributes.spec_with_presence(
                color is Some,
                !old(self).attributes.no_bg_color,
            ),
    {
        match color {
            Some(c) => {
                self.fg = c;
                self.attributes.no_fg_color = false;
            },
            None => {
                self.attributes.no_fg_color = true;
            },
        }
    }

    /// The foreground, or `None` when it is not specified.
    pub fn fg(&self) -> (c: Option<Color>)
        ensures
            c == self.spec_fg(),
    {
        if self.has_fg() {
            Some(self.fg)
        } else {
            None
        }
    }

    /// Whether a foreground color is specified.
    pub fn has_fg(&self) -> (b: bool)
        ensures
            b == !self.attributes.no_fg_color,
    {
        !self.attributes.no_fg_color
    }

    /// Sets or clears the background; `None` marks it as not specified.
    pub fn set_bg(&mut self, color: Option<Color>)
        ensures
            final(self).spec_bg() == color,
            final(self).fg == old(self).fg,
            final(self).attributes == old(self).attributes.spec_with_presence(
                !old(self).attributes.no_fg_color,
                color is Some,
            ),
    {
        match color {
            Some(c) => {
                self.bg = c;
                self.attributes.no_bg_color = false;
            },
            None => {
                self.attributes.no_bg_color = true;
            },
        }
    }

    /// The background, or `None` when it is not specified.
    pub fn bg(&self) -> (c: Option<Color>)
        ensures
            c == self.spec_bg(),
    {
        if self.has_bg() {
            Some(self.bg)
        } else {
            None
        }
    }

    /// Whether a background color is specified.
    pub fn has_bg(&self) -> (b: bool)
        ensures
            b == !self.attributes.no_bg_color,
    {
        !self.attributes.no_bg_color
    }
}

} // verus!
