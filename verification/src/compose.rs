//! Per-cell compositing: how a newly drawn cell combines with the cell
//! already in the frame buffer.
//!
//! The rules branch first on the format tags. Two cells of the same sub-cell
//! format merge their pixel bitmasks; a format mismatch means the new cell
//! replaces the old one outright; two standard cells go through alpha-over
//! text compositing, which is careful to keep "no color specified" (a
//! presence flag) apart from "specified as fully transparent" (alpha 0).
//! When translucent ink has nothing beneath it to sample, the configured
//! default blending color stands in for the terminal's real background.

use crate::cell::{Cell, CellFormat};
use crate::color::{spec_blend_source_over, blend_source_over, Color};
use crate::subcell::{
    glyph_to_mask, is_subcell, lemma_glyph_mask_roundtrip, lemma_mask_glyph_roundtrip,
    lemma_mask_or_valid, mask_to_glyph, spec_glyph_to_mask, spec_is_subcell, spec_mask_to_glyph,
};
use vstd::prelude::*;

verus! {

/// Whether the cell specifies a foreground color.
pub open spec fn fg_present(c: Cell) -> bool {
    !c.attributes.no_fg_color
}

/// Whether the cell specifies a background color.
pub open spec fn bg_present(c: Cell) -> bool {
    !c.attributes.no_bg_color
}

/// Whether the cell specifies a fully opaque background.
pub open spec fn bg_opaque(c: Cell) -> bool {
    bg_present(c) && c.bg.a == 255
}

/// Whether the cell's glyph puts no ink on screen: a space, or a foreground
/// that is specified but fully transparent. A glyph with *absent* foreground
/// is visible: the terminal shows it in its default color.
pub open spec fn glyph_invisible(c: Cell) -> bool {
    c.ch == ' ' || (fg_present(c) && c.fg.a == 0)
}

/// The color beneath an invisible new glyph that its background tints:
/// the old foreground if specified, else the old background if specified,
/// else the default blending color.
pub open spec fn spec_tint_floor(old: Cell, dbc: Color) -> Color {
    if fg_present(old) {
        old.fg
    } else if bg_present(old) {
        old.bg
    } else {
        dbc
    }
}

/// The color a translucent new glyph's ink blends on top of: the old
/// foreground when the old glyph is visible and specified; otherwise the old
/// background (or the default blending color when none is specified), itself
/// blended under the new background when one with any opacity is specified.
pub open spec fn spec_ink_floor(old: Cell, new: Cell, dbc: Color) -> Color {
    if !glyph_invisible(old) && fg_present(old) {
        old.fg
    } else {
        let base = if bg_present(old) {
            old.bg
        } else {
            dbc
        };
        if bg_present(new) && new.bg.a != 0 {
            spec_blend_source_over(base, new.bg)
        } else {
            base
        }
    }
}

/// The resulting background: presence and value. An unspecified or fully
/// transparent new background inherits the old one (including its absence);
/// otherwise the new background is blended source-over onto the old one,
/// with the default blending color standing in for an absent old background.
pub open spec fn spec_composed_bg(old: Cell, new: Cell, dbc: Color) -> (bool, Color) {
    if !bg_present(new) || new.bg.a == 0 {
        (bg_present(old), old.bg)
    } else {
        let under = if bg_present(old) {
            old.bg
        } else {
            dbc
        };
        (true, spec_blend_source_over(under, new.bg))
    }
}

/// The resulting foreground when the drawn glyph is invisible (the old glyph
/// stays): left absent under a fully opaque new background; kept as the old
/// foreground when there is no new background ink; otherwise the old ink is
/// tinted by blending the new background over the tint floor.
pub open spec fn spec_tinted_fg(old: Cell, new: Cell, dbc: Color) -> (bool, Color) {
    if bg_opaque(new) {
        (false, old.fg)
    } else if !bg_present(new) || new.bg.a == 0 {
        (fg_present(old), old.fg)
    } else {
        (true, spec_blend_source_over(spec_tint_floor(old, dbc), new.bg))
    }
}

/// The resulting foreground when the drawn glyph itself shows: absent when
/// the new cell specifies none, the new foreground unchanged when fully
/// opaque, and otherwise the new foreground blended source-over onto the ink
/// floor.
pub open spec fn spec_ink_fg(old: Cell, new: Cell, dbc: Color) -> (bool, Color) {
    if !fg_present(new) {
        (false, new.fg)
    } else if new.fg.a == 255 {
        (true, new.fg)
    } else {
        (true, spec_blend_source_over(spec_ink_floor(old, new, dbc), new.fg))
    }
}

/// Alpha-over compositing of two standard cells.
pub open spec fn spec_standard_compose(old: Cell, new: Cell, dbc: Color) -> Cell {
    if !fg_present(new) && bg_opaque(new) {
        // A fully opaque background with no foreground occludes everything.
        Cell {
            ch: new.ch,
            fg: new.fg,
            bg: new.bg,
            attributes: new.attributes.spec_with_presence(false, true),
            format: CellFormat::Standard,
        }
    } else if glyph_invisible(new) {
        // An invisible glyph cannot erase the one beneath; the old glyph and
        // attributes stay, tinted by the new background.
        let bg = spec_composed_bg(old, new, dbc);
        let fg = spec_tinted_fg(old, new, dbc);
        Cell {
            ch: old.ch,
            fg: fg.1,
            bg: bg.1,
            attributes: old.attributes.spec_with_presence(fg.0, bg.0),
            format: CellFormat::Standard,
        }
    } else {
        let bg = spec_composed_bg(old, new, dbc);
        let fg = spec_ink_fg(old, new, dbc);
        Cell {
            ch: new.ch,
            fg: fg.1,
            bg: bg.1,
            attributes: new.attributes.spec_with_presence(fg.0, bg.0),
            format: CellFormat::Standard,
        }
    }
}

/// The new cell replaces the old one outright (formats differ, or a sub-cell
/// glyph was not in its table); only the colors still blend, so a translucent
/// replacing glyph shows what was beneath through its ink.
pub open spec fn spec_replace_compose(old: Cell, new: Cell, dbc: Color) -> Cell {
    let bg = spec_composed_bg(old, new, dbc);
    let fg = spec_ink_fg(old, new, dbc);
    Cell {
        ch: new.ch,
        fg: fg.1,
        bg: bg.1,
        attributes: new.attributes.spec_with_presence(fg.0, bg.0),
        format: new.format,
    }
}

/// Two cells of the same sub-cell format merge: the pixel bitmasks are OR-ed
/// and the merged mask's glyph looked up; attributes and format come from the
/// new cell, and the colors blend as for visible ink.
pub open spec fn spec_subcell_compose(old: Cell, new: Cell, dbc: Color) -> Cell {
    let mask_old = spec_glyph_to_mask(new.format, old.ch)->Some_0;
    let mask_new = spec_glyph_to_mask(new.format, new.ch)->Some_0;
    let bg = spec_composed_bg(old, new, dbc);
    let fg = spec_ink_fg(old, new, dbc);
    Cell {
        ch: spec_mask_to_glyph(new.format, mask_old | mask_new)->Some_0,
        fg: fg.1,
        bg: bg.1,
        attributes: new.attributes.spec_with_presence(fg.0, bg.0),
        format: new.format,
    }
}

/// The full per-cell merge rule, branching on the format tags first.
#[verifier::opaque]
pub open spec fn spec_compose_cell(old: Cell, new: Cell, dbc: Color) -> Cell {
    if old.format == new.format && spec_is_subcell(new.format) && spec_glyph_to_mask(
        new.format,
        old.ch,
    ) is Some && spec_glyph_to_mask(new.format, new.ch) is Some {
        spec_subcell_compose(old, new, dbc)
    } else if old.format is Standard && new.format is Standard {
        spec_standard_compose(old, new, dbc)
    } else {
        spec_replace_compose(old, new, dbc)
    }
}

fn composed_bg(old: &Cell, new: &Cell, dbc: Color) -> (r: (bool, Color))
    ensures
        r == spec_composed_bg(*old, *new, dbc),
{
    if new.attributes.no_bg_color || new.bg.a == 0 {
        (!old.attributes.no_bg_color, old.bg)
    } else {
        let under = if !old.attributes.no_bg_color {
            old.bg
        } else {
            dbc
        };
        (true, blend_source_over(under, new.bg))
    }
}

fn tinted_fg(old: &Cell, new: &Cell, dbc: Color) -> (r: (bool, Color))
    ensures
        r == spec_tinted_fg(*old, *new, dbc),
{
    if !new.attributes.no_bg_color && new.bg.a == 255 {
        (false, old.fg)
    } else if new.attributes.no_bg_color || new.bg.a == 0 {
        (!old.attributes.no_fg_color, old.fg)
    } else {
        let floor = if !old.attributes.no_fg_color {
            old.fg
        } else if !old.attributes.no_bg_color {
            old.bg
        } else {
            dbc
        };
        (true, blend_source_over(floor, new.bg))
    }
}

fn ink_fg(old: &Cell, new: &Cell, dbc: Color) -> (r: (bool, Color))
    ensures
        r == spec_ink_fg(*old, *new, dbc),
{
    if new.attributes.no_fg_color {
        (false, new.fg)
    } else if new.fg.a == 255 {
        (true, new.fg)
    } else {
        let old_glyph_invisible = old.ch == ' ' || (!old.attributes.no_fg_color && old.fg.a == 0);
        let floor = if !old_glyph_invisible && !old.attributes.no_fg_color {
            old.fg
        } else {
            let base = if !old.attributes.no_bg_color {
                old.bg
            } else {
                dbc
            };
            if !new.attributes.no_bg_color && new.bg.a != 0 {
                blend_source_over(base, new.bg)
            } else {
                base
            }
        };
        (true, blend_source_over(floor, new.fg))
    }
}

/// Merges a newly drawn cell into the cell already at its coordinate and
/// returns the stored result, following the per-cell merge rule exactly.
pub fn compose_cell(old: Cell, new: Cell, default_blending_color: Color) -> (merged: Cell)
    ensures
        merged == spec_compose_cell(old, new, default_blending_color),
{
    proof {
        reveal(spec_compose_cell);
    }
    let dbc = default_blending_color;
    let subcell = is_subcell(new.format);
    if subcell && old.format == new.format {
        let mask_old = glyph_to_mask(new.format, old.ch);
        let mask_new = glyph_to_mask(new.format, new.ch);
        match (mask_old, mask_new) {
            (Some(mo), Some(mn)) => {
                proof {
                    lemma_glyph_mask_roundtrip(new.format, old.ch);
                    lemma_glyph_mask_roundtrip(new.format, new.ch);
                    lemma_mask_or_valid(new.format, mo, mn);
                }
                let bg = composed_bg(&old, &new, dbc);
                let fg = ink_fg(&old, &new, dbc);
                let merged_glyph = mask_to_glyph(new.format, mo | mn).unwrap();
                Cell {
                    ch: merged_glyph,
                    fg: fg.1,
                    bg: bg.1,
                    attributes: new.attributes.with_presence(fg.0, bg.0),
                    format: new.format,
                }
            },
            _ => {
                let bg = composed_bg(&old, &new, dbc);
                let fg = ink_fg(&old, &new, dbc);
                Cell {
                    ch: new.ch,
                    fg: fg.1,
                    bg: bg.1,
                    attributes: new.attributes.with_presence(fg.0, bg.0),
                    format: new.format,
                }
            },
        }
    } else if !subcell && matches!(old.format, CellFormat::Standard) {
        if new.attributes.no_fg_color && !new.attributes.no_bg_color && new.bg.a == 255 {
            Cell {
                ch: new.ch,
                fg: new.fg,
                bg: new.bg,
                attributes: new.attributes.with_presence(false, true),
                format: CellFormat::Standard,
            }
        } else if new.ch == ' ' || (!new.attributes.no_fg_color && new.fg.a == 0) {
            let bg = composed_bg(&old, &new, dbc);
            let fg = tinted_fg(&old, &new, dbc);
            Cell {
                ch: old.ch,
                fg: fg.1,
                bg: bg.1,
                attributes: old.attributes.with_presence(fg.0, bg.0),
                format: CellFormat::Standard,
            }
        } else {
            let bg = composed_bg(&old, &new, dbc);
            let fg = ink_fg(&old, &new, dbc);
            Cell {
                ch: new.ch,
                fg: fg.1,
                bg: bg.1,
                attributes: new.attributes.with_presence(fg.0, bg.0),
                format: CellFormat::Standard,
            }
        }
    } else {
        let bg = composed_bg(&old, &new, dbc);
        let fg = ink_fg(&old, &new, dbc);
        Cell {
            ch: new.ch,
            fg: fg.1,
            bg: bg.1,
            attributes: new.attributes.with_presence(fg.0, bg.0),
            format: new.format,
        }
    }
}

/// A standard cell with no foreground and a fully opaque background fully
/// overwrites any old cell: the result depends on the new cell alone.
pub proof fn lemma_opaque_overwrite(old: Cell, new: Cell, dbc: Color)
    requires
        new.format is Standard,
        !fg_present(new),
        bg_present(new),
        new.bg.a == 255,
    ensures
        spec_compose_cell(old, new, dbc) == (Cell {
            ch: new.ch,
            fg: new.fg,
            bg: new.bg,
            attributes: new.attributes.spec_with_presence(false, true),
            format: CellFormat::Standard,
        }),
{
    reveal(spec_compose_cell);
    if !(old.format is Standard) {
        let under = if bg_present(old) {
            old.bg
        } else {
            dbc
        };
        crate::color::lemma_blend_opaque_over(under, new.bg);
    }
}

/// Compositing a standard space glyph with no background ink over a standard
/// cell leaves that cell exactly as it was.
pub proof fn lemma_transparent_glyph_noop(old: Cell, new: Cell, dbc: Color)
    requires
        new.format is Standard,
        old.format is Standard,
        new.ch == ' ',
        !bg_present(new) || new.bg.a == 0,
    ensures
        spec_compose_cell(old, new, dbc) == old,
{
    reveal(spec_compose_cell);
    assert(spec_compose_cell(old, new, dbc).attributes == old.attributes.spec_with_presence(
        fg_present(old),
        bg_present(old),
    ));
    assert(old.attributes.spec_with_presence(fg_present(old), bg_present(old)) == old.attributes);
}

/// Merging a sub-cell cell whose bitmask equals the old cell's bitmask keeps
/// the glyph: only the colors are refreshed.
pub proof fn lemma_subcell_merge_idempotent(old: Cell, new: Cell, dbc: Color)
    requires
        spec_is_subcell(new.format),
        old.format == new.format,
        spec_glyph_to_mask(new.format, old.ch) is Some,
        spec_glyph_to_mask(new.format, new.ch) == spec_glyph_to_mask(new.format, old.ch),
    ensures
        spec_compose_cell(old, new, dbc).ch == old.ch,
        spec_compose_cell(old, new, dbc).format == old.format,
{
    reveal(spec_compose_cell);
    let m = spec_glyph_to_mask(new.format, old.ch)->Some_0;
    assert(m | m == m) by (bit_vector);
    lemma_glyph_mask_roundtrip(new.format, old.ch);
}

/// Drawing bitmask `a` and then bitmask `b` onto any cell produces the same
/// glyph as drawing the single bitmask `a | b`: sub-cell merging accumulates
/// bits, in any grouping.
pub proof fn lemma_subcell_merge_accumulates(
    base: Cell,
    cell_a: Cell,
    cell_b: Cell,
    cell_ab: Cell,
    dbc: Color,
)
    requires
        spec_is_subcell(cell_a.format),
        cell_b.format == cell_a.format,
        cell_ab.format == cell_a.format,
        spec_glyph_to_mask(cell_a.format, cell_a.ch) is Some,
        spec_glyph_to_mask(cell_a.format, cell_b.ch) is Some,
        spec_glyph_to_mask(cell_a.format, cell_ab.ch) == Some(
            spec_glyph_to_mask(cell_a.format, cell_a.ch)->Some_0 | spec_glyph_to_mask(
                cell_a.format,
                cell_b.ch,
            )->Some_0,
        ),
    ensures
        spec_compose_cell(spec_compose_cell(base, cell_a, dbc), cell_b, dbc).ch
            == spec_compose_cell(base, cell_ab, dbc).ch,
{
    reveal(spec_compose_cell);
    let f = cell_a.format;
    let ma = spec_glyph_to_mask(f, cell_a.ch)->Some_0;
    let mb = spec_glyph_to_mask(f, cell_b.ch)->Some_0;
    lemma_glyph_mask_roundtrip(f, cell_ab.ch);
    if base.format == f && spec_glyph_to_mask(f, base.ch) is Some {
        let mbase = spec_glyph_to_mask(f, base.ch)->Some_0;
        lemma_mask_or_valid(f, mbase, ma);
        lemma_mask_glyph_roundtrip(f, mbase | ma);
        let mid = spec_compose_cell(base, cell_a, dbc);
        assert(mid.ch == spec_mask_to_glyph(f, mbase | ma)->Some_0);
        assert(spec_glyph_to_mask(f, mid.ch) == Some(mbase | ma));
        assert((mbase | ma) | mb == mbase | (ma | mb)) by (bit_vector);
        lemma_mask_or_valid(f, ma, mb);
        lemma_mask_glyph_roundtrip(f, ma | mb);
    } else {
        let mid = spec_compose_cell(base, cell_a, dbc);
        assert(mid.ch == cell_a.ch && mid.format == f);
        lemma_mask_or_valid(f, ma, mb);
        lemma_mask_glyph_roundtrip(f, ma | mb);
        assert(spec_compose_cell(base, cell_ab, dbc).ch == cell_ab.ch);
        assert(spec_mask_to_glyph(f, ma | mb) == Some(cell_ab.ch));
    }
}

} // verus!
