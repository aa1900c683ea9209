use germterm::cell::{Cell, CellFormat};
use germterm::color::Color;
use germterm::compose::compose_cell;
use germterm::style::Attributes;
use germterm::subcell::{glyph_to_mask, is_subcell, mask_to_glyph};

fn cell(ch: char, fg: Option<Color>, bg: Option<Color>, format: CellFormat) -> Cell {
    let mut attributes = Attributes::empty();
    attributes.no_fg_color = fg.is_none();
    attributes.no_bg_color = bg.is_none();
    Cell {
        ch,
        fg: fg.unwrap_or(Color::clear()),
        bg: bg.unwrap_or(Color::clear()),
        attributes,
        format,
    }
}

fn dbc() -> Color {
    Color::black()
}

#[test]
fn subcell_table_twoxel() {
    assert_eq!(mask_to_glyph(CellFormat::Twoxel, 0), Some(' '));
    assert_eq!(mask_to_glyph(CellFormat::Twoxel, 1), Some('\u{2580}'));
    assert_eq!(mask_to_glyph(CellFormat::Twoxel, 2), Some('\u{2584}'));
    assert_eq!(mask_to_glyph(CellFormat::Twoxel, 3), Some('\u{2588}'));
    // A mask with more bits than the format holds has no glyph: the lookup
    // reports the error instead of failing.
    assert_eq!(mask_to_glyph(CellFormat::Twoxel, 4), None);
    assert_eq!(glyph_to_mask(CellFormat::Twoxel, '\u{2584}'), Some(2));
    assert_eq!(glyph_to_mask(CellFormat::Twoxel, 'x'), None);
}

#[test]
fn subcell_table_octad_roundtrip() {
    let glyph = mask_to_glyph(CellFormat::Octad, 0b101).unwrap();
    assert_eq!(glyph, '\u{2805}');
    assert_eq!(glyph_to_mask(CellFormat::Octad, glyph), Some(0b101));
    assert_eq!(glyph_to_mask(CellFormat::Octad, 'q'), None);
    assert_eq!(mask_to_glyph(CellFormat::Octad, 255), Some('\u{28ff}'));
}

#[test]
fn subcell_table_blocktad() {
    assert_eq!(mask_to_glyph(CellFormat::Blocktad, 6), Some('\u{259e}'));
    assert_eq!(mask_to_glyph(CellFormat::Blocktad, 15), Some('\u{2588}'));
    assert_eq!(mask_to_glyph(CellFormat::Blocktad, 16), None);
    assert_eq!(glyph_to_mask(CellFormat::Blocktad, '\u{2599}'), Some(13));
    assert!(!is_subcell(CellFormat::Standard));
    assert!(is_subcell(CellFormat::Octad));
}

#[test]
fn opaque_background_overwrites_any_old_cell() {
    // A standard cell with no foreground and a fully opaque background
    // occludes whatever was beneath, old formats included.
    let new = cell('#', None, Some(Color::green()), CellFormat::Standard);
    let olds = [
        cell('Q', Some(Color::red()), Some(Color::blue()), CellFormat::Standard),
        cell('\u{2580}', Some(Color::white()), None, CellFormat::Twoxel),
        Cell::empty(),
    ];
    for old in olds {
        let merged = compose_cell(old, new, dbc());
        assert_eq!(merged.ch, '#');
        assert_eq!(merged.bg, Color::green());
        assert!(merged.attributes.no_fg_color);
        assert!(!merged.attributes.no_bg_color);
        assert_eq!(merged.format, CellFormat::Standard);
    }
}

#[test]
fn invisible_glyph_leaves_old_glyph_alone() {
    // A space with no background ink changes nothing at all.
    let old = cell('Q', Some(Color::red()), Some(Color::blue()), CellFormat::Standard);
    let new = cell(' ', Some(Color::white()), None, CellFormat::Standard);
    assert_eq!(compose_cell(old, new, dbc()), old);

    // A space with a fully transparent background changes nothing either.
    let new_clear_bg = cell(' ', None, Some(Color::rgba(9, 9, 9, 0)), CellFormat::Standard);
    assert_eq!(compose_cell(old, new_clear_bg, dbc()), old);
}

#[test]
fn invisible_glyph_with_translucent_bg_tints() {
    // Drawing a translucent background over a visible glyph keeps the glyph
    // and tints its ink: fg becomes blend(old fg, new bg).
    let old = cell('Q', Some(Color::red()), None, CellFormat::Standard);
    let new = cell(' ', None, Some(Color::rgba(0, 0, 255, 128)), CellFormat::Standard);
    let merged = compose_cell(old, new, dbc());
    assert_eq!(merged.ch, 'Q');
    assert_eq!(merged.fg, Color::rgba(127, 0, 128, 255));
    // bg: blend(default black, blue a128) with combined opacity 255.
    assert_eq!(merged.bg, Color::rgba(0, 0, 128, 255));
}

#[test]
fn opaque_ink_is_used_unchanged() {
    let old = Cell::empty();
    let new = cell('A', Some(Color::white()), None, CellFormat::Standard);
    let merged = compose_cell(old, new, dbc());
    assert_eq!(merged.ch, 'A');
    assert_eq!(merged.fg, Color::white());
    assert!(!merged.attributes.no_fg_color);
    assert!(merged.attributes.no_bg_color);
}

#[test]
fn translucent_ink_blends_over_default_color() {
    // Nothing beneath: the default blending color stands in as the floor.
    let old = Cell::empty();
    let new = cell('A', Some(Color::rgba(255, 255, 255, 128)), None, CellFormat::Standard);
    let merged = compose_cell(old, new, Color::rgb(0, 0, 0));
    // blend(black, white a128): each channel (255*128)/255 = 128.
    assert_eq!(merged.ch, 'A');
    assert_eq!(merged.fg.r, 128);
    assert_eq!(merged.fg.g, 128);
    assert_eq!(merged.fg.b, 128);
}

#[test]
fn translucent_ink_blends_over_old_ink() {
    let old = cell('Q', Some(Color::red()), None, CellFormat::Standard);
    let new = cell('A', Some(Color::rgba(0, 0, 255, 128)), None, CellFormat::Standard);
    let merged = compose_cell(old, new, dbc());
    assert_eq!(merged.ch, 'A');
    // Floor is the old visible ink (red): blend(red, blue a128).
    assert_eq!(merged.fg, Color::rgba(127, 0, 128, 255));
}

#[test]
fn subcell_same_mask_refreshes_color_only() {
    let old = cell('\u{2580}', Some(Color::red()), None, CellFormat::Twoxel);
    let new = cell('\u{2580}', Some(Color::blue()), None, CellFormat::Twoxel);
    let merged = compose_cell(old, new, dbc());
    assert_eq!(merged.ch, '\u{2580}');
    assert_eq!(merged.format, CellFormat::Twoxel);
    assert_eq!(merged.fg, Color::blue());
}

#[test]
fn subcell_merge_ors_bitmasks() {
    // Upper half block OR lower half block = full block.
    let old = cell('\u{2580}', Some(Color::red()), None, CellFormat::Twoxel);
    let new = cell('\u{2584}', Some(Color::blue()), None, CellFormat::Twoxel);
    let merged = compose_cell(old, new, dbc());
    assert_eq!(merged.ch, '\u{2588}');
    assert_eq!(merged.format, CellFormat::Twoxel);
}

#[test]
fn subcell_two_draws_equal_one_merged_draw() {
    // Drawing mask A then mask B gives the same glyph as drawing A | B once,
    // over any base cell.
    let base = cell('Z', Some(Color::white()), Some(Color::blue()), CellFormat::Standard);
    let a = cell('\u{2598}', Some(Color::red()), None, CellFormat::Blocktad);
    let b = cell('\u{2597}', Some(Color::red()), None, CellFormat::Blocktad);
    let ab = cell('\u{259a}', Some(Color::red()), None, CellFormat::Blocktad);

    let two_step = compose_cell(compose_cell(base, a, dbc()), b, dbc());
    let one_step = compose_cell(base, ab, dbc());
    assert_eq!(two_step.ch, one_step.ch);
    assert_eq!(two_step.ch, '\u{259a}');
}

#[test]
fn octad_merge_accumulates_dots() {
    let old = cell('\u{2801}', Some(Color::white()), None, CellFormat::Octad);
    let new = cell('\u{2880}', Some(Color::white()), None, CellFormat::Octad);
    let merged = compose_cell(old, new, dbc());
    assert_eq!(merged.ch, '\u{2881}');
}

#[test]
fn format_mismatch_replaces_old_cell() {
    // A standard glyph over a sub-cell cell starts fresh.
    let old = cell('\u{2588}', Some(Color::red()), Some(Color::blue()), CellFormat::Twoxel);
    let new = cell('A', Some(Color::white()), None, CellFormat::Standard);
    let merged = compose_cell(old, new, dbc());
    assert_eq!(merged.ch, 'A');
    assert_eq!(merged.format, CellFormat::Standard);
    assert_eq!(merged.fg, Color::white());

    // A sub-cell glyph over a standard cell replaces it, too.
    let merged_back = compose_cell(merged, old, dbc());
    assert_eq!(merged_back.ch, '\u{2588}');
    assert_eq!(merged_back.format, CellFormat::Twoxel);
}

#[test]
fn subcell_glyph_outside_table_replaces() {
    // The old cell claims to be Twoxel but its glyph is not in the table, so
    // no mask can be read; the new cell replaces it outright.
    let old = cell('x', Some(Color::red()), None, CellFormat::Twoxel);
    let new = cell('\u{2584}', Some(Color::white()), None, CellFormat::Twoxel);
    let merged = compose_cell(old, new, dbc());
    assert_eq!(merged.ch, '\u{2584}');
}
