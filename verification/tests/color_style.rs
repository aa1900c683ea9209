use germterm::cell::{Cell, CellFormat};
use germterm::color::{blend_source_over, Color};
use germterm::metadata::Metadata;
use germterm::particle::{particle_color_at, sample_gradient, ColorGradient, ParticleColor};
use germterm::style::{Attributes, Style};

#[test]
fn blend_opaque_over_wins() {
    let under = Color::rgba(10, 20, 30, 40);
    let over = Color::rgb(200, 100, 50);
    assert_eq!(blend_source_over(under, over), over);
}

#[test]
fn blend_transparent_over_keeps_under_rgb() {
    let under = Color::rgba(10, 20, 30, 200);
    let over = Color::rgba(200, 100, 50, 0);
    let blended = blend_source_over(under, over);
    assert_eq!(blended.r, 10);
    assert_eq!(blended.g, 20);
    assert_eq!(blended.b, 30);
    assert_eq!(blended.a, 200);
}

#[test]
fn blend_half_alpha_exact() {
    // Red under, translucent blue (alpha 128) over:
    // r = (0*128 + 255*127) / 255 = 127, b = (255*128 + 0*127) / 255 = 128,
    // a = 128 + 255*(255-128)/255 = 255.
    let red = Color::red();
    let blue = Color::rgba(0, 0, 255, 128);
    let blended = blend_source_over(red, blue);
    assert_eq!(blended, Color::rgba(127, 0, 128, 255));
}

#[test]
fn color_with_alpha_replaces_only_alpha() {
    let c = Color::rgb(1, 2, 3).with_alpha(77);
    assert_eq!(c, Color::rgba(1, 2, 3, 77));
}

#[test]
fn style_setters_and_getters() {
    let mut s = Style::new(None, Some(Color::red()), Attributes::empty());
    assert!(!s.has_fg());
    assert!(s.has_bg());
    assert_eq!(s.fg(), None);
    assert_eq!(s.bg(), Some(Color::red()));

    s.set_fg(Some(Color::blue()));
    assert!(s.has_fg());
    assert_eq!(s.fg(), Some(Color::blue()));

    s.set_bg(None);
    assert!(!s.has_bg());
    assert_eq!(s.bg(), None);
}

#[test]
fn attributes_union_is_flagwise() {
    let mut a = Attributes::empty();
    a.bold = true;
    let mut b = Attributes::empty();
    b.hidden = true;
    b.no_fg_color = true;
    let u = a.union(b);
    assert!(u.bold && u.hidden && u.no_fg_color);
    assert!(!u.italic && !u.underlined && !u.no_bg_color);
}

#[test]
fn metadata_format_roundtrip() {
    let m = Metadata::empty();
    assert_eq!(m.cell_format(), CellFormat::Standard);
    let m = m.with_cell_format(CellFormat::Octad);
    assert_eq!(m.cell_format(), CellFormat::Octad);
    let m = m.with_cell_format(CellFormat::Blocktad);
    assert_eq!(m.cell_format(), CellFormat::Blocktad);
    let m = m.with_cell_format(CellFormat::Twoxel);
    assert_eq!(m.cell_format(), CellFormat::Twoxel);
}

#[test]
fn metadata_presence_flags_are_independent() {
    let m = Metadata::empty().with_no_fg_color(true).with_cell_format(CellFormat::Octad);
    assert!(m.no_fg_color());
    assert!(!m.no_bg_color());
    assert_eq!(m.cell_format(), CellFormat::Octad);
    let m = m.with_no_bg_color(true).with_no_fg_color(false);
    assert!(!m.no_fg_color());
    assert!(m.no_bg_color());
    assert_eq!(m.cell_format(), CellFormat::Octad);
    assert_eq!(m.0, 0x22);
}

#[test]
fn cell_empty_is_default_state() {
    let c = Cell::empty();
    assert_eq!(c.ch, ' ');
    assert!(c.attributes.no_fg_color);
    assert!(c.attributes.no_bg_color);
    assert_eq!(c.format, CellFormat::Standard);
}

#[test]
fn cell_merge_takes_specified_colors() {
    let mut base = Cell::empty();
    base.fg = Color::red();
    base.attributes.no_fg_color = false;
    base.attributes.bold = true;

    let mut over = Cell::empty();
    over.ch = 'x';
    over.bg = Color::blue();
    over.attributes.no_bg_color = false;
    over.attributes.italic = true;

    // `over` specifies no foreground, so the merged cell keeps red and the
    // foreground presence follows `over`'s flag.
    let mut merged = base;
    merged.merge(over);
    assert_eq!(merged.ch, 'x');
    assert_eq!(merged.fg, Color::red());
    assert_eq!(merged.bg, Color::blue());
    assert!(merged.attributes.no_fg_color);
    assert!(!merged.attributes.no_bg_color);
    assert!(merged.attributes.bold && merged.attributes.italic);
    assert_eq!(merged.format, CellFormat::Standard);
}

#[test]
fn gradient_midpoint_is_halfway() {
    let g = ColorGradient { start: Color::rgba(0, 0, 0, 0), end: Color::rgba(255, 255, 255, 255) };
    // Each channel: (255*128 + 0*127) / 255 = 128.
    assert_eq!(sample_gradient(&g, 128), Color::rgba(128, 128, 128, 128));
    assert_eq!(sample_gradient(&g, 0), Color::rgba(0, 0, 0, 0));
    assert_eq!(sample_gradient(&g, 255), Color::rgba(255, 255, 255, 255));
}

#[test]
fn particle_color_solid_is_constant() {
    let p = ParticleColor::Solid(Color::green());
    assert_eq!(particle_color_at(&p, 0), Color::green());
    assert_eq!(particle_color_at(&p, 200), Color::green());
    let g = ParticleColor::Gradient(ColorGradient { start: Color::black(), end: Color::white() });
    assert_eq!(particle_color_at(&g, 255), Color::white());
}
