//! RGBA8 color and source-over blending.
//!
//! `a == 0` is fully transparent, `a == 255` fully opaque; values in between
//! blend. Whether a color is *present* at all is a separate fact, tracked by
//! the presence flags in [`crate::style::Attributes`]: an absent color means
//! "not specified" and inherits from below, while an alpha-0 color is an
//! explicit, fully see-through value.

use vstd::prelude::*;

verus! {

/// One color: four 8-bit channels.
#[derive(Clone, Copy, Debug, PartialEq, Eq, Structural)]
pub struct Color {
    pub r: u8,
    pub g: u8,
    pub b: u8,
    pub a: u8,
}

/// One channel of source-over blending: `over` with opacity `alpha` painted
/// on top of `under`, in integer arithmetic (the exact real-valued result,
/// scaled by 255 and rounded down).
pub open spec fn blend_channel(under: u8, over: u8, alpha: u8) -> u8 {
    ((over * alpha + under * (255 - alpha)) / 255) as u8
}

/// The opacity of the stack after painting `over` (opacity `over_a`) on top
/// of a layer of opacity `under_a`.
pub open spec fn blend_alpha(under_a: u8, over_a: u8) -> u8 {
    (over_a + under_a * (255 - over_a) / 255) as u8
}

/// Source-over blending of `over` on top of `under`, per RGB channel,
/// weighted by `over.a`; the combined opacity goes to the result's `a`.
pub open spec fn spec_blend_source_over(under: Color, over: Color) -> Color {
    Color {
        r: blend_channel(under.r, over.r, over.a),
        g: blend_channel(under.g, over.g, over.a),
        b: blend_channel(under.b, over.b, over.a),
        a: blend_alpha(under.a, over.a),
    }
}

proof fn lemma_blend_channel_bounds(under: u8, over: u8, alpha: u8)
    ensures
        0 <= over * alpha + under * (255 - alpha) <= 255 * 255,
        (over * alpha + under * (255 - alpha)) / 255 <= 255,
{
    assert(over * alpha + under * (255 - alpha) <= 255 * 255) by (nonlinear_arith)
        requires
            over <= 255,
            under <= 255,
            alpha <= 255,
    ;
    assert(over * alpha + under * (255 - alpha) >= 0) by (nonlinear_arith)
        requires
            alpha <= 255,
    ;
}

proof fn lemma_blend_alpha_bounds(under_a: u8, over_a: u8)
    ensures
        0 <= under_a * (255 - over_a) / 255 <= 255 - over_a,
{
    assert(under_a * (255 - over_a) <= 255 * (255 - over_a)) by (nonlinear_arith)
        requires
            under_a <= 255,
            over_a <= 255,
    ;
    assert(255 * (255 - over_a) / 255 == 255 - over_a);
    assert(under_a * (255 - over_a) >= 0) by (nonlinear_arith)
        requires
            over_a <= 255,
    ;
    assert(under_a * (255 - over_a) / 255 <= 255 * (255 - over_a) / 255);
}

fn blend_channel_exec(under: u8, over: u8, alpha: u8) -> (c: u8)
    ensures
        c == blend_channel(under, over, alpha),
{
    proof {
        lemma_blend_channel_bounds(under, over, alpha);
    }
    let num: u32 = (over as u32) * (alpha as u32) + (under as u32) * (255 - alpha as u32);
    (num / 255) as u8
}

impl Color {
    /// A color from all four channels.
    pub fn rgba(r: u8, g: u8, b: u8, a: u8) -> (c: Color)
        ensures
            c == (Color { r, g, b, a }),
    {
        Color { r, g, b, a }
    }

    /// A fully opaque color from the RGB channels.
    pub fn rgb(r: u8, g: u8, b: u8) -> (c: Color)
        ensures
            c == (Color { r, g, b, a: 255u8 }),
    {
        Color { r, g, b, a: 255 }
    }

    /// The same color with the alpha channel replaced.
    pub fn with_alpha(self, a: u8) -> (c: Color)
        ensures
            c == (Color { a, ..self }),
    {
        Color { a, ..self }
    }

    /// Fully transparent black: all channels zero.
    pub fn clear() -> (c: Color)
        ensures
            c == (Color { r: 0u8, g: 0u8, b: 0u8, a: 0u8 }),
    {
        Color { r: 0, g: 0, b: 0, a: 0 }
    }

    /// Opaque black.
    pub fn black() -> (c: Color)
        ensures
            c == (Color { r: 0u8, g: 0u8, b: 0u8, a: 255u8 }),
    {
        Color { r: 0, g: 0, b: 0, a: 255 }
    }

    /// Opaque white.
    pub fn white() -> (c: Color)
        ensures
            c == (Color { r: 255u8, g: 255u8, b: 255u8, a: 255u8 }),
    {
        Color { r: 255, g: 255, b: 255, a: 255 }
    }

    /// Opaque red.
    pub fn red() -> (c: Color)
        ensures
            c == (Color { r: 255u8, g: 0u8, b: 0u8, a: 255u8 }),
    {
        Color { r: 255, g: 0, b: 0, a: 255 }
    }

    /// Opaque green.
    pub fn green() -> (c: Color)
        ensures
            c == (Color { r: 0u8, g: 255u8, b: 0u8, a: 255u8 }),
    {
        Color { r: 0, g: 255, b: 0, a: 255 }
    }

    /// Opaque blue.
    pub fn blue() -> (c: Color)
        ensures
            c == (Color { r: 0u8, g: 0u8, b: 255u8, a: 255u8 }),
    {
        Color { r: 0, g: 0, b: 255, a: 255 }
    }

    /// Opaque dark gray.
    pub fn dark_gray() -> (c: Color)
        ensures
            c == (Color { r: 64u8, g: 64u8, b: 64u8, a: 255u8 }),
    {
        Color { r: 64, g: 64, b: 64, a: 255 }
    }
}

/// Paints `over` on top of `under` with source-over blending.
pub fn blend_source_over(under: Color, over: Color) -> (c: Color)
    ensures
        c == spec_blend_source_over(under, over),
{
    proof {
        lemma_blend_alpha_bounds(under.a, over.a);
    }
    let scaled_under_a: u32 = (under.a as u32) * (255 - over.a as u32) / 255;
    Color {
        r: blend_channel_exec(under.r, over.r, over.a),
        g: blend_channel_exec(under.g, over.g, over.a),
        b: blend_channel_exec(under.b, over.b, over.a),
        a: (over.a as u32 + scaled_under_a) as u8,
    }
}

/// Blending with a fully opaque layer on top yields that layer: painting an
/// opaque color hides everything beneath it.
pub proof fn lemma_blend_opaque_over(under: Color, over: Color)
    requires
        over.a == 255,
    ensures
        spec_blend_source_over(under, over) == over,
{
    assert(blend_channel(under.r, over.r, 255) == over.r);
    assert(blend_channel(under.g, over.g, 255) == over.g);
    assert(blend_channel(under.b, over.b, 255) == over.b);
    assert(blend_alpha(under.a, 255) == 255);
}

} // verus!
