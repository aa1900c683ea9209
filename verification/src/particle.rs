//! The color model of the particle subsystem.
//!
//! The simulation itself (velocities, gravity, lifetimes) lives outside this
//! library; it only consumes draw calls. What belongs here is the particle's
//! color over its lifetime: a solid color, or a two-stop gradient sampled at
//! a lifetime fraction expressed in 255ths.

use crate::color::Color;
use vstd::prelude::*;

verus! {

/// A linear gradient between two colors.
#[derive(Clone, Copy, Debug, PartialEq, Eq, Structural)]
pub struct ColorGradient {
    pub start: Color,
    pub end: Color,
}

/// What color a particle is drawn with over its lifetime.
#[derive(Clone, Copy, Debug, PartialEq, Eq, Structural)]
pub enum ParticleColor {
    Solid(Color),
    Gradient(ColorGradient),
}

/// One channel interpolated `t` of 255 of the way from `a` to `b`, in
/// integer arithmetic (the exact real-valued result, scaled by 255 and
/// rounded down).
pub open spec fn spec_lerp_channel(a: u8, b: u8, t: u8) -> u8 {
    ((b * t + a * (255 - t)) / 255) as u8
}

fn lerp_channel(a: u8, b: u8, t: u8) -> (c: u8)
    ensures
        c == spec_lerp_channel(a, b, t),
{
    proof {
        assert((b * t + a * (255 - t)) <= 255 * 255 && (b * t + a * (255 - t)) >= 0
            && (b * t + a * (255 - t)) / 255 <= 255) by (nonlinear_arith)
            requires
                a <= 255,
                b <= 255,
                t <= 255,
        ;
    }
    let num: u32 = (b as u32) * (t as u32) + (a as u32) * (255 - t as u32);
    (num / 255) as u8
}

/// The gradient's color at lifetime fraction `t` of 255: every channel,
/// alpha included, interpolated linearly from `start` to `end`.
pub fn sample_gradient(gradient: &ColorGradient, t: u8) -> (c: Color)
    ensures
        c.r == spec_lerp_channel(gradient.start.r, gradient.end.r, t),
        c.g == spec_lerp_channel(gradient.start.g, gradient.end.g, t),
        c.b == spec_lerp_channel(gradient.start.b, gradient.end.b, t),
        c.a == spec_lerp_channel(gradient.start.a, gradient.end.a, t),
{
    Color {
        r: lerp_channel(gradient.start.r, gradient.end.r, t),
        g: lerp_channel(gradient.start.g, gradient.end.g, t),
        b: lerp_channel(gradient.start.b, gradient.end.b, t),
        a: lerp_channel(gradient.start.a, gradient.end.a, t),
    }
}

/// The particle's color at lifetime fraction `t` of 255: a solid color is
/// itself throughout; a gradient is sampled.
pub fn particle_color_at(color: &ParticleColor, t: u8) -> (c: Color)
    ensures
        match *color {
            ParticleColor::Solid(solid) => c == solid,
            ParticleColor::Gradient(g) => {
                &&& c.r == spec_lerp_channel(g.start.r, g.end.r, t)
                &&& c.g == spec_lerp_channel(g.start.g, g.end.g, t)
                &&& c.b == spec_lerp_channel(g.start.b, g.end.b, t)
                &&& c.a == spec_lerp_channel(g.start.a, g.end.a, t)
            },
        },
{
    match color {
        ParticleColor::Solid(solid) => *solid,
        ParticleColor::Gradient(g) => sample_gradient(g, t),
    }
}

} // verus!
