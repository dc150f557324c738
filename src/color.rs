//! Colours with three 8-bit channels, blended and shaded in fixed point.

use vstd::prelude::*;
use vstd::arithmetic::div_mod::lemma_div_multiples_vanish;
use crate::fixed::{FX_ONE, clamp_channel, floor_div, to_channel};

verus! {

#[derive(Clone, Copy, Debug, PartialEq, Eq, Structural)]
pub struct Color {
    pub r: u8,
    pub g: u8,
    pub b: u8,
}

/// One channel of the blend from `a` to `b` at factor `t` (fixed point):
/// `a + (b - a) * t`, rounded down and clamped into `0 ..= 255`.
/// Factors outside `[0, 1]` extrapolate.
pub open spec fn lerp_channel(a: int, b: int, t: int) -> int {
    clamp_channel((a * FX_ONE + (b - a) * t) / (FX_ONE as int))
}

/// One channel scaled by `k` (fixed point), rounded down and clamped.
pub open spec fn scale_channel(c: int, k: int) -> int {
    clamp_channel((c * k) / (FX_ONE as int))
}

pub open spec fn lerp_spec(x: Color, y: Color, t: int) -> Color {
    Color {
        r: lerp_channel(x.r as int, y.r as int, t) as u8,
        g: lerp_channel(x.g as int, y.g as int, t) as u8,
        b: lerp_channel(x.b as int, y.b as int, t) as u8,
    }
}

pub open spec fn scale_spec(x: Color, k: int) -> Color {
    Color {
        r: scale_channel(x.r as int, k) as u8,
        g: scale_channel(x.g as int, k) as u8,
        b: scale_channel(x.b as int, k) as u8,
    }
}

/// The colour packed as `0xRRGGBB`.
pub open spec fn hex_spec(x: Color) -> int {
    x.r as int * 65536 + x.g as int * 256 + x.b as int
}

fn blend_channel(a: u8, b: u8, t: i64) -> (r: u8)
    ensures
        r as int == lerp_channel(a as int, b as int, t as int),
{
    let d: i128 = b as i128 - a as i128;
    assert(-255 * 0x8000_0000_0000_0000 <= d * t <= 255 * 0x8000_0000_0000_0000) by (nonlinear_arith)
        requires
            -255 <= d <= 255,
            -0x8000_0000_0000_0000 <= t < 0x8000_0000_0000_0000,
    ;
    let v: i128 = a as i128 * (FX_ONE as i128) + d * (t as i128);
    to_channel(floor_div(v, FX_ONE as i128))
}

fn scale_one(c: u8, k: i64) -> (r: u8)
    ensures
        r as int == scale_channel(c as int, k as int),
{
    assert(-255 * 0x8000_0000_0000_0000 <= c * k <= 255 * 0x8000_0000_0000_0000) by (nonlinear_arith)
        requires
            0 <= c <= 255,
            -0x8000_0000_0000_0000 <= k < 0x8000_0000_0000_0000,
    ;
    let v: i128 = c as i128 * k as i128;
    to_channel(floor_div(v, FX_ONE as i128))
}

impl Color {
    pub fn new(r: u8, g: u8, b: u8) -> (c: Color)
        ensures
            c == (Color { r, g, b }),
    {
        Color { r, g, b }
    }

    /// Linear interpolation toward `other` by the fixed-point factor `t`.
    pub fn lerp(&self, other: &Color, t: i64) -> (c: Color)
        ensures
            c == lerp_spec(*self, *other, t as int),
    {
        Color {
            r: blend_channel(self.r, other.r, t),
            g: blend_channel(self.g, other.g, t),
            b: blend_channel(self.b, other.b, t),
        }
    }

    /// Every channel multiplied by the fixed-point intensity `k`.
    pub fn scale(&self, k: i64) -> (c: Color)
        ensures
            c == scale_spec(*self, k as int),
    {
        Color { r: scale_one(self.r, k), g: scale_one(self.g, k), b: scale_one(self.b, k) }
    }

    /// The colour as a `0xRRGGBB` pixel value.
    pub fn to_hex(&self) -> (h: u32)
        ensures
            h as int == hex_spec(*self),
    {
        self.r as u32 * 65536 + self.g as u32 * 256 + self.b as u32
    }
}

proof fn lemma_lerp_channel_ends(a: int, b: int)
    requires
        0 <= a <= 255,
        0 <= b <= 255,
    ensures
        lerp_channel(a, b, 0) == a,
        lerp_channel(a, b, FX_ONE as int) == b,
{
    lemma_div_multiples_vanish(a, FX_ONE as int);
    lemma_div_multiples_vanish(b, FX_ONE as int);
    assert(a * FX_ONE + (b - a) * FX_ONE == FX_ONE * b) by (nonlinear_arith);
    assert(a * FX_ONE + (b - a) * 0 == FX_ONE * a) by (nonlinear_arith);
}

/// Blending at factor 0 gives the first colour exactly, and at factor 1 the
/// second colour exactly.
pub proof fn lemma_lerp_endpoints(x: Color, y: Color)
    ensures
        lerp_spec(x, y, 0) == x,
        lerp_spec(x, y, FX_ONE as int) == y,
{
    lemma_lerp_channel_ends(x.r as int, y.r as int);
    lemma_lerp_channel_ends(x.g as int, y.g as int);
    lemma_lerp_channel_ends(x.b as int, y.b as int);
}

/// Blending and scaling never wrap a channel around: each channel of a blend,
/// and of a colour scaled by an intensity, is the value of its formula
/// clamped into `0 ..= 255`, whatever the factor or the intensity.
pub proof fn lemma_channels_clamped(x: Color, y: Color, t: int, k: int)
    ensures
        lerp_spec(x, y, t).r as int == clamp_channel((x.r * FX_ONE + (y.r - x.r) * t) / (FX_ONE as int)),
        lerp_spec(x, y, t).g as int == clamp_channel((x.g * FX_ONE + (y.g - x.g) * t) / (FX_ONE as int)),
        lerp_spec(x, y, t).b as int == clamp_channel((x.b * FX_ONE + (y.b - x.b) * t) / (FX_ONE as int)),
        scale_spec(x, k).r as int == clamp_channel((x.r * k) / (FX_ONE as int)),
        scale_spec(x, k).g as int == clamp_channel((x.g * k) / (FX_ONE as int)),
        scale_spec(x, k).b as int == clamp_channel((x.b * k) / (FX_ONE as int)),
{
}

} // verus!
