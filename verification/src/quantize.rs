//! Per-pixel quantization semantics shared by the noise and diffusion paths:
//! the transparency decision and the nearest-color lookup of a fixed-point
//! color.

use vstd::prelude::*;

use crate::fx::{byte_of_fx, fx_of_byte, Rgba, ONE};
use crate::palette::{closest_index, Palette, Rgb, TRANSPARENT_INDEX};

verus! {

/// The pixel's RGB equals the transparent marker color exactly, in fixed
/// point.
pub open spec fn rgb_is_marker(p: Rgba) -> bool {
    p.r == fx_of_byte(0) && p.g == fx_of_byte(255) && p.b == fx_of_byte(255)
}

/// The transparency decision on a color: an alpha below the clip threshold,
/// or an exact match with the transparent marker color, forces the
/// transparent index.
pub open spec fn is_clipped(p: Rgba, clip: int) -> bool {
    p.a < clip || rgb_is_marker(p)
}

/// Byte color of three fixed-point channels: each clamped and truncated.
pub open spec fn rgb_of_fx(r: int, g: int, b: int) -> Rgb {
    Rgb { r: byte_of_fx(r) as u8, g: byte_of_fx(g) as u8, b: byte_of_fx(b) as u8 }
}

/// Tests the transparency rule on a fixed-point color.
pub fn clipped(p: &Rgba, clip: i64) -> (r: bool)
    ensures
        r == is_clipped(*p, clip as int),
{
    p.a < clip || (p.r == 0 && p.g == ONE && p.b == ONE)
}

/// Quantizes three fixed-point channels against the palette: converts each
/// channel to a byte and picks the nearest palette entry.
pub fn quantize_fx(palette: &Palette, r: i64, g: i64, b: i64) -> (idx: usize)
    requires
        palette.wf(),
    ensures
        idx == closest_index(palette@, rgb_of_fx(r as int, g as int, b as int)),
        idx < 256,
        idx != TRANSPARENT_INDEX,
{
    let color = Rgb {
        r: crate::fx::byte_from_fx(r),
        g: crate::fx::byte_from_fx(g),
        b: crate::fx::byte_from_fx(b),
    };
    palette.index_of(&color)
}

/// The quantized color the palette hands back for three fixed-point
/// channels, as fixed-point channels again, fully opaque.
pub fn quantize_color_fx(palette: &Palette, r: i64, g: i64, b: i64) -> (res: (usize, Rgba))
    requires
        palette.wf(),
    ensures
        res.0 == closest_index(palette@, rgb_of_fx(r as int, g as int, b as int)),
        res.0 < 256,
        res.0 != TRANSPARENT_INDEX,
        res.1.r == fx_of_byte(palette@[res.0 as int].r as int),
        res.1.g == fx_of_byte(palette@[res.0 as int].g as int),
        res.1.b == fx_of_byte(palette@[res.0 as int].b as int),
        res.1.a == ONE,
        0 <= res.1.r <= ONE && 0 <= res.1.g <= ONE && 0 <= res.1.b <= ONE,
{
    let color = Rgb {
        r: crate::fx::byte_from_fx(r),
        g: crate::fx::byte_from_fx(g),
        b: crate::fx::byte_from_fx(b),
    };
    let (idx, chosen) = palette.find_closest(&color);
    let fx_color = Rgba {
        r: crate::fx::fx_from_byte(chosen.r),
        g: crate::fx::fx_from_byte(chosen.g),
        b: crate::fx::fx_from_byte(chosen.b),
        a: ONE,
    };
    (idx, fx_color)
}

} // verus!
