//! Colors: fixed-point radiance triples and 8-bit output pixels.

use crate::fixed;
use crate::fixed::{fmul, sadd, smax, smin, FX_ONE};
use vstd::prelude::*;

verus! {

/// Mathematical value of a radiance triple.
pub ghost struct C3 {
    pub r: int,
    pub g: int,
    pub b: int,
}

/// A linear-radiance color; one unit of brightness per channel is `FX_ONE`.
#[derive(Clone, Copy, PartialEq, Eq, Structural, Debug)]
pub struct Color {
    pub r: i64,
    pub g: i64,
    pub b: i64,
}

impl View for Color {
    type V = C3;

    open spec fn view(&self) -> C3 {
        C3 { r: self.r as int, g: self.g as int, b: self.b as int }
    }
}

/// An 8-bit output pixel.
#[derive(Clone, Copy, PartialEq, Eq, Structural, Debug)]
pub struct Rgb8 {
    pub r: u8,
    pub g: u8,
    pub b: u8,
}

/// Channelwise sum.
pub open spec fn add_c(a: C3, b: C3) -> C3 {
    C3 { r: sadd(a.r, b.r), g: sadd(a.g, b.g), b: sadd(a.b, b.b) }
}

/// Channelwise product: how an attenuation filters a radiance.
pub open spec fn mul_c(a: C3, b: C3) -> C3 {
    C3 { r: fmul(a.r, b.r), g: fmul(a.g, b.g), b: fmul(a.b, b.b) }
}

/// Scalar multiple.
pub open spec fn scale_c(a: C3, s: int) -> C3 {
    C3 { r: fmul(a.r, s), g: fmul(a.g, s), b: fmul(a.b, s) }
}

/// All channels within `[0, 1]`.
pub open spec fn unit_c(a: C3) -> bool {
    0 <= a.r <= FX_ONE && 0 <= a.g <= FX_ONE && 0 <= a.b <= FX_ONE
}

/// Clamp a channel into `[0, 1]`, then spread it over 256 levels, truncating.
pub open spec fn quantize_s(c: int) -> int {
    (smax(smin(c, FX_ONE as int), 0) * 255) / (FX_ONE as int)
}

impl Color {
    /// The color with the given channels.
    pub fn new(r: i64, g: i64, b: i64) -> (c: Color)
        ensures
            c@ == (C3 { r: r as int, g: g as int, b: b as int }),
    {
        Color { r, g, b }
    }

    /// Pure black: no radiance on any channel.
    pub fn black() -> (c: Color)
        ensures
            c@ == (C3 { r: 0, g: 0, b: 0 }),
    {
        Color { r: 0, g: 0, b: 0 }
    }

    /// Channelwise sum.
    pub fn add(&self, other: &Color) -> (c: Color)
        ensures
            c@ == add_c(self@, other@),
    {
        Color {
            r: fixed::fx_add(self.r, other.r),
            g: fixed::fx_add(self.g, other.g),
            b: fixed::fx_add(self.b, other.b),
        }
    }

    /// Channelwise product.
    pub fn mul(&self, other: &Color) -> (c: Color)
        ensures
            c@ == mul_c(self@, other@),
    {
        Color {
            r: fixed::fx_mul(self.r, other.r),
            g: fixed::fx_mul(self.g, other.g),
            b: fixed::fx_mul(self.b, other.b),
        }
    }

    /// Scalar multiple.
    pub fn scale(&self, s: i64) -> (c: Color)
        ensures
            c@ == scale_c(self@, s as int),
    {
        Color {
            r: fixed::fx_mul(self.r, s),
            g: fixed::fx_mul(self.g, s),
            b: fixed::fx_mul(self.b, s),
        }
    }

    /// Quantize each channel to its 8-bit output value, truncating.
    pub fn to_rgb8(&self) -> (p: Rgb8)
        ensures
            p.r as int == quantize_s(self@.r),
            p.g as int == quantize_s(self@.g),
            p.b as int == quantize_s(self@.b),
    {
        Rgb8 { r: quantize(self.r), g: quantize(self.g), b: quantize(self.b) }
    }
}

/// Quantize one channel to 8 bits, truncating.
fn quantize(c: i64) -> (q: u8)
    ensures
        q as int == quantize_s(c as int),
{
    let cc = fixed::fx_clamp(c, 0, FX_ONE);
    (((cc as u64) * 255) / (FX_ONE as u64)) as u8
}

} // verus!
