//! One RGBA pixel and its perceptual brightness.
//!
//! Brightness is a weighted luminance: 0.21 of red, 0.72 of green and 0.07 of
//! blue, with the blue term divided by the pixel's normalized alpha
//! (alpha / 255) to compensate for transparency, the sum truncated to an
//! 8-bit value. Over a common denominator of `100 * alpha` the weights become
//! the integer formula used below, with `1785 = 7 * 255` carrying both the
//! blue weight and the alpha normalization.

use vstd::prelude::*;

verus! {

/// One pixel, four 8-bit channels: red, green, blue, alpha.
#[derive(Clone, Copy, Debug, PartialEq, Eq, Structural)]
pub struct Pixel {
    pub r: u8,
    pub g: u8,
    pub b: u8,
    pub a: u8,
}

/// A fully transparent black pixel: every channel zero.
pub open spec fn transparent_black() -> Pixel {
    Pixel { r: 0, g: 0, b: 0, a: 0 }
}

/// The perceptual brightness of a pixel:
/// `(21*r*a + 72*g*a + 1785*b) / (100*a)`, truncated, saturated at 255.
///
/// This is the weighted luminance `0.21*r + 0.72*g + 0.07*b * (255/a)`
/// written over the common denominator `100*a`. Dividing the blue term by the
/// normalized alpha is undefined at alpha 0, so a fully transparent pixel is
/// defined to have brightness 0.
pub open spec fn brightness_spec(p: Pixel) -> u8 {
    if p.a == 0 {
        0u8
    } else {
        let q = (21 * p.r * p.a + 72 * p.g * p.a + 1785 * p.b) / (100 * p.a);
        if q > 255 {
            255u8
        } else {
            q as u8
        }
    }
}

/// Computes the perceptual brightness of a pixel.
pub fn rgba_to_brightness(rgba: &Pixel) -> (brightness: u8)
    ensures
        brightness == brightness_spec(*rgba),
{
    if rgba.a == 0 {
        0
    } else {
        let r: u32 = rgba.r as u32;
        let g: u32 = rgba.g as u32;
        let b: u32 = rgba.b as u32;
        let a: u32 = rgba.a as u32;
        assert(21 * r * a <= 21 * 255 * 255 && 72 * g * a <= 72 * 255 * 255)
            by (nonlinear_arith)
            requires
                r <= 255,
                g <= 255,
                a <= 255,
        ;
        let numerator: u32 = 21 * r * a + 72 * g * a + 1785 * b;
        let denominator: u32 = 100 * a;
        let q: u32 = numerator / denominator;
        if q > 255 {
            255
        } else {
            q as u8
        }
    }
}

} // verus!
