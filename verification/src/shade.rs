//! Brightness scaling and gamma correction, as the `smart_leds` crate
//! computes them.

use vstd::prelude::*;
use crate::pixel::Pixel;

verus! {

/// A channel value at brightness `level`: `value * (level + 1) / 256`,
/// rounded down, so that level 255 leaves it as it is.
pub open spec fn scaled_channel(value: u8, level: u8) -> u8 {
    (value * (level + 1) / 256) as u8
}

/// A pixel with every channel scaled to brightness `level`.
pub open spec fn scaled(pixel: Pixel, level: u8) -> Pixel {
    Pixel {
        r: scaled_channel(pixel.r, level),
        g: scaled_channel(pixel.g, level),
        b: scaled_channel(pixel.b, level),
    }
}

/// The entry of the gamma table of `smart_leds` for a linear channel value.
pub uninterp spec fn gamma8(value: u8) -> u8;

/// A pixel with every channel sent through the gamma table.
pub open spec fn gamma_corrected(pixel: Pixel) -> Pixel {
    Pixel { r: gamma8(pixel.r), g: gamma8(pixel.g), b: gamma8(pixel.b) }
}

/// Runs the frame through `smart_leds::brightness`. Trusted: every channel of
/// every pixel comes back as `value * (level + 1) / 256`, which is what the
/// adaptor's `next` computes in sixteen bits.
#[verifier::external_body]
pub(crate) fn brightness(data: &mut [Pixel], level: u8)
    ensures
        final(data)@ == Seq::new(old(data)@.len(), |i: int| scaled(old(data)@[i], level)),
{
    let source: Vec<smart_leds::RGB8> =
        data.iter().map(|p| smart_leds::RGB8 { r: p.r, g: p.g, b: p.b }).collect();
    for (pixel, c) in data.iter_mut().zip(smart_leds::brightness(source.into_iter(), level)) {
        *pixel = Pixel { r: c.r, g: c.g, b: c.b };
    }
}

/// Runs the frame through `smart_leds::gamma`. Trusted: every channel of
/// every pixel comes back as the entry of the crate's gamma table at the
/// channel's value, the same table for red, green and blue.
#[verifier::external_body]
pub(crate) fn gamma(data: &mut [Pixel])
    ensures
        final(data)@.len() == old(data)@.len(),
        forall|i: int|
            0 <= i < old(data)@.len() ==> {
                &&& (#[trigger] final(data)@[i]).r == gamma8(old(data)@[i].r)
                &&& final(data)@[i].g == gamma8(old(data)@[i].g)
                &&& final(data)@[i].b == gamma8(old(data)@[i].b)
            },
{
    let source: Vec<smart_leds::RGB8> =
        data.iter().map(|p| smart_leds::RGB8 { r: p.r, g: p.g, b: p.b }).collect();
    for (pixel, c) in data.iter_mut().zip(smart_leds::gamma(source.into_iter())) {
        *pixel = Pixel { r: c.r, g: c.g, b: c.b };
    }
}

} // verus!
