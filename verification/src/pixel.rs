//! The colour of one LED and the fading primitive shared by the generators.

use vstd::prelude::*;

verus! {

/// One LED colour: red, green and blue, eight bits each.
#[derive(Clone, Copy, Debug, PartialEq, Eq, Structural)]
pub struct Pixel {
    pub r: u8,
    pub g: u8,
    pub b: u8,
}

/// A channel value lowered by `amount`, stopping at zero.
pub open spec fn lowered(value: u8, amount: u8) -> u8 {
    if value >= amount {
        (value - amount) as u8
    } else {
        0
    }
}

/// A whole frame with every pixel faded by `amount`.
pub open spec fn faded_frame(frame: Seq<Pixel>, amount: u8) -> Seq<Pixel> {
    Seq::new(frame.len(), |i: int| frame[i].faded(amount))
}

impl Pixel {
    /// The colour written as a 24-bit code `0xRRGGBB`; higher bits are ignored.
    pub open spec fn from_code(code: u32) -> Pixel {
        Pixel {
            r: (code / 0x1_0000 % 0x100) as u8,
            g: (code / 0x100 % 0x100) as u8,
            b: (code % 0x100) as u8,
        }
    }

    /// The pixel with each channel lowered by `amount`, stopping at zero.
    pub open spec fn faded(self, amount: u8) -> Pixel {
        Pixel {
            r: lowered(self.r, amount),
            g: lowered(self.g, amount),
            b: lowered(self.b, amount),
        }
    }

    /// Decodes a 24-bit colour code `0xRRGGBB`.
    pub fn from_hex(code: u32) -> (pixel: Pixel)
        ensures
            pixel == Pixel::from_code(code),
    {
        Pixel {
            r: (code / 0x1_0000 % 0x100) as u8,
            g: (code / 0x100 % 0x100) as u8,
            b: (code % 0x100) as u8,
        }
    }

    /// Fades the pixel by `amount` on every channel, saturating at zero.
    pub fn fade(self, amount: u8) -> (pixel: Pixel)
        ensures
            pixel == self.faded(amount),
    {
        Pixel {
            r: self.r.saturating_sub(amount),
            g: self.g.saturating_sub(amount),
            b: self.b.saturating_sub(amount),
        }
    }
}

/// Fades every pixel of the frame in place.
pub fn fade_all(data: &mut [Pixel], amount: u8)
    ensures
        final(data)@ == faded_frame(old(data)@, amount),
{
    let n: usize = data.len();
    let mut i: usize = 0;
    while i < n
        invariant
            i <= n,
            n == old(data)@.len(),
            data@.len() == n,
            forall|j: int| 0 <= j < i ==> data@[j] == old(data)@[j].faded(amount),
            forall|j: int| i <= j < n ==> data@[j] == old(data)@[j],
        decreases n - i,
    {
        let pixel = data[i];
        data[i] = pixel.fade(amount);
        i += 1;
    }
    assert(data@ =~= faded_frame(old(data)@, amount));
}

/// Sets every pixel of the frame to `color`.
pub fn paint(data: &mut [Pixel], color: Pixel)
    ensures
        final(data)@ == Seq::new(old(data)@.len(), |i: int| color),
{
    let n: usize = data.len();
    let mut i: usize = 0;
    while i < n
        invariant
            i <= n,
            n == old(data)@.len(),
            data@.len() == n,
            forall|j: int| 0 <= j < i ==> data@[j] == color,
        decreases n - i,
    {
        data[i] = color;
        i += 1;
    }
    assert(data@ =~= Seq::new(old(data)@.len(), |i: int| color));
}

} // verus!
