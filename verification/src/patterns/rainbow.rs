//! The hue wheel spread over the strip, turning by one step per frame.

use vstd::prelude::*;
use vstd::arithmetic::div_mod::{
    lemma_add_mod_noop, lemma_basic_div, lemma_div_is_ordered_by_denominator, lemma_mod_twice,
};
use crate::pixel::Pixel;
use super::{wheel, wheel_color};

verus! {

/// Frame period, in milliseconds.
pub const DURATION_MS: u64 = 10;

/// The hue distance between neighbouring pixels of a strip of `len` pixels:
/// `256 / len`, rounded down.
pub open spec fn hue_stride(len: nat) -> int {
    if len == 0 {
        0
    } else {
        256int / len as int
    }
}

/// The wheel position of pixel `index` at frame counter `counter`.
pub open spec fn rainbow_hue(index: int, stride: int, counter: int) -> int {
    (index * stride + counter) % 256
}

/// The colour of pixel `index` of a strip of `len` pixels at `counter`.
pub open spec fn rainbow_pixel(index: int, len: nat, counter: u16) -> Pixel {
    wheel_color(rainbow_hue(index, hue_stride(len), counter as int) as u8)
}

/// The whole frame at `counter`.
pub open spec fn rainbow_frame(len: nat, counter: u16) -> Seq<Pixel> {
    Seq::new(len, |i: int| rainbow_pixel(i, len, counter))
}

/// Renders one frame: advances the counter by one, wrapping, and sets each
/// pixel to the wheel colour at its index times the stride plus the counter.
pub fn generate(data: &mut [Pixel], counter: &mut u16)
    ensures
        *final(counter) == old(counter).wrapping_add(1),
        final(data)@ == rainbow_frame(old(data)@.len(), *final(counter)),
{
    *counter = counter.wrapping_add(1);
    let turn: usize = (*counter % 256) as usize;
    let len: usize = data.len();
    let stride: usize = if len == 0 || len > 256 {
        proof {
            if len > 256 {
                lemma_basic_div(256, len as int);
            }
        }
        0
    } else {
        proof {
            lemma_div_is_ordered_by_denominator(256, 1, len as int);
        }
        256 / len
    };
    let mut i: usize = 0;
    while i < len
        invariant
            i <= len,
            len == old(data)@.len(),
            data@.len() == len,
            stride == hue_stride(len as nat),
            stride <= 256,
            stride != 0 ==> len <= 256,
            turn == *counter as int % 256,
            forall|j: int| 0 <= j < i ==> data@[j] == rainbow_pixel(j, len as nat, *counter),
        decreases len - i,
    {
        let offset: usize = if stride == 0 {
            0
        } else {
            assert(i * stride <= 255 * 256) by (nonlinear_arith)
                requires
                    i <= 255,
                    stride <= 256,
            ;
            i * stride
        };
        let wheel_pos: usize = (offset + turn) % 256;
        proof {
            assert(offset == i * stride) by (nonlinear_arith)
                requires
                    offset == if stride == 0 {
                        0
                    } else {
                        i * stride
                    },
            ;
            lemma_add_mod_noop(offset as int, *counter as int, 256);
            lemma_add_mod_noop(offset as int, turn as int, 256);
            lemma_mod_twice(*counter as int, 256);
            assert(wheel_pos == rainbow_hue(i as int, stride as int, *counter as int));
        }
        data[i] = wheel(wheel_pos as u8);
        i += 1;
    }
    assert(data@ =~= rainbow_frame(old(data)@.len(), *counter));
}

/// The colour of a pixel depends on its index and on the frame counter only
/// through the residue of `index * stride + counter` modulo 256: two pixels,
/// in whatever frames, with the same residue have the same colour.
pub proof fn lemma_rainbow_hue_by_residue(
    index: nat,
    counter: u16,
    other_index: nat,
    other_counter: u16,
    len: nat,
)
    requires
        (index * hue_stride(len) + counter) % 256 == (other_index * hue_stride(len)
            + other_counter) % 256,
    ensures
        rainbow_pixel(index as int, len, counter) == rainbow_pixel(
            other_index as int,
            len,
            other_counter,
        ),
{
}

} // verus!
