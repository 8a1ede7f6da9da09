//! The strip fades steadily while a few pixels, picked by random bytes,
//! light up in random hues.

use vstd::prelude::*;
use crate::pixel::{Pixel, fade_all, faded_frame};
use super::{wheel, wheel_color};

verus! {

/// Frame period, in milliseconds.
pub const DURATION_MS: u64 = 2;

/// How much every channel is lowered per frame.
pub const FADE_AMOUNT: u8 = 8;

/// Number of random bytes that one frame uses: two for each sparkle.
pub const RANDOM_BYTES: usize = 10;

/// The pixel that the `k`-th pair of random bytes picks on a strip of `len`
/// pixels: the pair's first byte modulo the length.
pub open spec fn sparkle_index(bytes: Seq<u8>, k: int, len: nat) -> int {
    bytes[2 * k] as int % len as int
}

/// The wheel colour that the `k`-th pair sets: the pair's second byte.
pub open spec fn sparkle_color(bytes: Seq<u8>, k: int) -> Pixel {
    wheel_color(bytes[2 * k + 1])
}

/// The frame after the first `count` pairs have each set their pixel, in
/// order. An empty strip has no pixel to set.
pub open spec fn sparkled(frame: Seq<Pixel>, bytes: Seq<u8>, count: nat) -> Seq<Pixel>
    decreases count,
{
    if count == 0 || frame.len() == 0 {
        frame
    } else {
        sparkled(frame, bytes, (count - 1) as nat).update(
            sparkle_index(bytes, count - 1, frame.len()),
            sparkle_color(bytes, count - 1),
        )
    }
}

/// The frame that follows `before` with the given random bytes: everything
/// faded, then one sparkle for each whole pair of bytes.
pub open spec fn twinkle_frame(before: Seq<Pixel>, bytes: Seq<u8>) -> Seq<Pixel> {
    sparkled(faded_frame(before, FADE_AMOUNT), bytes, bytes.len() / 2)
}

/// Whether one of the first `count` pairs picks pixel `index`.
pub open spec fn sparkle_selects(bytes: Seq<u8>, count: nat, len: nat, index: int) -> bool {
    exists|k: int| 0 <= k < count && #[trigger] sparkle_index(bytes, k, len) == index
}

/// Sparkles keep the length of the frame, leave alone every pixel that no
/// pair picks, and give every other pixel the colour of a pair that picks it.
pub proof fn lemma_sparkled(frame: Seq<Pixel>, bytes: Seq<u8>, count: nat)
    requires
        2 * count <= bytes.len(),
    ensures
        sparkled(frame, bytes, count).len() == frame.len(),
        forall|i: int|
            0 <= i < frame.len() && !sparkle_selects(bytes, count, frame.len(), i) ==> (
            #[trigger] sparkled(frame, bytes, count)[i]) == frame[i],
        forall|i: int|
            #![trigger sparkle_selects(bytes, count, frame.len(), i)]
            0 <= i < frame.len() && sparkle_selects(bytes, count, frame.len(), i) ==> exists|
                k: int,
            |
                #![trigger sparkle_color(bytes, k)]
                0 <= k < count && sparkle_index(bytes, k, frame.len()) == i && sparkled(
                    frame,
                    bytes,
                    count,
                )[i] == sparkle_color(bytes, k),
    decreases count,
{
    if count > 0 && frame.len() > 0 {
        let len = frame.len();
        let earlier = (count - 1) as nat;
        lemma_sparkled(frame, bytes, earlier);
        let picked = sparkle_index(bytes, count - 1, len);
        assert(0 <= picked < len);
        assert forall|i: int| 0 <= i < len && !sparkle_selects(bytes, count, len, i) implies (
        #[trigger] sparkled(frame, bytes, count)[i]) == frame[i] by {
            assert(picked != i);
            assert(!sparkle_selects(bytes, earlier, len, i)) by {
                if sparkle_selects(bytes, earlier, len, i) {
                    let k = choose|k: int|
                        0 <= k < earlier && #[trigger] sparkle_index(bytes, k, len) == i;
                    assert(0 <= k < count && sparkle_index(bytes, k, len) == i);
                }
            }
        }
        assert forall|i: int|
            #![trigger sparkle_selects(bytes, count, len, i)]
            0 <= i < len && sparkle_selects(bytes, count, len, i) implies exists|k: int|
            #![trigger sparkle_color(bytes, k)]
            0 <= k < count && sparkle_index(bytes, k, len) == i && sparkled(frame, bytes, count)[i]
                == sparkle_color(bytes, k) by {
            if picked == i {
                assert(sparkled(frame, bytes, count)[i] == sparkle_color(bytes, count - 1));
            } else {
                let k = choose|k: int|
                    0 <= k < count && #[trigger] sparkle_index(bytes, k, len) == i;
                assert(k < earlier);
                assert(sparkle_selects(bytes, earlier, len, i));
                assert(sparkled(frame, bytes, count)[i] == sparkled(frame, bytes, earlier)[i]);
                let j = choose|j: int|
                    #![trigger sparkle_color(bytes, j)]
                    0 <= j < earlier && sparkle_index(bytes, j, len) == i && sparkled(
                        frame,
                        bytes,
                        earlier,
                    )[i] == sparkle_color(bytes, j);
                assert(sparkled(frame, bytes, count)[i] == sparkle_color(bytes, j));
            }
        }
    }
}

/// Renders one frame: fades every pixel, then for each pair of random bytes
/// sets the pixel at the first byte modulo the strip's length to the wheel
/// colour at the second byte. A byte left over at the end is not used. So
/// a pixel that no pair picks is faded, and one that a pair picks holds the
/// wheel colour of such a pair.
pub fn generate(data: &mut [Pixel], random_bytes: &[u8])
    ensures
        final(data)@ == twinkle_frame(old(data)@, random_bytes@),
        final(data)@.len() == old(data)@.len(),
        forall|i: int|
            0 <= i < old(data)@.len() && !sparkle_selects(
                random_bytes@,
                random_bytes@.len() / 2,
                old(data)@.len(),
                i,
            ) ==> (#[trigger] final(data)@[i]) == old(data)@[i].faded(FADE_AMOUNT),
        forall|i: int|
            #![trigger sparkle_selects(random_bytes@, random_bytes@.len() / 2, old(data)@.len(), i)]
            0 <= i < old(data)@.len() && sparkle_selects(
                random_bytes@,
                random_bytes@.len() / 2,
                old(data)@.len(),
                i,
            ) ==> exists|k: int|
                #![trigger sparkle_color(random_bytes@, k)]
                0 <= k < random_bytes@.len() / 2 && sparkle_index(
                    random_bytes@,
                    k,
                    old(data)@.len(),
                ) == i && final(data)@[i] == sparkle_color(random_bytes@, k),
{
    fade_all(data, FADE_AMOUNT);
    let len: usize = data.len();
    let pairs: usize = random_bytes.len() / 2;
    let ghost faded = data@;
    let mut k: usize = 0;
    while k < pairs
        invariant
            k <= pairs,
            pairs == random_bytes@.len() / 2,
            2 * pairs <= random_bytes@.len() <= usize::MAX,
            len == faded.len(),
            data@.len() == len,
            data@ == sparkled(faded, random_bytes@, k as nat),
        decreases pairs - k,
    {
        if len > 0 {
            let led_index: usize = random_bytes[2 * k] as usize % len;
            data[led_index] = wheel(random_bytes[2 * k + 1]);
        }
        k += 1;
    }
    proof {
        lemma_sparkled(faded, random_bytes@, pairs as nat);
    }
}

/// The fading law: a pixel that no pair of random bytes picks comes out of
/// the frame with every channel lowered by the fade amount, no lower than 0,
/// and so never above what it was.
pub proof fn lemma_twinkle_unselected_fades(before: Seq<Pixel>, bytes: Seq<u8>, index: int)
    requires
        0 <= index < before.len(),
        !sparkle_selects(bytes, bytes.len() / 2, before.len(), index),
    ensures
        twinkle_frame(before, bytes)[index] == before[index].faded(FADE_AMOUNT),
        twinkle_frame(before, bytes)[index].r <= before[index].r,
        twinkle_frame(before, bytes)[index].g <= before[index].g,
        twinkle_frame(before, bytes)[index].b <= before[index].b,
        twinkle_frame(before, bytes)[index].r == if before[index].r >= FADE_AMOUNT {
            before[index].r - FADE_AMOUNT
        } else {
            0
        },
{
    lemma_sparkled(faded_frame(before, FADE_AMOUNT), bytes, bytes.len() / 2);
}

} // verus!
