//! A lit segment in the colour of a turning hue wheel that runs to and fro
//! between the two ends of the strip and leaves a fading trail.

use vstd::prelude::*;
use vstd::arithmetic::div_mod::{
    lemma_add_mod_noop, lemma_fundamental_div_mod_converse, lemma_small_mod,
};
use crate::pixel::{Pixel, fade_all};
use super::{wheel, wheel_color};

verus! {

/// Frame period, in milliseconds.
pub const DURATION_MS: u64 = 50;

/// How much every channel is lowered per frame.
pub const FADE_AMOUNT: u8 = 32;

/// Length of the comet, in pixels, unless another is asked for.
pub const COMET_SIZE: usize = 10;

/// The way the comet is heading: `Forward` towards higher indices.
#[derive(Clone, Copy, Debug, PartialEq, Eq, Structural)]
pub enum CometDirection {
    Forward,
    Reverse,
}

/// What a `CometState` holds, as plain values.
pub struct CometModel {
    pub direction: CometDirection,
    pub size: usize,
    pub position: usize,
    pub hue: u8,
    pub shift: u8,
}

/// The comet's progress, kept from frame to frame.
pub struct CometState {
    direction: CometDirection,
    comet_size: usize,
    comet_pos: usize,
    color_pos: u8,
    color_shift: u8,
}

impl View for CometState {
    type V = CometModel;

    closed spec fn view(&self) -> CometModel {
        CometModel {
            direction: self.direction,
            size: self.comet_size,
            position: self.comet_pos,
            hue: self.color_pos,
            shift: self.color_shift,
        }
    }
}

/// The index of the last pixel of a strip of `len` pixels; 0 for an empty one.
pub open spec fn last_index(len: nat) -> nat {
    if len == 0 {
        0
    } else {
        (len - 1) as nat
    }
}

/// The hue step that spreads the wheel over a comet of `size` pixels, at
/// least 1.
pub open spec fn hue_shift(size: usize) -> u8 {
    if size == 0 || size > 255 {
        1
    } else {
        (255int / size as int) as u8
    }
}

/// A comet of `size` pixels at index 1, heading forward, at hue 0.
pub open spec fn comet_start(size: usize) -> CometModel {
    CometModel {
        direction: CometDirection::Forward,
        size,
        position: 1,
        hue: 0,
        shift: hue_shift(size),
    }
}

/// The heading for the next move: forward from index 0, back from the last
/// index, unchanged in between.
pub open spec fn comet_heading(s: CometModel, len: nat) -> CometDirection {
    if s.position == 0 {
        CometDirection::Forward
    } else if s.position == last_index(len) {
        CometDirection::Reverse
    } else {
        s.direction
    }
}

/// The state one frame later on a strip of `len` pixels: the comet turns at
/// either end, moves one pixel, and its hue advances by the shift, wrapping.
pub open spec fn comet_step(s: CometModel, len: nat) -> CometModel {
    let direction = comet_heading(s, len);
    CometModel {
        direction,
        size: s.size,
        position: match direction {
            CometDirection::Forward => s.position.saturating_add(1),
            CometDirection::Reverse => s.position.saturating_sub(1),
        },
        hue: s.hue.wrapping_add(s.shift),
        shift: s.shift,
    }
}

/// Whether the comet in state `s` covers pixel `index`: the `size` pixels
/// that end at its position, behind it as it moves.
pub open spec fn comet_covers(s: CometModel, index: int) -> bool {
    match s.direction {
        CometDirection::Forward => index <= s.position && s.position - index < s.size,
        CometDirection::Reverse => s.position <= index && index - s.position < s.size,
    }
}

/// The frame that follows `before` once the comet has reached state `s`:
/// the comet's pixels in its hue, all others faded.
pub open spec fn comet_frame(before: Seq<Pixel>, s: CometModel) -> Seq<Pixel> {
    Seq::new(
        before.len(),
        |i: int|
            if comet_covers(s, i) {
                wheel_color(s.hue)
            } else {
                before[i].faded(FADE_AMOUNT)
            },
    )
}

impl CometState {
    /// A comet of `comet_size` pixels at index 1, heading forward.
    pub fn with_size(comet_size: usize) -> (state: CometState)
        ensures
            state@ == comet_start(comet_size),
    {
        let color_shift: u8 = if comet_size == 0 || comet_size > 255 {
            1
        } else {
            (255 / comet_size) as u8
        };
        CometState {
            direction: CometDirection::Forward,
            comet_size,
            comet_pos: 1,
            color_pos: 0,
            color_shift,
        }
    }

    /// The way the comet is heading.
    pub fn direction(&self) -> (direction: CometDirection)
        ensures
            direction == self@.direction,
    {
        self.direction
    }

    /// Length of the comet, in pixels.
    pub fn comet_size(&self) -> (size: usize)
        ensures
            size == self@.size,
    {
        self.comet_size
    }

    /// Index of the comet's head.
    pub fn comet_pos(&self) -> (position: usize)
        ensures
            position == self@.position,
    {
        self.comet_pos
    }

    /// The comet's position on the hue wheel.
    pub fn color_pos(&self) -> (hue: u8)
        ensures
            hue == self@.hue,
    {
        self.color_pos
    }

    /// How far the hue moves per frame.
    pub fn color_shift(&self) -> (shift: u8)
        ensures
            shift == self@.shift,
    {
        self.color_shift
    }
}

impl Default for CometState {
    fn default() -> (state: CometState)
        ensures
            state@ == comet_start(COMET_SIZE),
    {
        CometState::with_size(COMET_SIZE)
    }
}

/// Renders one frame: fades the strip, moves the comet one pixel, turning it
/// at either end, advances its hue and draws it, clipped to the strip.
pub fn generate(data: &mut [Pixel], state: &mut CometState)
    ensures
        final(state)@ == comet_step(old(state)@, old(data)@.len()),
        final(data)@ == comet_frame(old(data)@, final(state)@),
{
    let len: usize = data.len();
    if state.comet_pos == 0 {
        state.direction = CometDirection::Forward;
    } else if state.comet_pos == len.saturating_sub(1) {
        state.direction = CometDirection::Reverse;
    }
    match state.direction {
        CometDirection::Forward => {
            state.comet_pos = state.comet_pos.saturating_add(1);
        },
        CometDirection::Reverse => {
            state.comet_pos = state.comet_pos.saturating_sub(1);
        },
    }
    fade_all(data, FADE_AMOUNT);
    state.color_pos = state.color_pos.wrapping_add(state.color_shift);

    let color = wheel(state.color_pos);
    let direction = state.direction;
    let position: usize = state.comet_pos;
    let size: usize = state.comet_size;
    let ghost reached = state@;
    let mut i: usize = 0;
    while i < size
        invariant
            i <= size,
            len == old(data)@.len(),
            data@.len() == len,
            color == wheel_color(reached.hue),
            reached.direction == direction,
            reached.position == position,
            reached.size == size,
            forall|j: int|
                0 <= j < len ==> data@[j] == if comet_covers(
                    CometModel { size: i, ..reached },
                    j,
                ) {
                    color
                } else {
                    old(data)@[j].faded(FADE_AMOUNT)
                },
        decreases size - i,
    {
        let index: usize = match direction {
            CometDirection::Forward => position.saturating_sub(i),
            CometDirection::Reverse => position.saturating_add(i),
        };
        if index < len {
            data[index] = color;
        }
        i += 1;
    }
    assert(data@ =~= comet_frame(old(data)@, reached));
}

/// Where the comet stands on its round trip over a strip of `len` pixels:
/// 0 at the first pixel, `len - 1` at the last, and on to `2 * (len - 1)` on
/// the way back.
pub open spec fn comet_phase(s: CometModel, len: nat) -> int {
    if s.position == 0 {
        0
    } else if s.position == len - 1 {
        len - 1
    } else if s.direction == CometDirection::Forward {
        s.position as int
    } else {
        2 * (len - 1) - s.position
    }
}

/// The position that belongs to a phase of the round trip.
pub open spec fn bounce_position(phase: int, len: nat) -> int {
    if phase <= len - 1 {
        phase
    } else {
        2 * (len - 1) - phase
    }
}

/// The state after `frames` more frames.
pub open spec fn comet_after(s: CometModel, len: nat, frames: nat) -> CometModel
    decreases frames,
{
    if frames == 0 {
        s
    } else {
        comet_step(comet_after(s, len, (frames - 1) as nat), len)
    }
}

/// On a strip of at least two pixels a comet that is on the strip stays on
/// it: each frame moves it by exactly one pixel, up while it heads forward
/// and down while it heads back, and it heads forward after index 0 and back
/// after the last index.
pub proof fn lemma_comet_moves_one_pixel(s: CometModel, len: nat)
    requires
        2 <= len <= usize::MAX,
        s.position <= len - 1,
    ensures
        comet_step(s, len).position <= len - 1,
        comet_step(s, len).direction == CometDirection::Forward ==> comet_step(s, len).position
            == s.position + 1,
        comet_step(s, len).direction == CometDirection::Reverse ==> comet_step(s, len).position
            == s.position - 1,
        s.position == 0 ==> comet_step(s, len).direction == CometDirection::Forward,
        s.position == len - 1 ==> comet_step(s, len).direction == CometDirection::Reverse,
        0 < s.position < len - 1 ==> comet_step(s, len).direction == s.direction,
{
}

/// One frame moves the comet one phase further on its round trip, and its
/// position is the one that belongs to the phase.
pub proof fn lemma_comet_step_phase(s: CometModel, len: nat)
    requires
        2 <= len <= usize::MAX,
        s.position <= len - 1,
    ensures
        comet_phase(comet_step(s, len), len) == (comet_phase(s, len) + 1) % (2 * (len - 1)),
        0 <= comet_phase(s, len) < 2 * (len - 1),
        s.position == bounce_position(comet_phase(s, len), len),
{
    let period = 2 * (len - 1);
    let phase = comet_phase(s, len);
    let next = comet_phase(comet_step(s, len), len);
    if phase + 1 < period {
        assert(next == phase + 1);
        lemma_fundamental_div_mod_converse(phase + 1, period, 0, next);
    } else {
        assert(next == 0);
        lemma_fundamental_div_mod_converse(phase + 1, period, 1, 0);
    }
}

/// The bouncing law: on a strip of at least two pixels, a comet that is on
/// the strip runs up to the last pixel, back down to the first, and so on
/// for ever. After any number of frames its position is the one that
/// belongs to its phase, which has advanced by one per frame around the
/// round trip of `2 * (len - 1)` frames.
pub proof fn lemma_comet_bounces(s: CometModel, len: nat, frames: nat)
    requires
        2 <= len <= usize::MAX,
        s.position <= len - 1,
    ensures
        comet_after(s, len, frames).position <= len - 1,
        comet_phase(comet_after(s, len, frames), len) == (comet_phase(s, len) + frames) % (2 * (
            len - 1)),
        comet_after(s, len, frames).position == bounce_position(
            (comet_phase(s, len) + frames) % (2 * (len - 1)),
            len,
        ),
    decreases frames,
{
    let period = 2 * (len - 1);
    if frames == 0 {
        lemma_comet_step_phase(s, len);
        lemma_fundamental_div_mod_converse(comet_phase(s, len), period, 0, comet_phase(s, len));
    } else {
        let before = comet_after(s, len, (frames - 1) as nat);
        lemma_comet_bounces(s, len, (frames - 1) as nat);
        lemma_comet_step_phase(before, len);
        lemma_comet_step_phase(comet_step(before, len), len);
        lemma_add_mod_noop(comet_phase(s, len) + frames - 1, 1, period);
        lemma_small_mod(1, period as nat);
    }
}

} // verus!
