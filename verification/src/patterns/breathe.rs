//! The whole strip breathes in one colour of a palette: it fades in to full
//! brightness and out again, and takes the next colour when it is dark.

use vstd::prelude::*;
use crate::colors::{
    BLUE, CHARTREUSE, CRIMSON, CYAN, DARK_MAGENTA, DARK_ORANGE, DARK_TURQUOISE, DARK_VIOLET,
    DEEP_PINK, DEEP_SKY_BLUE, FUCHSIA, GOLD, GREEN, HOT_PINK, INDIGO, LIME, MEDIUM_BLUE,
    MEDIUM_VIOLET_RED, ORANGE_RED, RED, TEAL, TOMATO, YELLOW,
};
use crate::pixel::{Pixel, paint};
use crate::shade::{brightness, gamma, gamma_corrected, scaled};

verus! {

/// Frame period, in milliseconds.
pub const DURATION_MS: u64 = 8;

/// How far the brightness moves per frame.
pub const FADE_AMOUNT: u8 = 1;

/// Number of colours in the palette.
pub const PALETTE_LEN: usize = 23;

/// The colours, in the order in which the strip takes them.
pub const COLOR_PALETTE: [u32; 23] = [
    RED,
    ORANGE_RED,
    TOMATO,
    DARK_ORANGE,
    GOLD,
    YELLOW,
    CHARTREUSE,
    LIME,
    GREEN,
    TEAL,
    DARK_TURQUOISE,
    CYAN,
    DEEP_SKY_BLUE,
    MEDIUM_BLUE,
    BLUE,
    INDIGO,
    DARK_VIOLET,
    DARK_MAGENTA,
    MEDIUM_VIOLET_RED,
    FUCHSIA,
    DEEP_PINK,
    HOT_PINK,
    CRIMSON,
];

/// Whether the strip is getting brighter or darker.
#[derive(Clone, Copy, Debug, PartialEq, Eq, Structural)]
pub enum FadingDirection {
    FadingIn,
    FadingOut,
}

/// What a `FadingState` holds, as plain values. The colour is the palette's
/// entry at `palette_index`.
pub struct FadingModel {
    pub direction: FadingDirection,
    pub palette_index: usize,
    pub linear_step: u8,
}

/// The breathing cycle's progress, kept from frame to frame.
pub struct FadingState {
    direction: FadingDirection,
    target_color: Pixel,
    palette_index: usize,
    linear_step: u8,
}

/// The palette's colour at `index`.
pub open spec fn palette_color(index: int) -> Pixel
    recommends
        0 <= index < PALETTE_LEN,
{
    Pixel::from_code(COLOR_PALETTE@[index])
}

/// The first palette colour, dark, about to fade in.
pub open spec fn breathe_start() -> FadingModel {
    FadingModel { direction: FadingDirection::FadingIn, palette_index: 0, linear_step: 0 }
}

/// The state one frame later. Fading in, the brightness rises by the fade
/// amount and the direction turns at 255; fading out, it falls, and at 0 the
/// next palette colour is taken and the direction turns again.
pub open spec fn breathe_step(s: FadingModel) -> FadingModel {
    match s.direction {
        FadingDirection::FadingIn => {
            let step = s.linear_step.saturating_add(FADE_AMOUNT);
            FadingModel {
                direction: if step == 255 {
                    FadingDirection::FadingOut
                } else {
                    FadingDirection::FadingIn
                },
                palette_index: s.palette_index,
                linear_step: step,
            }
        },
        FadingDirection::FadingOut => {
            let step = s.linear_step.saturating_sub(FADE_AMOUNT);
            if step == 0 {
                FadingModel {
                    direction: FadingDirection::FadingIn,
                    palette_index: ((s.palette_index + 1) % PALETTE_LEN as int) as usize,
                    linear_step: 0,
                }
            } else {
                FadingModel {
                    direction: FadingDirection::FadingOut,
                    palette_index: s.palette_index,
                    linear_step: step,
                }
            }
        },
    }
}

/// The colour of every pixel in state `s`: the palette colour scaled to the
/// brightness step and then gamma corrected.
pub open spec fn breathe_color(s: FadingModel) -> Pixel {
    gamma_corrected(scaled(palette_color(s.palette_index as int), s.linear_step))
}

impl View for FadingState {
    type V = FadingModel;

    closed spec fn view(&self) -> FadingModel {
        FadingModel {
            direction: self.direction,
            palette_index: self.palette_index,
            linear_step: self.linear_step,
        }
    }
}

impl FadingState {
    #[verifier::type_invariant]
    spec fn well_formed(self) -> bool {
        &&& self.palette_index < PALETTE_LEN
        &&& self.target_color == palette_color(self.palette_index as int)
    }

    /// Moves the state on by one frame.
    pub fn advance(&mut self)
        ensures
            final(self)@ == breathe_step(old(self)@),
            final(self)@.palette_index < PALETTE_LEN,
    {
        proof {
            use_type_invariant(&*self);
        }
        match self.direction {
            FadingDirection::FadingIn => {
                self.linear_step = self.linear_step.saturating_add(FADE_AMOUNT);
                if self.linear_step == 255 {
                    self.direction = FadingDirection::FadingOut;
                }
            },
            FadingDirection::FadingOut => {
                self.linear_step = self.linear_step.saturating_sub(FADE_AMOUNT);
                if self.linear_step == 0 {
                    let next: usize = (self.palette_index + 1) % PALETTE_LEN;
                    *self = FadingState {
                        direction: FadingDirection::FadingIn,
                        target_color: Pixel::from_hex(COLOR_PALETTE[next]),
                        palette_index: next,
                        linear_step: 0,
                    };
                }
            },
        }
    }

    /// Whether the strip is getting brighter or darker.
    pub fn direction(&self) -> (direction: FadingDirection)
        ensures
            direction == self@.direction,
    {
        self.direction
    }

    /// The palette colour that the strip is breathing in.
    pub fn target_color(&self) -> (color: Pixel)
        ensures
            color == palette_color(self@.palette_index as int),
            self@.palette_index < PALETTE_LEN,
    {
        proof {
            use_type_invariant(self);
        }
        self.target_color
    }

    /// Where in the palette the colour stands.
    pub fn palette_index(&self) -> (index: usize)
        ensures
            index == self@.palette_index,
            index < PALETTE_LEN,
    {
        proof {
            use_type_invariant(self);
        }
        self.palette_index
    }

    /// The brightness, from 0 (dark) to 255 (full).
    pub fn linear_step(&self) -> (step: u8)
        ensures
            step == self@.linear_step,
    {
        self.linear_step
    }
}

impl Default for FadingState {
    fn default() -> (state: FadingState)
        ensures
            state@ == breathe_start(),
    {
        FadingState {
            direction: FadingDirection::FadingIn,
            target_color: Pixel::from_hex(COLOR_PALETTE[0]),
            palette_index: 0,
            linear_step: 0,
        }
    }
}

/// Renders one frame: moves the state on and sets every pixel to the
/// palette colour at the new brightness, gamma corrected.
pub fn generate(data: &mut [Pixel], state: &mut FadingState)
    ensures
        final(state)@ == breathe_step(old(state)@),
        final(state)@.palette_index < PALETTE_LEN,
        final(data)@ == Seq::new(old(data)@.len(), |i: int| breathe_color(final(state)@)),
{
    state.advance();
    let color = state.target_color();
    let level = state.linear_step();
    paint(data, color);
    brightness(data, level);
    gamma(data);
    assert(data@ =~= Seq::new(old(data)@.len(), |i: int| breathe_color(state@)));
}

/// The state after `frames` more frames.
pub open spec fn breathe_after(s: FadingModel, frames: nat) -> FadingModel
    decreases frames,
{
    if frames == 0 {
        s
    } else {
        breathe_step(breathe_after(s, (frames - 1) as nat))
    }
}

/// Number of frames in one breath: 255 up and 255 down.
pub open spec fn breath_frames() -> int {
    510
}

/// The triangle wave: the brightness that belongs to a frame of the breath,
/// rising from 0 to 255 and falling back.
pub open spec fn triangle(phase: int) -> int {
    if phase <= 255 {
        phase
    } else {
        breath_frames() - phase
    }
}

/// The breathing law: from a dark strip that is about to fade in, the
/// brightness follows the triangle wave, one step per frame, and so stays
/// between 0 and 255; the direction turns at the top and at the bottom; and
/// the palette index moves on by one, around the palette, exactly once per
/// breath, on the frame that brings the brightness back to 0.
pub proof fn lemma_breathe_triangle(palette_index: usize, frames: nat)
    requires
        palette_index < PALETTE_LEN,
    ensures
        ({
            let start = FadingModel {
                direction: FadingDirection::FadingIn,
                palette_index,
                linear_step: 0,
            };
            let reached = breathe_after(start, frames);
            &&& reached.linear_step == triangle(frames as int % breath_frames())
            &&& 0 <= triangle(frames as int % breath_frames()) <= 255
            &&& reached.palette_index == (palette_index + frames as int / breath_frames())
                % PALETTE_LEN as int
            &&& reached.direction == if frames as int % breath_frames() < 255 {
                FadingDirection::FadingIn
            } else {
                FadingDirection::FadingOut
            }
        }),
    decreases frames,
{
    if frames > 0 {
        lemma_breathe_triangle(palette_index, (frames - 1) as nat);
    }
}

} // verus!
