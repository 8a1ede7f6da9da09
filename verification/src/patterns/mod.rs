//! The pattern generators and what they share: the pattern identity and the
//! hue wheel.

use vstd::prelude::*;
use crate::pixel::Pixel;

pub mod alternating;
pub mod breathe;
pub mod rainbow;
pub mod rainbow_comet;
pub mod twinkle;

verus! {

/// Which generator is rendering. The patterns form a cycle in the order
/// they are listed, the last one leading back to the first.
#[derive(Clone, Copy, Debug, PartialEq, Eq, Structural)]
pub enum Pattern {
    Rainbow,
    Twinkle,
    Breathe,
    Alternating,
    RainbowComet,
}

impl Pattern {
    /// The pattern that follows in the cycle.
    pub open spec fn successor(self) -> Pattern {
        match self {
            Pattern::Rainbow => Pattern::Twinkle,
            Pattern::Twinkle => Pattern::Breathe,
            Pattern::Breathe => Pattern::Alternating,
            Pattern::Alternating => Pattern::RainbowComet,
            Pattern::RainbowComet => Pattern::Rainbow,
        }
    }

    /// The time between two frames of the pattern, in milliseconds.
    pub open spec fn period_ms(self) -> u64 {
        match self {
            Pattern::Rainbow => rainbow::DURATION_MS,
            Pattern::Twinkle => twinkle::DURATION_MS,
            Pattern::Breathe => breathe::DURATION_MS,
            Pattern::Alternating => alternating::DURATION_MS,
            Pattern::RainbowComet => rainbow_comet::DURATION_MS,
        }
    }

    /// The pattern after `steps` advances.
    pub open spec fn advanced(self, steps: nat) -> Pattern
        decreases steps,
    {
        if steps == 0 {
            self
        } else {
            self.advanced((steps - 1) as nat).successor()
        }
    }

    /// Advances to the next pattern in the cycle; the last wraps to the first.
    pub fn next(self) -> (pattern: Pattern)
        ensures
            pattern == self.successor(),
    {
        match self {
            Pattern::Rainbow => Pattern::Twinkle,
            Pattern::Twinkle => Pattern::Breathe,
            Pattern::Breathe => Pattern::Alternating,
            Pattern::Alternating => Pattern::RainbowComet,
            Pattern::RainbowComet => Pattern::Rainbow,
        }
    }

    /// The frame period that the pattern asks for, in milliseconds.
    pub fn duration_ms(self) -> (period: u64)
        ensures
            period == self.period_ms(),
    {
        match self {
            Pattern::Rainbow => rainbow::DURATION_MS,
            Pattern::Twinkle => twinkle::DURATION_MS,
            Pattern::Breathe => breathe::DURATION_MS,
            Pattern::Alternating => alternating::DURATION_MS,
            Pattern::RainbowComet => rainbow_comet::DURATION_MS,
        }
    }
}

/// The cycle has five patterns: five advances lead back to where they
/// started, and fewer do not.
pub proof fn lemma_pattern_cycle(pattern: Pattern, steps: nat)
    ensures
        pattern.advanced(5) == pattern,
        0 < steps < 5 ==> pattern.advanced(steps) != pattern,
{
    reveal_with_fuel(Pattern::advanced, 6);
}

/// The hue wheel: three linear ramps that lead from red (0) over green (85)
/// and blue (170) back to red.
pub open spec fn wheel_color(wheel_pos: u8) -> Pixel {
    let pos = 255 - wheel_pos;
    if pos < 85 {
        Pixel { r: (255 - pos * 3) as u8, g: 0, b: (pos * 3) as u8 }
    } else if pos < 170 {
        Pixel { r: 0, g: ((pos - 85) * 3) as u8, b: (255 - (pos - 85) * 3) as u8 }
    } else {
        Pixel { r: ((pos - 170) * 3) as u8, g: (255 - (pos - 170) * 3) as u8, b: 0 }
    }
}

/// Maps a position on the hue wheel to its colour.
pub fn wheel(wheel_pos: u8) -> (color: Pixel)
    ensures
        color == wheel_color(wheel_pos),
{
    let pos: u8 = 255 - wheel_pos;
    if pos < 85 {
        Pixel { r: 255 - pos * 3, g: 0, b: pos * 3 }
    } else if pos < 170 {
        let ramp: u8 = pos - 85;
        Pixel { r: 0, g: ramp * 3, b: 255 - ramp * 3 }
    } else {
        let ramp: u8 = pos - 170;
        Pixel { r: ramp * 3, g: 255 - ramp * 3, b: 0 }
    }
}

} // verus!
