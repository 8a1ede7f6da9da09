//! The control loop: which pattern is active, and what a wake-up does.
//!
//! The loop sleeps until a signal arrives or the frame ticker fires. A
//! signal advances the active pattern and sets the ticker to the new
//! pattern's period; a tick renders one frame of the active pattern. Each
//! generator keeps its own state, which stays as it is while another
//! pattern is active.

use vstd::prelude::*;
use crate::clock::{now_ticks, ticks_per_second};
use crate::patterns::alternating::{
    AlternatingModel, AlternatingState, alternating_frame, alternating_start, alternating_step,
    cycle_period, cycle_ticks,
};
use crate::patterns::breathe::{
    FadingModel, FadingState, breathe_color, breathe_start, breathe_step,
};
use crate::patterns::rainbow::rainbow_frame;
use crate::patterns::rainbow_comet::{
    COMET_SIZE, CometModel, CometState, comet_frame, comet_start, comet_step,
};
use crate::patterns::twinkle::twinkle_frame;
use crate::patterns::{Pattern, alternating, breathe, rainbow, rainbow_comet, twinkle};
use crate::pixel::Pixel;

verus! {

/// What a `ControlLoop` holds, as plain values.
pub struct ControlModel {
    pub active_pattern: Pattern,
    pub rainbow_counter: u16,
    pub fading: FadingModel,
    pub alternating: AlternatingModel,
    pub comet: CometModel,
}

/// The active pattern and the state of every generator.
pub struct ControlLoop {
    active_pattern: Pattern,
    rainbow_counter: u16,
    fading_state: FadingState,
    alternating_state: AlternatingState,
    comet_state: CometState,
}

/// The state at start-up, at clock reading `now`: the rainbow is active and
/// every generator is at its beginning.
pub open spec fn control_start(now: u64) -> ControlModel {
    ControlModel {
        active_pattern: Pattern::Rainbow,
        rainbow_counter: 0,
        fading: breathe_start(),
        alternating: alternating_start(now),
        comet: comet_start(COMET_SIZE),
    }
}

/// The state after a signal: the next pattern is active, and no generator's
/// state has changed.
pub open spec fn control_advanced(s: ControlModel) -> ControlModel {
    ControlModel { active_pattern: s.active_pattern.successor(), ..s }
}

/// The state after a tick on a strip of `len` pixels at clock reading `now`:
/// the active pattern's generator has moved on by one frame, and no other.
pub open spec fn control_rendered(s: ControlModel, len: nat, now: u64, cycle: u64) -> ControlModel {
    match s.active_pattern {
        Pattern::Rainbow => ControlModel { rainbow_counter: s.rainbow_counter.wrapping_add(1), ..s },
        Pattern::Twinkle => s,
        Pattern::Breathe => ControlModel { fading: breathe_step(s.fading), ..s },
        Pattern::Alternating => ControlModel {
            alternating: alternating_step(s.alternating, now, cycle),
            ..s
        },
        Pattern::RainbowComet => ControlModel { comet: comet_step(s.comet, len), ..s },
    }
}

/// The frame that a tick leaves, given the frame before, the random bytes
/// and the state `s` that the tick has led to.
pub open spec fn control_frame(s: ControlModel, before: Seq<Pixel>, random_bytes: Seq<u8>) -> Seq<
    Pixel,
> {
    match s.active_pattern {
        Pattern::Rainbow => rainbow_frame(before.len(), s.rainbow_counter),
        Pattern::Twinkle => twinkle_frame(before, random_bytes),
        Pattern::Breathe => Seq::new(before.len(), |i: int| breathe_color(s.fading)),
        Pattern::Alternating => alternating_frame(before.len(), s.alternating),
        Pattern::RainbowComet => comet_frame(before, s.comet),
    }
}

impl View for ControlLoop {
    type V = ControlModel;

    closed spec fn view(&self) -> ControlModel {
        ControlModel {
            active_pattern: self.active_pattern,
            rainbow_counter: self.rainbow_counter,
            fading: self.fading_state@,
            alternating: self.alternating_state@,
            comet: self.comet_state@,
        }
    }
}

impl ControlLoop {
    /// The control loop at start-up, at clock reading `now`.
    pub fn starting_at(now: u64) -> (control: ControlLoop)
        ensures
            control@ == control_start(now),
    {
        ControlLoop {
            active_pattern: Pattern::Rainbow,
            rainbow_counter: 0,
            fading_state: FadingState::default(),
            alternating_state: AlternatingState::starting_at(now),
            comet_state: CometState::default(),
        }
    }

    /// The control loop at start-up, started now.
    pub fn new() -> (control: ControlLoop)
        ensures
            exists|now: u64| control@ == #[trigger] control_start(now),
    {
        ControlLoop::starting_at(now_ticks())
    }

    /// The pattern that the next tick renders.
    pub fn active_pattern(&self) -> (pattern: Pattern)
        ensures
            pattern == self@.active_pattern,
    {
        self.active_pattern
    }

    /// The time between two ticks, in milliseconds: the active pattern's
    /// frame period.
    pub fn frame_period_ms(&self) -> (period: u64)
        ensures
            period == self@.active_pattern.period_ms(),
    {
        self.active_pattern.duration_ms()
    }

    /// Whether the next tick uses random bytes: only the twinkle does.
    pub fn needs_random(&self) -> (needed: bool)
        ensures
            needed == (self@.active_pattern == Pattern::Twinkle),
    {
        match self.active_pattern {
            Pattern::Twinkle => true,
            _ => false,
        }
    }

    /// Handles a signal: advances to the next pattern and returns its frame
    /// period, in milliseconds, to which the ticker is to be set.
    pub fn on_signal(&mut self) -> (period: u64)
        ensures
            final(self)@ == control_advanced(old(self)@),
            period == final(self)@.active_pattern.period_ms(),
    {
        self.active_pattern = self.active_pattern.next();
        self.active_pattern.duration_ms()
    }

    /// Handles a tick at clock reading `now`, where a pair of the alternating
    /// pattern stays for `cycle` ticks of the clock: renders one frame of the
    /// active pattern into `frame`. The random bytes are used by the twinkle
    /// alone, the clock by the alternating pattern alone.
    pub fn render_at(&mut self, frame: &mut [Pixel], random_bytes: &[u8], now: u64, cycle: u64)
        ensures
            final(self)@ == control_rendered(old(self)@, old(frame)@.len(), now, cycle),
            final(frame)@ == control_frame(final(self)@, old(frame)@, random_bytes@),
            final(frame)@.len() == old(frame)@.len(),
    {
        match self.active_pattern {
            Pattern::Rainbow => {
                rainbow::generate(frame, &mut self.rainbow_counter);
            },
            Pattern::Twinkle => {
                twinkle::generate(frame, random_bytes);
            },
            Pattern::Breathe => {
                breathe::generate(frame, &mut self.fading_state);
            },
            Pattern::Alternating => {
                alternating::generate_at(frame, &mut self.alternating_state, now, cycle);
            },
            Pattern::RainbowComet => {
                rainbow_comet::generate(frame, &mut self.comet_state);
            },
        }
    }

    /// Handles a tick at the time the clock shows. Whatever the clock shows,
    /// the outcome is that of `render_at` for some reading of it.
    pub fn render(&mut self, frame: &mut [Pixel], random_bytes: &[u8])
        ensures
            exists|now: u64, hz: u64|
                final(self)@ == #[trigger] control_rendered(
                    old(self)@,
                    old(frame)@.len(),
                    now,
                    cycle_ticks(hz),
                ),
            final(frame)@ == control_frame(final(self)@, old(frame)@, random_bytes@),
            final(frame)@.len() == old(frame)@.len(),
    {
        let now = now_ticks();
        let hz = ticks_per_second();
        self.render_at(frame, random_bytes, now, cycle_period(hz));
    }
}

/// A signal changes the active pattern and nothing else, and a tick changes
/// the active pattern's state and nothing else: no generator reads or
/// writes the state of another.
pub proof fn lemma_generators_keep_apart(s: ControlModel, len: nat, now: u64, cycle: u64)
    ensures
        control_advanced(s).rainbow_counter == s.rainbow_counter,
        control_advanced(s).fading == s.fading,
        control_advanced(s).alternating == s.alternating,
        control_advanced(s).comet == s.comet,
        control_rendered(s, len, now, cycle).active_pattern == s.active_pattern,
        s.active_pattern != Pattern::Rainbow ==> control_rendered(s, len, now, cycle).rainbow_counter
            == s.rainbow_counter,
        s.active_pattern != Pattern::Breathe ==> control_rendered(s, len, now, cycle).fading
            == s.fading,
        s.active_pattern != Pattern::Alternating ==> control_rendered(s, len, now, cycle).alternating
            == s.alternating,
        s.active_pattern != Pattern::RainbowComet ==> control_rendered(s, len, now, cycle).comet
            == s.comet,
{
}

} // verus!
