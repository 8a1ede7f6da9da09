//! The status LED: an RGB LED on three PWM outputs that fades between
//! indigo and black.
//!
//! The LED is wired active low, so a channel at 255 gets duty cycle 0 and a
//! channel at 0 the whole period. The module computes colours and duty
//! cycles; the firmware hands the duty cycles to the PWM outputs.

use vstd::prelude::*;
use crate::colors::{BLACK, INDIGO};
use crate::pixel::Pixel;

verus! {

/// How much of the target colour one fade step mixes in, out of 255.
pub const BLEND_AMOUNT: u8 = 16;

/// The time between two fade steps, in milliseconds.
pub const FADE_STEP_MS: u64 = 50;

/// The PWM frequency, in hertz.
pub const PWM_FREQUENCY_HZ: u32 = 1000;

/// The PWM clock divider.
pub const PWM_DIVIDER: u8 = 16;

/// The duty cycles of the three PWM outputs.
#[derive(Clone, Copy, Debug, PartialEq, Eq, Structural)]
pub struct DutyCycles {
    pub r: u16,
    pub g: u16,
    pub b: u16,
}

/// The colour towards which the LED is fading.
#[derive(Clone, Copy, Debug, PartialEq, Eq, Structural)]
pub enum FadeTarget {
    Indigo,
    Black,
}

/// What one fade step decided: the target it faded towards, and the duty
/// cycles that show the new colour.
#[derive(Clone, Copy, Debug, PartialEq, Eq, Structural)]
pub struct FadeStep {
    pub target: FadeTarget,
    pub duties: DutyCycles,
}

/// What an `RGBLed` holds, as plain values.
pub struct LedModel {
    pub top: u16,
    pub color: Pixel,
}

/// The status LED: the PWM period and the colour it shows.
pub struct RGBLed {
    top: u16,
    color: Pixel,
}

/// The weighted mean of two channel values, `amount` parts of `b` and
/// `255 - amount` parts of `a`, with 128 added before the division by 256
/// so that it rounds to nearest.
pub open spec fn blended(a: u8, b: u8, amount: u8) -> u8 {
    ((a * (255 - amount) + b * amount + 128) / 256) as u8
}

/// Two colours blended channel by channel.
pub open spec fn blended_color(a: Pixel, b: Pixel, amount: u8) -> Pixel {
    Pixel {
        r: blended(a.r, b.r, amount),
        g: blended(a.g, b.g, amount),
        b: blended(a.b, b.b, amount),
    }
}

/// The duty cycle for a channel value on an active-low output with period
/// `top`: `(255 - channel) * top / 255`, rounded down.
pub open spec fn duty_for(channel: u8, top: u16) -> u16 {
    ((255 - channel) * top / 255) as u16
}

/// The three duty cycles that show `color`.
pub open spec fn duties_for(color: Pixel, top: u16) -> DutyCycles {
    DutyCycles {
        r: duty_for(color.r, top),
        g: duty_for(color.g, top),
        b: duty_for(color.b, top),
    }
}

/// The PWM period for a system clock of `clock_freq_hz`: the number of
/// divided clock ticks in one PWM cycle, which is the clock frequency over
/// the PWM frequency over the divider, cut to sixteen bits, less one. There
/// is none where the cut count is 0.
pub open spec fn pwm_period(clock_freq_hz: u32) -> Option<u16> {
    let ticks = (clock_freq_hz as int / PWM_FREQUENCY_HZ as int / PWM_DIVIDER as int) % 0x1_0000;
    if ticks == 0 {
        None
    } else {
        Some((ticks - 1) as u16)
    }
}

/// The colour that belongs to a fade target.
pub open spec fn target_color(target: FadeTarget) -> Pixel {
    match target {
        FadeTarget::Indigo => Pixel::from_code(INDIGO),
        FadeTarget::Black => Pixel::from_code(BLACK),
    }
}

/// The target of the next fade step: the other one once the LED shows
/// exactly the colour it was fading towards, else the same.
pub open spec fn next_target(color: Pixel, target: FadeTarget) -> FadeTarget {
    if color == target_color(target) {
        match target {
            FadeTarget::Indigo => FadeTarget::Black,
            FadeTarget::Black => FadeTarget::Indigo,
        }
    } else {
        target
    }
}

/// Blends two channel values: `amount_of_b` parts of `color_b` and
/// `255 - amount_of_b` parts of `color_a`, rounded by adding 128 and
/// shifting right by 8.
pub fn blend_u8(color_a: u8, color_b: u8, amount_of_b: u8) -> (blend: u8)
    ensures
        blend == blended(color_a, color_b, amount_of_b),
        blend as int == (color_a * (255 - amount_of_b) + color_b * amount_of_b + 128) / 256,
{
    let amount_of_a: u32 = 255 - amount_of_b as u32;
    assert(color_a * amount_of_a + color_b * amount_of_b <= 255 * 255) by (nonlinear_arith)
        requires
            color_a <= 255,
            color_b <= 255,
            amount_of_a + amount_of_b == 255,
            amount_of_a >= 0,
            amount_of_b >= 0,
    ;
    assert(color_a * amount_of_a >= 0 && color_b * amount_of_b >= 0) by (nonlinear_arith)
        requires
            amount_of_a >= 0,
    ;
    let blend_a: u32 = color_a as u32 * amount_of_a;
    let blend_b: u32 = color_b as u32 * amount_of_b as u32;
    let sum: u32 = blend_a + blend_b + 128;
    assert(sum >> 8 == sum / 256) by (bit_vector);
    (sum >> 8) as u8
}

/// Blends two colours channel by channel.
pub fn blend(color: Pixel, target_color: Pixel, amount: u8) -> (mixed: Pixel)
    ensures
        mixed == blended_color(color, target_color, amount),
{
    Pixel {
        r: blend_u8(color.r, target_color.r, amount),
        g: blend_u8(color.g, target_color.g, amount),
        b: blend_u8(color.b, target_color.b, amount),
    }
}

/// The duty cycle that shows a channel value on an active-low output.
pub fn duty_cycle(channel: u8, top: u16) -> (duty: u16)
    ensures
        duty == duty_for(channel, top),
        duty <= top,
{
    let off: u32 = (255 - channel) as u32;
    assert(0 <= off * top <= 255 * top) by (nonlinear_arith)
        requires
            0 <= off <= 255,
            top >= 0,
    ;
    (off * top as u32 / 255) as u16
}

/// The PWM period for a system clock of `clock_freq_hz`, if there is one.
pub fn pwm_top(clock_freq_hz: u32) -> (top: Option<u16>)
    ensures
        top == pwm_period(clock_freq_hz),
{
    let ticks: u32 = (clock_freq_hz / PWM_FREQUENCY_HZ / PWM_DIVIDER as u32) % 0x1_0000;
    if ticks == 0 {
        None
    } else {
        Some((ticks - 1) as u16)
    }
}

impl View for RGBLed {
    type V = LedModel;

    closed spec fn view(&self) -> LedModel {
        LedModel { top: self.top, color: self.color }
    }
}

impl RGBLed {
    /// A dark LED on PWM outputs with period `top`.
    pub fn new(top: u16) -> (led: RGBLed)
        ensures
            led@ == (LedModel { top, color: Pixel::from_code(BLACK) }),
    {
        RGBLed { top, color: Pixel::from_hex(BLACK) }
    }

    /// The colour that the LED shows.
    pub fn color(&self) -> (color: Pixel)
        ensures
            color == self@.color,
    {
        self.color
    }

    /// The PWM period.
    pub fn top(&self) -> (top: u16)
        ensures
            top == self@.top,
    {
        self.top
    }

    /// The duty cycles that show the LED's colour.
    pub fn duties(&self) -> (duties: DutyCycles)
        ensures
            duties == duties_for(self@.color, self@.top),
    {
        DutyCycles {
            r: duty_cycle(self.color.r, self.top),
            g: duty_cycle(self.color.g, self.top),
            b: duty_cycle(self.color.b, self.top),
        }
    }

    /// Records `color` as the LED's colour and returns the duty cycles that
    /// show it.
    pub fn set_color(&mut self, color: Pixel) -> (duties: DutyCycles)
        ensures
            final(self)@ == (LedModel { top: old(self)@.top, color }),
            duties == duties_for(color, old(self)@.top),
    {
        self.color = color;
        self.duties()
    }

    /// Moves the LED's colour towards `target_color` by `amount` parts in
    /// 255 and returns the duty cycles that show the new colour.
    pub fn blend_into(&mut self, target_color: Pixel, amount: u8) -> (duties: DutyCycles)
        ensures
            final(self)@ == (LedModel {
                top: old(self)@.top,
                color: blended_color(old(self)@.color, target_color, amount),
            }),
            duties == duties_for(final(self)@.color, old(self)@.top),
    {
        let mixed = blend(self.color, target_color, amount);
        self.set_color(mixed)
    }
}

/// One step of the status fade. The LED fades towards `target`, or towards
/// the other target once it shows exactly the colour of `target`; its
/// colour moves by the blend amount, and the step names the target it took
/// and the duty cycles to set.
pub fn led_step(led: &mut RGBLed, target: FadeTarget) -> (step: FadeStep)
    ensures
        step.target == next_target(old(led)@.color, target),
        final(led)@ == (LedModel {
            top: old(led)@.top,
            color: blended_color(old(led)@.color, target_color(step.target), BLEND_AMOUNT),
        }),
        step.duties == duties_for(final(led)@.color, old(led)@.top),
{
    let (aim, next) = match target {
        FadeTarget::Indigo => (Pixel::from_hex(INDIGO), FadeTarget::Black),
        FadeTarget::Black => (Pixel::from_hex(BLACK), FadeTarget::Indigo),
    };
    let target = if led.color() == aim {
        next
    } else {
        target
    };
    let aim = match target {
        FadeTarget::Indigo => Pixel::from_hex(INDIGO),
        FadeTarget::Black => Pixel::from_hex(BLACK),
    };
    let duties = led.blend_into(aim, BLEND_AMOUNT);
    FadeStep { target, duties }
}

} // verus!
