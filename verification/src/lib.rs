//! Pattern engine for an addressable LED strip with a push-button selector.
//!
//! The crate holds the parts of the light show that decide something: the
//! colour arithmetic, the five frame generators, the single-slot event
//! channel, the debouncing input monitor, the control loop that picks the
//! active pattern, and the status LED fader. Peripheral access and task
//! scheduling belong to the firmware that links against it.

pub mod pixel;
pub mod colors;
pub mod shade;
pub mod clock;
pub mod patterns;
pub mod channel;
pub mod button;
pub mod control;
pub mod led;
pub mod pipeline;
