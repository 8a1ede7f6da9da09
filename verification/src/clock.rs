//! The monotonic clock of `embassy_time`, read as plain tick counts.

use vstd::prelude::*;

verus! {

/// Reads the clock: `embassy_time::Instant::now()`, as ticks since start-up.
/// Trusted, and nothing is claimed of the value: it is whatever the time
/// driver reports at the moment of the call.
#[verifier::external_body]
pub(crate) fn now_ticks() -> u64 {
    embassy_time::Instant::now().as_ticks()
}

/// The clock's resolution: `embassy_time::TICK_HZ`, the number of ticks in
/// a second. Trusted, and nothing is claimed of the value: the build picks it.
#[verifier::external_body]
pub(crate) fn ticks_per_second() -> u64 {
    embassy_time::TICK_HZ
}

} // verus!
