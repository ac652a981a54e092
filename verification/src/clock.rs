//! Monotonic clock readings.
//!
//! Wall-clock measurement points for the performance statistics. A
//! reading depends on when it is taken, so nothing is promised about the
//! values; every consumer of a duration must hold for any value.

use vstd::prelude::*;

verus! {

/// `std::time::Instant`, an opaque monotonic measurement point.
#[verifier::external_type_specification]
#[verifier::external_body]
pub struct ExInstant(std::time::Instant);

/// Relies on std::time::Instant::now: an opaque reading of the
/// monotonic clock; nothing can be promised of it.
pub assume_specification[ std::time::Instant::now ]() -> (r: std::time::Instant)
;

/// Relies on std::time::Instant::elapsed: the time since the reading
/// was taken, saturating to zero; its value depends on the clock, so
/// nothing is promised of it.
pub assume_specification[ std::time::Instant::elapsed ](start: &std::time::Instant) -> (r:
    core::time::Duration)
;

/// Relies on core::time::Duration::as_nanos: the duration's length in
/// nanoseconds; its value is unconstrained here since the durations
/// measured come from the clock.
pub assume_specification[ core::time::Duration::as_nanos ](d: &core::time::Duration) -> (r: u128)
;

/// Nanoseconds elapsed since `start`, saturated into a `u64`.
pub fn elapsed_ns(start: &std::time::Instant) -> u64 {
    let wide: u128 = start.elapsed().as_nanos();
    if wide > u64::MAX as u128 {
        u64::MAX
    } else {
        wide as u64
    }
}

/// A fresh reading of the monotonic clock.
pub fn instant_now() -> std::time::Instant {
    std::time::Instant::now()
}

} // verus!
