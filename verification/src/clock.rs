//! The monotonic clock, as the rest of the library reads it.

use vstd::prelude::*;

verus! {

#[verifier::external_type_specification]
#[verifier::external_body]
pub struct ExInstant(std::time::Instant);

/// `Instant::now`: the current instant of the monotonic clock. Nothing is promised of it.
pub assume_specification[ std::time::Instant::now ]() -> std::time::Instant;

/// `Instant::elapsed`: the time from an instant to now. It depends on when it is called, so
/// nothing is promised of it.
pub assume_specification[ std::time::Instant::elapsed ](origin: &std::time::Instant) -> std::time::Duration;

/// The time from `earlier` to `later` on the monotonic clock, or zero when `earlier` is the
/// later of the two: what `Instant::saturating_duration_since` returns.
pub uninterp spec fn elapsed_between(later: std::time::Instant, earlier: std::time::Instant) -> std::time::Duration;

/// `Instant::saturating_duration_since`: the time from `earlier` to the instant, or zero when
/// `earlier` is the later one. Instants are opaque here, so the result is stated only as
/// `elapsed_between` of the two instants: it depends on them alone.
pub assume_specification[ std::time::Instant::saturating_duration_since ](
    later: &std::time::Instant,
    earlier: std::time::Instant,
) -> (d: std::time::Duration)
    ensures
        d == elapsed_between(*later, earlier),
;

/// `Duration::as_nanos`: the whole nanoseconds of a duration. Durations are opaque here, so
/// nothing is stated of the result.
pub assume_specification[ std::time::Duration::as_nanos ](d: &std::time::Duration) -> u128;

/// Nanoseconds from `origin` to now on the monotonic clock, held at `u64::MAX` (some five
/// centuries).
pub(crate) fn nanos_since(origin: &std::time::Instant) -> u64 {
    let n = origin.elapsed().as_nanos();
    if n <= u64::MAX as u128 {
        n as u64
    } else {
        u64::MAX
    }
}

} // verus!
