//! Access to the monotonic clock, taken on trust.
//!
//! What the clock reads is decided by the machine at the moment of the call,
//! so none of these items promises anything about the values that come back:
//! every guarantee the library gives holds for every possible reading, and
//! the verified code in the crate root clamps the raw readings itself.

use vstd::prelude::*;

verus! {

/// Declares `std::time::Instant`, the opaque monotonic timestamp the
/// stopwatch keeps as its origin.
#[verifier::external_type_specification]
#[verifier::external_body]
pub struct ExInstant(std::time::Instant);

/// Relies on `std::time::Instant::now` for a reading of the monotonic clock.
/// The reading depends on the moment of the call, so nothing can be promised
/// of it.
pub assume_specification[ std::time::Instant::now ]() -> std::time::Instant;

/// Relies on `std::time::Instant::saturating_duration_since` for the time
/// between two instants: the elapsed time, or a zero duration when `earlier`
/// is in fact later.  It is documented to return in both cases, so it panics
/// on no input.
pub assume_specification[ std::time::Instant::saturating_duration_since ](
    this: &std::time::Instant,
    earlier: std::time::Instant,
) -> std::time::Duration;

/// Relies on `core::time::Duration::as_nanos` for the total number of whole
/// nanoseconds a duration contains.
pub assume_specification[ core::time::Duration::as_nanos ](
    this: &core::time::Duration,
) -> u128;

} // verus!
