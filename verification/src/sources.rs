//! The wall clock and the random source, as far as the engine uses them.
//!
//! The declarations here say what the engine relies on from the standard
//! library and from `rand`; none of it is proved. Nothing is claimed of what
//! the clock or the generator returns, only that the calls return.

use vstd::prelude::*;
use std::time::Duration;
use std::time::Instant;

verus! {

/// `std::time::Instant`, an opaque point on the monotonic clock.
#[verifier::external_type_specification]
#[verifier::external_body]
pub struct ExInstant(std::time::Instant);

/// `Instant::now` returns the current instant. Nothing is claimed of its value.
pub assume_specification[ std::time::Instant::now ]() -> (now: Instant);

/// `Instant::duration_since` returns the time from `earlier` to `later`
/// (zero when `earlier` is the later one). Nothing is claimed of its value.
pub assume_specification[ std::time::Instant::duration_since ](
    later: &Instant,
    earlier: Instant,
) -> (elapsed: Duration);

/// `Duration::as_nanos` returns the duration in whole nanoseconds.
/// Nothing is claimed of its value.
pub assume_specification[ std::time::Duration::as_nanos ](d: &Duration) -> (nanos: u128);

/// `rand::random::<u8>` draws a byte from the thread-local generator, which
/// the operating system seeds on first use. Any byte may come back, so
/// nothing is claimed of it.
#[verifier::external_body]
pub(crate) fn random_byte() -> (byte: u8) {
    rand::random::<u8>()
}

/// The nanoseconds from `earlier` to `later`, as the clock has them.
///
/// Both instants are opaque readings of the clock, so nothing is claimed of
/// the number that comes back: the engine takes it as it is, and what the
/// timers do is stated, for every such number, where it is used.
pub(crate) fn nanos_between(later: &Instant, earlier: &Instant) -> (nanos: u128) {
    let elapsed = later.duration_since(*earlier);
    elapsed.as_nanos()
}

} // verus!
