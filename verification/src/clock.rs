//! The clock that stamps events: nanoseconds since the first reading.

use std::time::{Duration, Instant};
use vstd::prelude::*;

verus! {

/// [`std::time::Instant`], a reading of the monotonic clock.
#[verifier::external_type_specification]
#[verifier::external_body]
pub struct ExInstant(Instant);

/// [`Instant::now`] reads the clock. Nothing is claimed of the reading.
pub assume_specification[ Instant::now ]() -> (r: Instant)
;

/// [`Instant::saturating_duration_since`] gives the time from `earlier` to
/// `later`, and no time at all where `earlier` is the later one. Nothing is
/// claimed of the length.
pub assume_specification[ Instant::saturating_duration_since ](
    later: &Instant,
    earlier: Instant,
) -> (r: Duration)
;

/// [`Duration::as_nanos`] gives the whole length in nanoseconds. Nothing is
/// claimed of the number.
pub assume_specification[ Duration::as_nanos ](duration: &Duration) -> (r: u128)
;

/// Reads the clock and gives the nanoseconds since `epoch`, in 64 bits. An
/// unset `epoch` is first set to the reading, which then gives 0.
pub(crate) fn nanos_since(epoch: &mut Option<Instant>) -> (r: u64)
    ensures
        *final(epoch) is Some,
        *old(epoch) is Some ==> *final(epoch) == *old(epoch),
{
    let now = Instant::now();
    let first = match *epoch {
        Some(first) => first,
        None => {
            *epoch = Some(now);
            now
        },
    };
    let nanos: u128 = now.saturating_duration_since(first).as_nanos();
    #[verifier::truncate]
    (nanos as u64)
}

} // verus!
