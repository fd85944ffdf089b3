//! What is assumed of the standard library: its monotonic clock, and room
//! asked of the allocator.
//!
//! Nothing here is proved. What a clock returns depends on when it is asked,
//! so no contract promises anything of a reading: callers are verified for
//! every instant and every duration that may come back.
use vstd::prelude::*;
use std::collections::VecDeque;
use std::time::Duration;
use std::time::Instant;

verus! {

/// `std::time::Instant`, a reading of the monotonic clock. Its value is
/// opaque: verified code only stores it and hands it back to the clock.
#[verifier::external_type_specification]
#[verifier::external_body]
pub struct ExInstant(std::time::Instant);

/// `Instant::now` reads the monotonic clock. Nothing is claimed of the
/// reading.
pub assume_specification[ Instant::now ]() -> (now: Instant);

/// `Instant::saturating_duration_since` gives the time from `earlier` to
/// `later`, or a zero duration if `earlier` is the later of the two. It is
/// assumed to return for every pair of instants, as the standard library
/// documents; nothing is claimed of the duration.
pub assume_specification[ Instant::saturating_duration_since ](
    later: &Instant,
    earlier: Instant,
) -> (elapsed: Duration);

/// `Duration::as_nanos` gives a duration in whole nanoseconds. Nothing is
/// claimed of the number.
pub assume_specification[ Duration::as_nanos ](duration: &Duration) -> (nanos: u128);

/// `VecDeque::try_reserve` asks the allocator for room for `additional` more
/// entries and reports an error, where `reserve` would panic, if there is
/// none. Whether or not the room was had, the contents stay as they were, as
/// the standard library documents; that is all this contract claims.
#[verifier::external_body]
pub(crate) fn try_reserve(window: &mut VecDeque<u64>, additional: usize)
    ensures
        final(window)@ == old(window)@,
{
    let _ = window.try_reserve(additional);
}

} // verus!
