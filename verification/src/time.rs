//! The meeting point with `std::time`.
//!
//! A [`Duration`] and an [`Instant`] are opaque to the verifier. What the
//! decoders compute is a plain number of nanoseconds; this module turns such
//! a number into a `Duration`, by which an `Instant` can then be moved. The
//! few facts about `std::time` that the rest of the crate relies on are all
//! stated here, and none of them is proved.

use std::time::{Duration, Instant};
use vstd::prelude::*;

verus! {

/// Nanoseconds in one second.
pub const NANOS_PER_SEC: u128 = 1_000_000_000;

/// The longest span a [`Duration`] holds, in nanoseconds: `u64::MAX` whole
/// seconds and 999,999,999 nanoseconds more.
pub const MAX_NANOS: u128 = 18_446_744_073_709_551_615_999_999_999;

/// `std::time::Instant`, carried through as an opaque value.
#[verifier::external_type_specification]
#[verifier::external_body]
pub struct ExInstant(Instant);

/// The value of `Duration::new(secs, nanos)`.
pub uninterp spec fn duration_new(secs: u64, nanos: u32) -> Duration;

/// The value of `origin.checked_add(elapsed)`.
pub uninterp spec fn instant_checked_add(origin: Instant, elapsed: Duration) -> Option<Instant>;

/// The value of `origin.checked_sub(elapsed)`.
pub uninterp spec fn instant_checked_sub(origin: Instant, elapsed: Duration) -> Option<Instant>;

/// `Duration::new` builds a duration from whole seconds and a count of
/// nanoseconds. With fewer than a billion nanoseconds nothing is carried into
/// the seconds, so the call cannot panic; its result is named
/// [`duration_new`].
pub assume_specification[ Duration::new ](secs: u64, nanos: u32) -> (made: Duration)
    requires
        nanos < 1_000_000_000,
    ensures
        made == duration_new(secs, nanos),
;

/// `Instant::checked_add` returns the instant that lies `elapsed` after
/// `origin`, or `None` where the platform cannot represent it. The result
/// depends on the two arguments alone and is named [`instant_checked_add`].
pub assume_specification[ Instant::checked_add ](origin: &Instant, elapsed: Duration) -> (later:
    Option<Instant>)
    ensures
        later == instant_checked_add(*origin, elapsed),
;

/// `Instant::checked_sub` returns the instant that lies `elapsed` before
/// `origin`, or `None` where the platform cannot represent it. The result
/// depends on the two arguments alone and is named [`instant_checked_sub`].
pub assume_specification[ Instant::checked_sub ](origin: &Instant, elapsed: Duration) -> (earlier:
    Option<Instant>)
    ensures
        earlier == instant_checked_sub(*origin, elapsed),
;

/// `Instant::now` reads the monotonic clock. Nothing is claimed of the
/// instant it returns.
pub assume_specification[ Instant::now ]() -> (now: Instant)
;

/// The `Duration` of `nanos` nanoseconds.
pub open spec fn to_duration(nanos: nat) -> Duration
    recommends
        nanos <= MAX_NANOS,
{
    duration_new((nanos / NANOS_PER_SEC as nat) as u64, (nanos % NANOS_PER_SEC as nat) as u32)
}

/// Builds the `Duration` of `nanos` nanoseconds.
pub fn duration_from_nanos(nanos: u128) -> (made: Duration)
    requires
        nanos <= MAX_NANOS,
    ensures
        made == to_duration(nanos as nat),
{
    let secs: u128 = nanos / NANOS_PER_SEC;
    let subsec: u128 = nanos % NANOS_PER_SEC;
    Duration::new(secs as u64, subsec as u32)
}

} // verus!
