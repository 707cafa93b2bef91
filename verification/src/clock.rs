//! Reading a monotonic clock, measured in nanoseconds since a starting
//! instant.

use vstd::prelude::*;
use std::time::{Duration, Instant};

verus! {

#[verifier::external_type_specification]
#[verifier::external_body]
pub struct ExInstant(Instant);

/// Gives `Clone::clone` of `Instant` a contract. Claimed: the clone equals
/// the instant it was made from, as for every `Copy` type.
pub assume_specification[ <Instant as Clone>::clone ](i: &Instant) -> (r: Instant)
    ensures
        r == *i,
;

/// The largest number of nanoseconds a `Duration` can hold: `u64::MAX`
/// seconds and 999,999,999 nanoseconds.
pub open spec fn max_duration_nanos() -> nat {
    18_446_744_073_709_551_615_999_999_999
}

/// Calls `Instant::now`. Nothing is claimed of the instant it returns.
#[verifier::external_body]
pub(crate) fn instant_now() -> Instant {
    Instant::now()
}

/// Calls `Instant::elapsed`: the time since `origin`. It depends on the
/// time of the call, and nothing is claimed of it.
#[verifier::external_body]
pub(crate) fn elapsed_since(origin: &Instant) -> Duration {
    origin.elapsed()
}

/// The whole number of nanoseconds in `d`, as `Duration::as_nanos` gives it.
pub uninterp spec fn duration_as_nanos(d: Duration) -> u128;

/// Calls `Duration::as_nanos`. Claimed: the count is [duration_as_nanos]
/// of `d`, which depends on `d` alone, and it is no larger than the largest
/// duration, as the documentation of `Duration` bounds it.
#[verifier::external_body]
pub(crate) fn duration_nanos(d: Duration) -> (n: u128)
    ensures
        n == duration_as_nanos(d),
        n <= max_duration_nanos(),
{
    d.as_nanos()
}

} // verus!
