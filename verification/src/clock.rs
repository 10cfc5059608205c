//! What the library takes from `std::time`: the wall clock, read in whole
//! seconds, and spans of whole seconds.

use std::time::{Duration, SystemTimeError, UNIX_EPOCH};
use vstd::prelude::*;

verus! {

/// The error of a clock that reads earlier than the instant it is
/// compared with.
#[verifier::external_type_specification]
#[verifier::external_body]
pub struct ExSystemTimeError(SystemTimeError);

/// The span of `secs` whole seconds, as `Duration::from_secs` makes it.
pub uninterp spec fn whole_seconds(secs: u64) -> Duration;

/// `Duration::clone`: a `Duration` is `Copy`, and its clone is the same
/// span of time.
pub assume_specification[ <Duration as Clone>::clone ](span: &Duration) -> (copy: Duration)
    ensures
        copy == *span,
;

/// `Duration::from_secs`: the span of that many whole seconds. The same
/// number gives the same span.
pub assume_specification[ Duration::from_secs ](secs: u64) -> (span: Duration)
    ensures
        span == whole_seconds(secs),
;

/// `Duration::as_secs`: the whole seconds in a span. Nothing is stated of
/// the number here.
pub assume_specification[ Duration::as_secs ](span: &Duration) -> (secs: u64)
;

/// `SystemTime::elapsed` on `UNIX_EPOCH`: the time that has passed since
/// the epoch on the system clock, or an error where the clock reads
/// earlier than the epoch. Nothing is stated of what comes back.
#[verifier::external_body]
pub(crate) fn elapsed_since_epoch() -> (elapsed: Result<Duration, SystemTimeError>) {
    UNIX_EPOCH.elapsed()
}

/// The system clock in whole seconds since the Unix epoch; zero where the
/// clock reads earlier than the epoch.
pub(crate) fn unix_timestamp() -> (secs: u64)
    ensures
        exists|elapsed: Result<Duration, SystemTimeError>|
            call_ensures(elapsed_since_epoch, (), elapsed) && #[trigger] is_whole_seconds_of(
                elapsed,
                secs,
            ),
{
    let elapsed = elapsed_since_epoch();
    let secs = match &elapsed {
        Ok(span) => span.as_secs(),
        Err(_) => 0,
    };
    assert(is_whole_seconds_of(elapsed, secs));
    secs
}

/// Whether `secs` is how a reading of the clock counts in whole seconds:
/// the whole seconds of the time that has passed since the epoch, and zero
/// where the clock reads earlier than the epoch.
pub open spec fn is_whole_seconds_of(
    elapsed: Result<Duration, SystemTimeError>,
    secs: u64,
) -> bool {
    match elapsed {
        Ok(span) => call_ensures(Duration::as_secs, (&span,), secs),
        Err(_) => secs == 0,
    }
}

} // verus!
