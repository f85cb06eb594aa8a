//! The system clock.

use vstd::prelude::*;
use std::time::{Duration, UNIX_EPOCH};

verus! {

/// `Duration::as_secs`: the whole seconds that a span of time holds. The
/// span is opaque here, so nothing is claimed of the number.
pub assume_specification[ Duration::as_secs ](span: &Duration) -> (seconds: u64);

/// Reads the system clock with `SystemTime::elapsed` on `UNIX_EPOCH`: the
/// time that has passed since the epoch, or `None` where the clock stands
/// before it. Nothing is claimed of the span: two readings may differ in
/// any way.
#[verifier::external_body]
pub(crate) fn elapsed_since_epoch() -> (span: Option<Duration>) {
    match UNIX_EPOCH.elapsed() {
        Ok(span) => Some(span),
        Err(_) => None,
    }
}

/// The system clock's reading in whole seconds since the Unix epoch; zero
/// where the clock stands before the epoch.
pub(crate) fn seconds_since_epoch() -> (seconds: u64) {
    let reading: Option<u64> = match elapsed_since_epoch() {
        Some(span) => Some(span.as_secs()),
        None => None,
    };
    moment_of(reading)
}

/// The moment that a reading of the clock stands for: the seconds read, or
/// zero where the clock stood before the epoch and gave none.
pub fn moment_of(reading: Option<u64>) -> (moment: u64)
    ensures
        moment == match reading {
            Some(seconds) => seconds,
            None => 0,
        },
{
    match reading {
        Some(seconds) => seconds,
        None => 0,
    }
}

} // verus!
