//! The wall clock.

use crate::model::Timestamp;
use vstd::prelude::*;

verus! {

/// `t` is an instant that the system clock can give: not before 1970, and
/// with less than a second's worth of nanoseconds.
pub open spec fn is_clock_reading(t: Timestamp) -> bool {
    t.secs >= 0 && t.nanos < 1_000_000_000
}

/// The current instant in UTC, from `chrono::Utc::now`.
///
/// Trusted: the instant is whatever the system clock says, which may step
/// backwards between two calls, so nothing is claimed of it but its range.
/// `Utc::now` panics where the system clock is set before 1970.
#[verifier::external_body]
pub(crate) fn now() -> (t: Timestamp)
    ensures
        is_clock_reading(t),
{
    let t = chrono::Utc::now();
    Timestamp { secs: t.timestamp(), nanos: t.timestamp_subsec_nanos() }
}

} // verus!
