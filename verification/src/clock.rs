//! The time stamp that a note carries, and the clock that gives it.

use vstd::prelude::*;

verus! {

/// A moment in time together with the local offset that was in force.
#[derive(Clone, Copy, Debug, PartialEq, Eq, Structural)]
pub struct Timestamp {
    /// Whole seconds since the Unix epoch.
    pub secs: i64,
    /// Nanoseconds past that second.
    pub nanos: u32,
    /// Seconds that local time is ahead of UTC.
    pub offset: i32,
}

/// `chrono::Local::now`, read out through `DateTime::timestamp`,
/// `DateTime::timestamp_subsec_nanos` and `FixedOffset::local_minus_utc`.
/// Nothing is claimed of the value: it differs from call to call.
#[verifier::external_body]
pub(crate) fn local_now() -> Timestamp {
    let now = chrono::Local::now();
    Timestamp {
        secs: now.timestamp(),
        nanos: now.timestamp_subsec_nanos(),
        offset: now.offset().local_minus_utc(),
    }
}

} // verus!
