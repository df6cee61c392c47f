//! The time source that stamps captured records.

use vstd::prelude::*;

verus! {

/// A point in time: whole seconds since 1970-01-01 00:00:00 UTC and the
/// nanoseconds since the last whole second.
#[derive(Clone, Copy, Debug, PartialEq, Eq, Hash, Structural)]
pub struct Timestamp {
    /// Seconds since the Unix epoch; negative before it.
    pub secs: i64,
    /// Nanoseconds since the last whole second.
    pub nanos: u32,
}

/// Reads the system clock with `chrono::Utc::now` and hands the instant back as
/// its seconds (`DateTime::timestamp`) and nanoseconds (`DateTime::timestamp_subsec_nanos`).
///
/// Nothing is claimed of the value: it depends on the machine's clock, and two
/// calls may return different instants. `Utc::now` gives up where the clock
/// stands before 1970.
#[verifier::external_body]
pub(crate) fn now() -> Timestamp {
    let instant = chrono::Utc::now();
    Timestamp { secs: instant.timestamp(), nanos: instant.timestamp_subsec_nanos() }
}

} // verus!
