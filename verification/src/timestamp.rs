//! Points in wall-clock time, held as plain millisecond counts so that the
//! expiry logic can be stated and proved over integers.

use vstd::prelude::*;

verus! {

/// A point in time, counted in milliseconds from the Unix epoch.
#[derive(Clone, Copy, Debug, PartialEq, Eq, Structural)]
pub struct Timestamp {
    pub millis: i64,
}

impl Timestamp {
    pub fn new(millis: i64) -> (r: Timestamp)
        ensures
            r.millis == millis,
    {
        Timestamp { millis }
    }

    /// Strict comparison: `self` lies after `other`. An expiry that is
    /// after "now" means the cached value is still fresh.
    pub fn is_after(&self, other: &Timestamp) -> (r: bool)
        ensures
            r == (self.millis > other.millis),
    {
        self.millis > other.millis
    }
}

/// Relies on `chrono::Utc::now` for the current wall-clock instant, reduced
/// to its millisecond count by `DateTime::timestamp_millis`. Nothing is
/// assumed of the value: callers must hold for every possible "now".
#[verifier::external_body]
pub(crate) fn now_timestamp() -> (r: Timestamp) {
    Timestamp { millis: chrono::Utc::now().timestamp_millis() }
}

} // verus!
