//! The wall clock.

use vstd::prelude::*;

verus! {

/// Reads the wall clock with `chrono::Local::now` and returns the local
/// date and time of day, taken by `DateTime::naive_local` and
/// `NaiveDateTime::and_utc`, as the seconds since 1970-01-01 00:00:00 that
/// `DateTime::timestamp` counts.
///
/// Nothing is claimed of the number: it is whatever the machine's clock and
/// time zone say, and of two readings the later may be the smaller. chrono
/// stops the thread if the clock stands before 1970 or beyond the dates
/// that it can hold.
#[verifier::external_body]
pub(crate) fn wall_clock_seconds() -> i64 {
    chrono::Local::now().naive_local().and_utc().timestamp()
}

} // verus!
