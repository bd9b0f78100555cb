//! The wall clock, in whole seconds since the Unix epoch.

use vstd::prelude::*;

verus! {

/// Whether the instant `t` lies strictly before `now`.
pub open spec fn in_past(now: int, t: int) -> bool {
    now > t
}

/// Reads the system clock with `SystemTime::now`, turns the reading into a
/// `chrono::DateTime<Utc>` with chrono's `From<SystemTime>`, and takes its
/// seconds since the Unix epoch with `DateTime::timestamp`.
///
/// Nothing is claimed of the reading: it differs from call to call. A clock
/// that is set before 1970 reads as a negative number of seconds.
#[verifier::external_body]
pub(crate) fn current_timestamp() -> i64 {
    chrono::DateTime::<chrono::Utc>::from(std::time::SystemTime::now()).timestamp()
}

/// The given time where one is given, and the clock's reading otherwise.
///
/// Callers pin the time for a run that must not depend on the clock.
pub fn time_or_now(given_time: Option<i64>) -> (now: i64)
    ensures
        given_time matches Some(t) ==> now == t,
{
    match given_time {
        Some(t) => t,
        None => current_timestamp(),
    }
}

/// Whether `t` lies strictly before `now`. An instant equal to `now` is not
/// yet in the past.
pub fn is_in_past_at(now: i64, t: i64) -> (past: bool)
    ensures
        past == in_past(now as int, t as int),
{
    now > t
}

/// Whether `existing_timer` lies strictly before the clock's reading.
///
/// The answer is the one that `is_in_past_at` gives for some reading of the
/// clock; the last representable second is never in the past.
pub fn is_in_past(existing_timer: i64) -> (past: bool)
    ensures
        exists|now: i64| past == #[trigger] in_past(now as int, existing_timer as int),
        existing_timer == i64::MAX ==> !past,
{
    let now = current_timestamp();
    let past = is_in_past_at(now, existing_timer);
    assert(past == in_past(now as int, existing_timer as int));
    past
}

} // verus!
