//! The clock, and the moment at which a token expires.

use chrono::{DateTime, TimeDelta, Utc};
use vstd::prelude::*;

verus! {

/// The first second that chrono can represent: the start of the year -262143.
pub const FIRST_SECOND: i64 = -8334601228800;

/// The last second that chrono can represent: the end of the year 262142.
pub const LAST_SECOND: i64 = 8210266876799;

/// The number of seconds in an hour.
pub const SECONDS_PER_HOUR: i64 = 3600;

/// Whether a Unix timestamp, in seconds, lies in the years that chrono knows.
pub open spec fn representable(seconds: int) -> bool {
    FIRST_SECOND <= seconds <= LAST_SECOND
}

/// Whether the clock can read `now`: a representable second, not before 1970.
pub open spec fn clock_reading(now: i64) -> bool {
    0 <= now && representable(now as int)
}

/// The timestamp `hours` hours after `now`, where both are representable.
pub open spec fn hours_later(now: i64, hours: i64) -> Option<i64> {
    let later = now + SECONDS_PER_HOUR * hours;
    if representable(now as int) && representable(later) {
        Some(later as i64)
    } else {
        None
    }
}

/// The value of the expiry claim for a token that is issued at `now` and is
/// good for `hours` hours. A moment before 1970 is cast like any other `i64`.
pub open spec fn expiry_claim(now: i64, hours: i64) -> Option<usize> {
    match hours_later(now, hours) {
        Some(later) => Some(#[verifier::truncate] (later as usize)),
        None => None,
    }
}

/// The current Unix timestamp, in seconds.
///
/// Trusted: `chrono::Utc::now`, read by `DateTime::timestamp`. It is said only
/// that the reading is not before 1970 and lies in the years that chrono
/// knows; outside of them `Utc::now` does not return. Which second is read is
/// up to the machine.
#[verifier::external_body]
pub(crate) fn utc_now() -> (now: i64)
    ensures
        clock_reading(now),
{
    Utc::now().timestamp()
}

/// Whether `now` is what reading the clock gave. Only a reading is known to be
/// one: that a second could be read does not make it a reading.
pub closed spec fn clock_gave(now: i64) -> bool {
    call_ensures(utc_now, (), now)
}

/// Reads the clock.
pub(crate) fn read_clock() -> (now: i64)
    ensures
        clock_gave(now),
        clock_reading(now),
{
    utc_now()
}

/// What the clock gave is a result of `utc_now`, as it came.
pub(crate) proof fn reading_is_of_the_clock(now: i64)
    requires
        clock_gave(now),
    ensures
        call_ensures(utc_now, (), now),
        clock_reading(now),
{
}

/// The timestamp `hours` hours after the timestamp `now`.
///
/// Trusted: `chrono::DateTime::checked_add_signed` of a whole number of hours,
/// on the moment that `DateTime::from_timestamp` makes of `now`. The sum is
/// exact, and there is none where chrono cannot represent `now`, the duration
/// or the sum.
#[verifier::external_body]
fn add_hours(now: i64, hours: i64) -> (later: Option<i64>)
    ensures
        later == hours_later(now, hours),
{
    let start = DateTime::<Utc>::from_timestamp(now, 0)?;
    let later = start.checked_add_signed(TimeDelta::try_hours(hours)?)?;
    Some(later.timestamp())
}

/// The expiry claim of a token that is issued at `now` and good for `hours`
/// hours, or `None` where that moment cannot be represented.
pub fn expiry(now: i64, hours: i64) -> (exp: Option<usize>)
    ensures
        exp == expiry_claim(now, hours),
{
    match add_hours(now, hours) {
        Some(later) => Some(#[verifier::truncate] (later as usize)),
        None => None,
    }
}

/// Where the moment of expiry is not before 1970 and fits the machine, the
/// expiry claim is that moment: the time of issue and 3600 seconds per hour.
pub proof fn expiry_is_hours_after_issue(now: i64, hours: i64)
    requires
        representable(now as int),
        representable(now + SECONDS_PER_HOUR * hours),
        0 <= now + SECONDS_PER_HOUR * hours <= usize::MAX,
    ensures
        expiry_claim(now, hours) matches Some(exp) && exp == now + 3600 * hours,
{
}

} // verus!
