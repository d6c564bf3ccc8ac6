//! The wall clock, read through chrono.

use crate::model::CivilTime;
use chrono::{Datelike, Timelike};
use vstd::prelude::*;

verus! {

/// `chrono::Local::now`, read field by field through `naive_local`,
/// `Datelike` and `Timelike`: the local date and time of the moment of the
/// call. The result depends on the clock and the time zone, so nothing is
/// claimed of it. chrono panics where the clock stands before 1970 and
/// where the time zone's data cannot be used: that is the machine's
/// state, which no precondition can leave out.
#[verifier::external_body]
pub(crate) fn now() -> (moment: CivilTime) {
    let local = chrono::Local::now().naive_local();
    let (year, month, day) = (local.year(), local.month(), local.day());
    let (hour, minute, second) = (local.hour(), local.minute(), local.second());
    CivilTime { year, month, day, hour, minute, second, nanosecond: local.nanosecond() }
}

/// The pattern of the title of a day's `Times`: the year, the month and
/// the day of the month, in digits and without anything between them.
pub open spec fn day_pattern() -> Seq<char> {
    "%Y%m%d"@
}

/// `chrono::Local::now`, then `format` with `pattern` and `to_string`:
/// the local date of the moment of the call, written as the pattern asks.
/// The text depends on the clock and the time zone, so nothing is claimed
/// of it. chrono panics in `to_string` on a pattern that it cannot read;
/// the precondition admits the one pattern that the library formats
/// with. What is said of `now` on the machine's state holds here too.
#[verifier::external_body]
pub(crate) fn local_date(pattern: &str) -> (text: String)
    requires
        pattern@ == day_pattern(),
{
    chrono::Local::now().format(pattern).to_string()
}

/// The title of today's `Times`: the local date of the moment of the
/// call, in the form of `day_pattern`.
pub(crate) fn today_title() -> (title: String) {
    proof {
        reveal_strlit("%Y%m%d");
    }
    local_date("%Y%m%d")
}

} // verus!
