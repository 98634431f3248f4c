//! Dates and times of day, read from text by the `chrono` crate.

use chrono::{Datelike, Timelike};
use vstd::prelude::*;

verus! {

/// The year, month and day that `chrono` reads from `text` under `format`,
/// or `None` where it reports an error.
pub uninterp spec fn date_read(text: Seq<char>, format: Seq<char>) -> Option<(i32, u32, u32)>;

/// The hour, minute, second and nanosecond that `chrono` reads from `text`
/// under `format`, or `None` where it reports an error.
pub uninterp spec fn time_read(text: Seq<char>, format: Seq<char>) -> Option<(u32, u32, u32, u32)>;

/// Calls `chrono::NaiveDate::parse_from_str` and takes the date apart with
/// `Datelike::year`, `month` and `day`. Trusted: the result is a function of
/// the two texts alone, named [`date_read`].
#[verifier::external_body]
pub(crate) fn read_date(text: &str, format: &str) -> (date: Option<(i32, u32, u32)>)
    ensures
        date == date_read(text@, format@),
{
    chrono::NaiveDate::parse_from_str(text, format).ok().map(
        |date| (date.year(), date.month(), date.day()),
    )
}

/// Calls `chrono::NaiveTime::parse_from_str` and takes the time apart with
/// `Timelike::hour`, `minute`, `second` and `nanosecond`. Trusted: the result
/// is a function of the two texts alone, named [`time_read`].
#[verifier::external_body]
pub(crate) fn read_time(text: &str, format: &str) -> (time: Option<(u32, u32, u32, u32)>)
    ensures
        time == time_read(text@, format@),
{
    chrono::NaiveTime::parse_from_str(text, format).ok().map(
        |time| (time.hour(), time.minute(), time.second(), time.nanosecond()),
    )
}

} // verus!
