//! Dates and times of the proleptic Gregorian calendar, counted from the Unix
//! epoch.
//!
//! A filter value on a date column is compared as the number of days since
//! 1970-01-01, one on a datetime column as the number of microseconds since
//! 1970-01-01T00:00:00. Parsing the text and counting the days and the
//! microseconds between two dates are chrono's work; this module states what
//! the library relies on of chrono's results, and fixes the epoch.

use vstd::prelude::*;
use chrono::Datelike;
use chrono::Timelike;

verus! {

/// A calendar date as chrono's `NaiveDate` reports it.
#[derive(Clone, Copy, Debug, PartialEq, Eq)]
pub struct CalendarDate {
    pub year: i32,
    pub month: u32,
    pub day: u32,
}

/// A date and a time of day as chrono's `NaiveDateTime` reports them. A leap
/// second is second 59 with a nanosecond count of a billion or more.
#[derive(Clone, Copy, Debug, PartialEq, Eq)]
pub struct CalendarDateTime {
    pub date: CalendarDate,
    pub hour: u32,
    pub minute: u32,
    pub second: u32,
    pub nanosecond: u32,
}

pub open spec fn is_leap_year(y: int) -> bool {
    (y % 4 == 0 && y % 100 != 0) || y % 400 == 0
}

pub open spec fn month_length(y: int, m: int) -> int {
    if m == 2 {
        if is_leap_year(y) { 29 } else { 28 }
    } else if m == 4 || m == 6 || m == 9 || m == 11 {
        30
    } else {
        31
    }
}

/// The first and the last year of chrono's `NaiveDate` range.
pub open spec fn min_year() -> int { -262143 }
pub open spec fn max_year() -> int { 262142 }

/// A date that chrono's `NaiveDate` can hold.
pub open spec fn valid_date(d: CalendarDate) -> bool {
    &&& min_year() <= d.year <= max_year()
    &&& 1 <= d.month <= 12
    &&& 1 <= d.day <= month_length(d.year as int, d.month as int)
}

/// A date and time that chrono's `NaiveDateTime` can hold.
pub open spec fn valid_datetime(t: CalendarDateTime) -> bool {
    &&& valid_date(t.date)
    &&& t.hour < 24
    &&& t.minute < 60
    &&& t.second < 60
    &&& t.nanosecond < 2_000_000_000
    &&& t.nanosecond >= 1_000_000_000 ==> t.second == 59
}

/// The Unix epoch, 1970-01-01.
pub open spec fn epoch_date() -> CalendarDate {
    CalendarDate { year: 1970, month: 1, day: 1 }
}

/// Midnight at the start of the Unix epoch.
pub open spec fn epoch_datetime() -> CalendarDateTime {
    CalendarDateTime { date: epoch_date(), hour: 0, minute: 0, second: 0, nanosecond: 0 }
}

/// The Unix epoch, 1970-01-01.
pub fn unix_epoch_date() -> (r: CalendarDate)
    ensures
        r == epoch_date(),
        valid_date(r),
{
    CalendarDate { year: 1970, month: 1, day: 1 }
}

/// Midnight at the start of the Unix epoch.
pub fn unix_epoch_datetime() -> (r: CalendarDateTime)
    ensures
        r == epoch_datetime(),
        valid_datetime(r),
{
    CalendarDateTime { date: unix_epoch_date(), hour: 0, minute: 0, second: 0, nanosecond: 0 }
}

// ---------------------------------------------------------------------------
// chrono
// ---------------------------------------------------------------------------

/// What chrono's `NaiveDate::parse_from_str(s, fmt)` gives: the date's year,
/// month and day, or the text of the parse error.
pub uninterp spec fn chrono_date(s: Seq<char>, fmt: Seq<char>) -> Result<CalendarDate, Seq<char>>;

/// What chrono's `NaiveDateTime::parse_from_str(s, fmt)` gives: the fields of
/// the date and time, or the text of the parse error.
pub uninterp spec fn chrono_datetime(s: Seq<char>, fmt: Seq<char>) -> Result<CalendarDateTime, Seq<char>>;

/// Calls chrono's `NaiveDate::parse_from_str(s, fmt)` and reports the date by
/// its fields, or the error by its `Display` text. Trusted: that the result is
/// `chrono_date(s, fmt)`, and, as chrono documents for every `NaiveDate`, that
/// it is a real date between years -262143 and 262142.
#[verifier::external_body]
pub(crate) fn chrono_parse_date(s: &str, fmt: &str) -> (r: Result<CalendarDate, String>)
    ensures
        match r {
            Ok(d) => chrono_date(s@, fmt@) == Ok::<CalendarDate, Seq<char>>(d) && valid_date(d),
            Err(e) => chrono_date(s@, fmt@) == Err::<CalendarDate, Seq<char>>(e@),
        },
{
    match chrono::NaiveDate::parse_from_str(s, fmt) {
        Ok(d) => Ok(CalendarDate { year: d.year(), month: d.month(), day: d.day() }),
        Err(e) => Err(e.to_string()),
    }
}

/// Calls chrono's `NaiveDateTime::parse_from_str(s, fmt)` and reports the value
/// by its fields, or the error by its `Display` text. Trusted: that the result
/// is `chrono_datetime(s, fmt)`, and the ranges that chrono documents for the
/// fields of a `NaiveDateTime` (a leap second is second 59 with a nanosecond
/// count of a billion or more).
#[verifier::external_body]
pub(crate) fn chrono_parse_datetime(s: &str, fmt: &str) -> (r: Result<CalendarDateTime, String>)
    ensures
        match r {
            Ok(t) => chrono_datetime(s@, fmt@) == Ok::<CalendarDateTime, Seq<char>>(t) && valid_datetime(t),
            Err(e) => chrono_datetime(s@, fmt@) == Err::<CalendarDateTime, Seq<char>>(e@),
        },
{
    match chrono::NaiveDateTime::parse_from_str(s, fmt) {
        Ok(t) => Ok(CalendarDateTime {
            date: CalendarDate { year: t.year(), month: t.month(), day: t.day() },
            hour: t.hour(),
            minute: t.minute(),
            second: t.second(),
            nanosecond: t.nanosecond(),
        }),
        Err(e) => Err(e.to_string()),
    }
}

/// The number of days from `from` to `d`, as chrono's
/// `NaiveDate::signed_duration_since` followed by `TimeDelta::num_days` gives it.
pub uninterp spec fn chrono_days_between(d: CalendarDate, from: CalendarDate) -> i64;

/// The number of whole microseconds from `from` to `t`, as chrono's
/// `NaiveDateTime::signed_duration_since` followed by
/// `TimeDelta::num_microseconds` gives it (`None` when it does not fit an `i64`).
pub uninterp spec fn chrono_micros_between(t: CalendarDateTime, from: CalendarDateTime) -> Option<i64>;

/// Builds the `NaiveDate`s of `d` and `from` and asks chrono for the days from
/// `from` to `d` (`signed_duration_since`, then `num_days`). Trusted: that the
/// result is `chrono_days_between(d, from)`. Both dates must be ones chrono can
/// hold, or `NaiveDate::from_ymd_opt` would give `None`.
#[verifier::external_body]
pub(crate) fn days_between(d: CalendarDate, from: CalendarDate) -> (r: i64)
    requires
        valid_date(d),
        valid_date(from),
    ensures
        r == chrono_days_between(d, from),
{
    let from = chrono::NaiveDate::from_ymd_opt(from.year, from.month, from.day).unwrap();
    let date = chrono::NaiveDate::from_ymd_opt(d.year, d.month, d.day).unwrap();
    date.signed_duration_since(from).num_days()
}

/// Builds the `NaiveDateTime`s of `t` and `from` and asks chrono for the
/// microseconds from `from` to `t` (`signed_duration_since`, then
/// `num_microseconds`). Trusted: that the result is
/// `chrono_micros_between(t, from)`. Both must be ones chrono can hold, or
/// `from_ymd_opt` or `and_hms_nano_opt` would give `None`.
#[verifier::external_body]
pub(crate) fn micros_between(t: CalendarDateTime, from: CalendarDateTime) -> (r: Option<i64>)
    requires
        valid_datetime(t),
        valid_datetime(from),
    ensures
        r == chrono_micros_between(t, from),
{
    let a = chrono::NaiveDate::from_ymd_opt(t.date.year, t.date.month, t.date.day)
        .unwrap()
        .and_hms_nano_opt(t.hour, t.minute, t.second, t.nanosecond)
        .unwrap();
    let b = chrono::NaiveDate::from_ymd_opt(from.date.year, from.date.month, from.date.day)
        .unwrap()
        .and_hms_nano_opt(from.hour, from.minute, from.second, from.nanosecond)
        .unwrap();
    a.signed_duration_since(b).num_microseconds()
}

} // verus!
