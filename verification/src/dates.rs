//! Calendar-date reformatting: an ISO date string becomes a long
//! display date. chrono does the parsing and the rendering behind
//! trusted wrappers; validity of the date itself is stated here.

use vstd::prelude::*;

use chrono::Datelike;
use core::fmt::Write;

use crate::errors::ParseFailure;

verus! {

/// Proleptic-Gregorian leap years.
pub open spec fn is_leap_year(y: int) -> bool {
    y % 4 == 0 && (y % 100 != 0 || y % 400 == 0)
}

/// Days in a month of the proleptic Gregorian calendar.
pub open spec fn days_in_month(y: int, m: int) -> int
    recommends
        1 <= m <= 12,
{
    if m == 2 {
        if is_leap_year(y) {
            29
        } else {
            28
        }
    } else if m == 4 || m == 6 || m == 9 || m == 11 {
        30
    } else {
        31
    }
}

/// A real calendar date within chrono's representable year range.
pub open spec fn ymd_valid(y: int, m: int, d: int) -> bool {
    &&& -262143 <= y <= 262142
    &&& 1 <= m <= 12
    &&& 1 <= d <= days_in_month(y, m)
}

/// What chrono's date parser returns for a subject string and a format
/// string: year, month and day of the parsed date, if the subject
/// parses under that format.
pub uninterp spec fn date_parse(s: Seq<char>, fmt: Seq<char>) -> Option<(i32, u8, u8)>;

/// Relies on chrono::NaiveDate::parse_from_str: the result depends on
/// the two strings alone, and a parsed date is a real calendar date in
/// chrono's year range (chrono::Datelike::year, ::month, ::day).
#[verifier::external_body]
fn parse_calendar_date(s: &str, fmt: &str) -> (r: Option<(i32, u8, u8)>)
    ensures
        r == date_parse(s@, fmt@),
        r matches Some(d) ==> ymd_valid(d.0 as int, d.1 as int, d.2 as int),
{
    match chrono::NaiveDate::parse_from_str(s, fmt) {
        Ok(d) => Some((d.year(), d.month() as u8, d.day() as u8)),
        Err(_) => None,
    }
}

/// What chrono renders a calendar date as, under a format string.
pub uninterp spec fn ymd_format(y: int, m: int, d: int, fmt: Seq<char>) -> Seq<char>;

/// The format of the raw ISO dates in a forecast payload.
pub open spec fn iso_date_fmt() -> Seq<char> {
    "%F"@
}

/// The long display-date format: weekday, month, day, year.
pub open spec fn long_date_fmt() -> Seq<char> {
    "%A %B %e, %Y"@
}

/// Relies on chrono::NaiveDate::from_ymd_opt, which accepts exactly
/// the real calendar dates in chrono's year range, and on
/// chrono::NaiveDate::format, whose rendering depends on the date and
/// the format string alone; the long display format renders on every
/// date, while a specifier a date cannot render fails the write.
#[verifier::external_body]
fn format_calendar_date(y: i32, m: u8, d: u8, fmt: &str) -> (r: Option<String>)
    ensures
        r matches Some(t) ==> t@ == ymd_format(y as int, m as int, d as int, fmt@),
        ymd_valid(y as int, m as int, d as int) && fmt@ == long_date_fmt() ==> r is Some,
{
    let date = chrono::NaiveDate::from_ymd_opt(y, m as u32, d as u32)?;
    let mut out = String::new();
    match write!(out, "{}", date.format(fmt)) {
        Ok(()) => Some(out),
        Err(_) => None,
    }
}

/// The long display date a raw ISO date stands for.
pub open spec fn display_date(raw: Seq<char>) -> Seq<char>
    recommends
        date_parse(raw, iso_date_fmt()) is Some,
{
    let d = date_parse(raw, iso_date_fmt())->Some_0;
    ymd_format(d.0 as int, d.1 as int, d.2 as int, long_date_fmt())
}

/// Reformats a raw ISO date ("2024-01-31") into its long display date
/// ("Wednesday January 31, 2024"). A string that does not parse as an
/// ISO date is a parse failure carrying the offending text.
pub fn reformat_date(raw_date: String) -> (r: Result<String, ParseFailure>)
    ensures
        r matches Ok(t) ==> date_parse(raw_date@, iso_date_fmt()) is Some && t@ == display_date(
            raw_date@,
        ),
        r is Err <==> date_parse(raw_date@, iso_date_fmt()) is None,
        r matches Err(e) ==> (e matches ParseFailure::Date { raw_date: rd } && rd@ == raw_date@),
{
    match parse_calendar_date(raw_date.as_str(), "%F") {
        Some((y, m, d)) => {
            match format_calendar_date(y, m, d, "%A %B %e, %Y") {
                Some(t) => Ok(t),
                None => Err(ParseFailure::Date { raw_date }),
            }
        },
        None => Err(ParseFailure::Date { raw_date }),
    }
}

} // verus!
