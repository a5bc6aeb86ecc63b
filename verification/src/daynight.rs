//! Day/night classification and clock-text rendering.
//!
//! Times of day arrive as display strings; chrono parses them behind a
//! trusted wrapper, and everything downstream of the parse is verified.

use vstd::prelude::*;

use chrono::Timelike;

use crate::text::{parse_chars, strip_double_zero, strip00, two_digit, two_digit_string, u32_parse};

verus! {

/// What chrono's time parser returns for a subject string and a format
/// string: the hour and minute of the parsed time of day, if the
/// subject parses under that format.
pub uninterp spec fn time_parse(s: Seq<char>, fmt: Seq<char>) -> Option<(u8, u8)>;

/// Relies on chrono::NaiveTime::parse_from_str: the result depends on
/// the two strings alone, and a parsed time's hour is below 24 and its
/// minute below 60 (chrono::Timelike::hour, chrono::Timelike::minute).
#[verifier::external_body]
fn parse_time_of_day(s: &str, fmt: &str) -> (r: Option<(u8, u8)>)
    ensures
        r == time_parse(s@, fmt@),
        r matches Some(t) ==> t.0 < 24 && t.1 < 60,
{
    match chrono::NaiveTime::parse_from_str(s, fmt) {
        Ok(t) => Some((t.hour() as u8, t.minute() as u8)),
        Err(_) => None,
    }
}

/// The format under which an observed (last-updated) time is parsed.
pub open spec fn observed_fmt() -> Seq<char> {
    "%I:%M %P"@
}

/// The format under which a sunset time is parsed.
pub open spec fn sunset_fmt() -> Seq<char> {
    "%I:%M %p"@
}

/// Minutes since midnight of a parsed time; an unparsed time counts as
/// midnight.
pub open spec fn minutes_or_midnight(t: Option<(u8, u8)>) -> int {
    match t {
        Some(hm) => hm.0 * 60 + hm.1,
        None => 0,
    }
}

/// Whether an observed time counts as night against a sunset time:
/// strictly later in the day than sunset, with an unparseable or
/// midnight value on either side counting as day, and a forced-day
/// flag overriding everything.
pub open spec fn night_of(observed: Seq<char>, sunset: Seq<char>, force_day: bool) -> bool {
    if force_day {
        false
    } else {
        let om = minutes_or_midnight(time_parse(observed, observed_fmt()));
        let sm = minutes_or_midnight(time_parse(sunset, sunset_fmt()));
        om != 0 && sm != 0 && om > sm
    }
}

/// Classifies an observed time as day or night relative to a sunset
/// time. Total over all inputs: a string that does not parse as a time
/// of day defaults to midnight, and a midnight value on either side
/// makes the answer "day".
pub fn is_night(last_time_updated: &str, sunset: &str, force_day: bool) -> (r: bool)
    ensures
        r == night_of(last_time_updated@, sunset@, force_day),
        force_day ==> !r,
        time_parse(last_time_updated@, observed_fmt()) is None ==> !r,
        time_parse(sunset@, sunset_fmt()) is None ==> !r,
{
    if force_day {
        return false;
    }
    let updated = parse_time_of_day(last_time_updated, "%I:%M %P");
    let night = parse_time_of_day(sunset, "%I:%M %p");
    let um: u32 = match updated {
        Some((h, m)) => h as u32 * 60 + m as u32,
        None => 0,
    };
    let sm: u32 = match night {
        Some((h, m)) => h as u32 * 60 + m as u32,
        None => 0,
    };
    um != 0 && sm != 0 && um > sm
}

/// The 12-hour clock numeral of an hour (midnight and noon are 12).
pub open spec fn hour12_of(h: int) -> int {
    if h % 12 == 0 {
        12
    } else {
        h % 12
    }
}

/// "AM" or "PM" for an hour of the day.
pub open spec fn meridiem_upper(h: int) -> Seq<char> {
    if h < 12 {
        "AM"@
    } else {
        "PM"@
    }
}

/// "am" or "pm" for an hour of the day.
pub open spec fn meridiem_lower(h: int) -> Seq<char> {
    if h < 12 {
        "am"@
    } else {
        "pm"@
    }
}

/// An hour rendered like chrono's "%I %p": "01 AM" through "12 PM".
pub open spec fn hour_display_12(h: int) -> Seq<char> {
    two_digit(hour12_of(h)) + " "@ + meridiem_upper(h)
}

/// An hour rendered like chrono's "%H": "00" through "23".
pub open spec fn hour_display_24(h: int) -> Seq<char> {
    two_digit(h)
}

/// An on-the-hour time rendered like chrono's "%I:%M %P":
/// "01:00 am" through "12:00 pm".
pub open spec fn clock12_display(h: int) -> Seq<char> {
    two_digit(hour12_of(h)) + ":00 "@ + meridiem_lower(h)
}

fn hour12_numeral(h: u8) -> (r: u32)
    requires
        h < 24,
    ensures
        r as int == hour12_of(h as int),
{
    if h % 12 == 0 {
        12
    } else {
        (h % 12) as u32
    }
}

/// Renders an hour as a 12-hour label, "01 AM" through "12 PM".
pub fn format_hour_12(h: u8) -> (r: String)
    requires
        h < 24,
    ensures
        r@ == hour_display_12(h as int),
{
    let numeral = two_digit_string(hour12_numeral(h));
    let r = numeral.concat(" ").concat(if h < 12 {
        "AM"
    } else {
        "PM"
    });
    proof {
        assert(r@ =~= hour_display_12(h as int));
    }
    r
}

/// Renders an hour as a 24-hour label, "00" through "23".
pub fn format_hour_24(h: u8) -> (r: String)
    requires
        h < 24,
    ensures
        r@ == hour_display_24(h as int),
{
    two_digit_string(h as u32)
}

/// Renders an on-the-hour time as "hh:00 am" / "hh:00 pm".
pub fn format_clock12(h: u8) -> (r: String)
    requires
        h < 24,
    ensures
        r@ == clock12_display(h as int),
{
    let numeral = two_digit_string(hour12_numeral(h));
    let r = numeral.concat(":00 ").concat(if h < 12 {
        "am"
    } else {
        "pm"
    });
    proof {
        assert(r@ =~= clock12_display(h as int));
    }
    r
}

/// The hourly time label's numeric value: the label with its "00"
/// pairs removed, read as a decimal number.
pub open spec fn raw_hour_value(raw: Seq<char>) -> Option<u32> {
    u32_parse(strip00(raw))
}

/// The hour a raw hourly label stands for; a value past 23 falls back
/// to midnight.
pub open spec fn hour_of_raw(raw: Seq<char>) -> int
    recommends
        raw_hour_value(raw) is Some,
{
    let v = raw_hour_value(raw)->Some_0 as int;
    if v <= 23 {
        v
    } else {
        0
    }
}

/// Turns a raw hourly label ("0", "300", ..., "2300") into its display
/// text under the 12-hour or 24-hour preference, along with the hour
/// it stands for. A label that does not read as a number has no hour
/// and is rejected by the precondition.
pub fn reformat_time(raw_time: String, hour_12: bool) -> (r: (String, u8))
    requires
        raw_hour_value(raw_time@) is Some,
    ensures
        r.1 as int == hour_of_raw(raw_time@),
        r.1 < 24,
        hour_12 ==> r.0@ == hour_display_12(hour_of_raw(raw_time@)),
        !hour_12 ==> r.0@ == hour_display_24(hour_of_raw(raw_time@)),
{
    let stripped = strip_double_zero(raw_time.as_str());
    let v = parse_chars(&stripped).unwrap();
    let h: u8 = if v <= 23 {
        v as u8
    } else {
        0
    };
    let display = if hour_12 {
        format_hour_12(h)
    } else {
        format_hour_24(h)
    };
    (display, h)
}

/// A wall-clock reading rendered for display: "hh:mm AM"/"hh:mm PM"
/// under the 12-hour preference, "hh:mm" otherwise.
pub open spec fn clock_text(h: int, m: int, hour_12: bool) -> Seq<char> {
    if hour_12 {
        two_digit(hour12_of(h)) + ":"@ + two_digit(m) + " "@ + meridiem_upper(h)
    } else {
        two_digit(h) + ":"@ + two_digit(m)
    }
}

/// Renders a wall-clock hour and minute for display.
pub fn get_clock(hour: u8, minute: u8, hour_12: bool) -> (r: String)
    requires
        hour < 24,
        minute < 60,
    ensures
        r@ == clock_text(hour as int, minute as int, hour_12),
{
    if hour_12 {
        let r = two_digit_string(hour12_numeral(hour)).concat(":").concat(
            two_digit_string(minute as u32).as_str(),
        ).concat(" ").concat(if hour < 12 {
            "AM"
        } else {
            "PM"
        });
        proof {
            assert(r@ =~= clock_text(hour as int, minute as int, hour_12));
        }
        r
    } else {
        let r = two_digit_string(hour as u32).concat(":").concat(
            two_digit_string(minute as u32).as_str(),
        );
        proof {
            assert(r@ =~= clock_text(hour as int, minute as int, hour_12));
        }
        r
    }
}

} // verus!
