//! Wall-clock times for one-shot reminders.
//!
//! A reminder time is written in the fixed textual form `YYYY-MM-DD HH:MM:SS`
//! and read as a local calendar time. Parsing and calendar validity are
//! handled here; only the conversion to an instant, which depends on the
//! host's time zone, is left to an outside library.

use chrono::TimeZone;
use vstd::prelude::*;

verus! {

/// A wall-clock date and time, held as plain calendar fields.
#[derive(Clone, Copy, Debug, PartialEq, Eq, Structural)]
pub struct DateTimeParts {
    pub year: u32,
    pub month: u32,
    pub day: u32,
    pub hour: u32,
    pub minute: u32,
    pub second: u32,
}

/// Whether the character is a decimal digit.
pub open spec fn is_digit(c: char) -> bool {
    48 <= c as u32 <= 57
}

/// The value of a decimal digit character.
pub open spec fn digit_val(c: char) -> int {
    c as u32 - 48
}

/// The value of the two digits at positions `i` and `i + 1`.
pub open spec fn two_digits_val(s: Seq<char>, i: int) -> int {
    10 * digit_val(s[i]) + digit_val(s[i + 1])
}

/// The value of the four digits starting at position `i`.
pub open spec fn four_digits_val(s: Seq<char>, i: int) -> int {
    100 * two_digits_val(s, i) + two_digits_val(s, i + 2)
}

/// Whether the character sequence has the exact shape `YYYY-MM-DD HH:MM:SS`:
/// nineteen characters, digits in the numeric positions and the literal
/// separators in between.
pub open spec fn datetime_format_ok(s: Seq<char>) -> bool {
    &&& s.len() == 19
    &&& is_digit(s[0]) && is_digit(s[1]) && is_digit(s[2]) && is_digit(s[3])
    &&& s[4] == '-'
    &&& is_digit(s[5]) && is_digit(s[6])
    &&& s[7] == '-'
    &&& is_digit(s[8]) && is_digit(s[9])
    &&& s[10] == ' '
    &&& is_digit(s[11]) && is_digit(s[12])
    &&& s[13] == ':'
    &&& is_digit(s[14]) && is_digit(s[15])
    &&& s[16] == ':'
    &&& is_digit(s[17]) && is_digit(s[18])
}

/// The Gregorian leap-year rule.
pub open spec fn spec_is_leap_year(y: int) -> bool {
    y % 4 == 0 && (y % 100 != 0 || y % 400 == 0)
}

/// Days in the given month of the given year.
pub open spec fn spec_days_in_month(y: int, m: int) -> int {
    if m == 2 {
        if spec_is_leap_year(y) {
            29
        } else {
            28
        }
    } else if m == 4 || m == 6 || m == 9 || m == 11 {
        30
    } else {
        31
    }
}

/// Whether the calendar fields name a real wall-clock time: a valid month,
/// a day that exists in that month and year, and a time of day.
pub open spec fn fields_valid(y: int, mo: int, d: int, h: int, mi: int, sec: int) -> bool {
    &&& 1 <= mo <= 12
    &&& 1 <= d <= spec_days_in_month(y, mo)
    &&& 0 <= h < 24
    &&& 0 <= mi < 60
    &&& 0 <= sec < 60
}

/// Whether the character sequence is a well-formed reminder time: the fixed
/// textual shape, and fields that name a real wall-clock time.
pub open spec fn datetime_parses(s: Seq<char>) -> bool {
    &&& datetime_format_ok(s)
    &&& fields_valid(
        four_digits_val(s, 0),
        two_digits_val(s, 5),
        two_digits_val(s, 8),
        two_digits_val(s, 11),
        two_digits_val(s, 14),
        two_digits_val(s, 17),
    )
}

/// The digit's value, or `None` for any other character.
fn digit_of(c: char) -> (r: Option<u32>)
    ensures
        r is Some <==> is_digit(c),
        r matches Some(d) ==> d == digit_val(c) && d <= 9,
{
    let v = c as u32;
    if 48 <= v && v <= 57 {
        Some(v - 48)
    } else {
        None
    }
}

/// Reads the two digits at positions `i` and `i + 1`.
fn two_digits_at(s: &str, i: usize) -> (r: Option<u32>)
    requires
        s@.len() == 19,
        i + 1 < 19,
    ensures
        r is Some <==> is_digit(s@[i as int]) && is_digit(s@[i as int + 1]),
        r matches Some(v) ==> v == two_digits_val(s@, i as int) && v <= 99,
{
    let c0 = digit_of(s.get_char(i));
    let c1 = digit_of(s.get_char(i + 1));
    match (c0, c1) {
        (Some(a), Some(b)) => Some(10 * a + b),
        _ => None,
    }
}

/// Parses the fixed form `YYYY-MM-DD HH:MM:SS` and checks that the fields
/// name a real wall-clock time. Succeeds exactly on the well-formed inputs
/// and returns the written fields.
pub fn parse_datetime(s: &str) -> (r: Option<DateTimeParts>)
    ensures
        r is Some <==> datetime_parses(s@),
        r matches Some(p) ==> p.year == four_digits_val(s@, 0) && p.month == two_digits_val(s@, 5)
            && p.day == two_digits_val(s@, 8) && p.hour == two_digits_val(s@, 11) && p.minute
            == two_digits_val(s@, 14) && p.second == two_digits_val(s@, 17) && fields_valid(
            p.year as int,
            p.month as int,
            p.day as int,
            p.hour as int,
            p.minute as int,
            p.second as int,
        ),
{
    let n = s.unicode_len();
    if n != 19 {
        return None;
    }
    if s.get_char(4) != '-' || s.get_char(7) != '-' || s.get_char(10) != ' ' || s.get_char(13)
        != ':' || s.get_char(16) != ':' {
        return None;
    }
    let hi = match two_digits_at(s, 0) {
        Some(v) => v,
        None => {
            return None;
        },
    };
    let lo = match two_digits_at(s, 2) {
        Some(v) => v,
        None => {
            return None;
        },
    };
    let year = 100 * hi + lo;
    let month = match two_digits_at(s, 5) {
        Some(v) => v,
        None => {
            return None;
        },
    };
    let day = match two_digits_at(s, 8) {
        Some(v) => v,
        None => {
            return None;
        },
    };
    let hour = match two_digits_at(s, 11) {
        Some(v) => v,
        None => {
            return None;
        },
    };
    let minute = match two_digits_at(s, 14) {
        Some(v) => v,
        None => {
            return None;
        },
    };
    let second = match two_digits_at(s, 17) {
        Some(v) => v,
        None => {
            return None;
        },
    };
    if month < 1 || month > 12 {
        return None;
    }
    if day < 1 || day > days_in_month(year, month) {
        return None;
    }
    if hour > 23 || minute > 59 || second > 59 {
        return None;
    }
    Some(DateTimeParts { year, month, day, hour, minute, second })
}

/// Whether the year is a leap year.
pub fn is_leap_year(year: u32) -> (r: bool)
    ensures
        r == spec_is_leap_year(year as int),
{
    year % 4 == 0 && (year % 100 != 0 || year % 400 == 0)
}

/// Days in the given month of the given year.
pub fn days_in_month(year: u32, month: u32) -> (r: u32)
    requires
        1 <= month <= 12,
    ensures
        r == spec_days_in_month(year as int, month as int),
{
    if month == 2 {
        if is_leap_year(year) {
            29
        } else {
            28
        }
    } else if month == 4 || month == 6 || month == 9 || month == 11 {
        30
    } else {
        31
    }
}

/// The wait before a reminder fires: the distance from now to the reminder
/// instant, clamped to zero for an instant already past. Both instants are
/// millisecond Unix timestamps.
pub fn compute_delay_ms(remind_ms: i64, now_ms: i64) -> (d: u64)
    ensures
        d == if remind_ms <= now_ms {
            0
        } else {
            remind_ms - now_ms
        },
{
    if remind_ms <= now_ms {
        0
    } else {
        let diff: i128 = (remind_ms as i128) - (now_ms as i128);
        diff as u64
    }
}

/// Relies on chrono's Local::from_local_datetime, the naive value being built
/// with NaiveDate::from_ymd_opt and and_hms_opt: the millisecond Unix
/// timestamp of the given local calendar time, or `None` when the fields name
/// no real date or the local time is ambiguous or nonexistent (a daylight
/// saving fold or gap). The result depends on the host's time zone, so
/// nothing is promised of it.
#[verifier::external_body]
pub(crate) fn local_to_epoch_ms(p: &DateTimeParts) -> Option<i64> {
    let date = chrono::NaiveDate::from_ymd_opt(p.year as i32, p.month, p.day)?;
    let naive = date.and_hms_opt(p.hour, p.minute, p.second)?;
    let local = chrono::Local.from_local_datetime(&naive).single()?;
    Some(local.timestamp_millis())
}

/// Relies on std::time::SystemTime::now and its duration_since: the current
/// instant as a millisecond Unix timestamp, negative when the host clock
/// reads before the Unix epoch. Nothing is promised of the value: the clock
/// is free to move.
#[verifier::external_body]
pub(crate) fn now_epoch_ms() -> i64 {
    match std::time::SystemTime::now().duration_since(std::time::UNIX_EPOCH) {
        Ok(d) => d.as_millis() as i64,
        Err(e) => 0i64.saturating_sub(e.duration().as_millis() as i64),
    }
}

} // verus!
