//! Calendar dates and wall-clock timestamps without a time zone, held as
//! plain numbers, with the parsing and formatting that chrono provides.

use chrono::{Datelike, Timelike};
use vstd::prelude::*;
use crate::text::{digits, zero_padded};

verus! {

/// The earliest year a date can have.
pub const MIN_YEAR: i32 = -262143;

/// The latest year a date can have.
pub const MAX_YEAR: i32 = 262142;

/// Leap years of the proleptic Gregorian calendar, year 0 included.
pub open spec fn is_leap_year(year: int) -> bool {
    year % 4 == 0 && (year % 100 != 0 || year % 400 == 0)
}

/// The number of days of a month, for `month` from 1 to 12.
pub open spec fn days_in_month(year: int, month: int) -> int {
    if month == 2 {
        if is_leap_year(year) {
            29
        } else {
            28
        }
    } else if month == 4 || month == 6 || month == 9 || month == 11 {
        30
    } else {
        31
    }
}

/// Whether year, month and day name a day of the calendar.
pub open spec fn valid_ymd(year: int, month: int, day: int) -> bool {
    &&& MIN_YEAR <= year <= MAX_YEAR
    &&& 1 <= month <= 12
    &&& 1 <= day <= days_in_month(year, month)
}

/// A calendar date.
#[derive(Clone, Copy, Debug, PartialEq, Eq, Structural)]
pub struct NaiveDate {
    year: i32,
    month: u32,
    day: u32,
}

impl NaiveDate {
    #[verifier::type_invariant]
    spec fn well_formed(self) -> bool {
        valid_ymd(self.year as int, self.month as int, self.day as int)
    }

    /// The year of the date.
    pub closed spec fn spec_year(&self) -> i32 {
        self.year
    }

    /// The month of the date, 1 to 12 on a valid date.
    pub closed spec fn spec_month(&self) -> u32 {
        self.month
    }

    /// The day of the month, counted from 1.
    pub closed spec fn spec_day(&self) -> u32 {
        self.day
    }

    /// Whether the date names a day of the calendar. Every date that the
    /// program holds does.
    pub open spec fn is_valid(self) -> bool {
        valid_ymd(self.year() as int, self.month() as int, self.day() as int)
    }

    /// The date of the given year, month and day, if there is such a day.
    pub fn from_ymd_opt(year: i32, month: u32, day: u32) -> (r: Option<NaiveDate>)
        ensures
            r is Some <==> valid_ymd(year as int, month as int, day as int),
            r matches Some(d) ==> d.year() == year && d.month() == month && d.day() == day,
    {
        if year < MIN_YEAR || year > MAX_YEAR || month < 1 || month > 12 || day < 1 {
            return None;
        }
        let leap = year % 4 == 0 && (year % 100 != 0 || year % 400 == 0);
        let last: u32 = if month == 2 {
            if leap {
                29
            } else {
                28
            }
        } else if month == 4 || month == 6 || month == 9 || month == 11 {
            30
        } else {
            31
        };
        if day > last {
            return None;
        }
        Some(NaiveDate { year, month, day })
    }

    /// The year of the date.
    #[verifier::when_used_as_spec(spec_year)]
    pub fn year(&self) -> (r: i32)
        ensures
            r == self.year(),
    {
        self.year
    }

    /// The month of the date, from 1 to 12.
    #[verifier::when_used_as_spec(spec_month)]
    pub fn month(&self) -> (r: u32)
        ensures
            r == self.month(),
            1 <= r <= 12,
    {
        proof {
            use_type_invariant(self);
        }
        self.month
    }

    /// The day of the month, from 1 to 31.
    #[verifier::when_used_as_spec(spec_day)]
    pub fn day(&self) -> (r: u32)
        ensures
            r == self.day(),
            1 <= r <= 31,
    {
        proof {
            use_type_invariant(self);
        }
        self.day
    }

    /// This date at the given time of day, if there is such a time.
    pub fn and_hms_opt(&self, hour: u32, minute: u32, second: u32) -> (r: Option<NaiveDateTime>)
        ensures
            r is Some <==> valid_time(hour as int, minute as int, second as int, 0),
            r matches Some(t) ==> t.date() == *self && t.hour() == hour && t.minute() == minute
                && t.second() == second && t.nanosecond() == 0,
    {
        if hour >= 24 || minute >= 60 || second >= 60 {
            return None;
        }
        Some(NaiveDateTime { date: *self, hour, minute, second, nanosecond: 0 })
    }

    /// Whether this date is `other` or a day before it.
    pub fn on_or_before(&self, other: &NaiveDate) -> (r: bool)
        ensures
            r == date_le(*self, *other),
    {
        self.year < other.year || (self.year == other.year && (self.month < other.month || (
        self.month == other.month && self.day <= other.day)))
    }

    /// Whether this date is `other` or a day after it.
    pub fn on_or_after(&self, other: &NaiveDate) -> (r: bool)
        ensures
            r == date_le(*other, *self),
    {
        other.on_or_before(self)
    }
}

/// A calendar date with a time of day.
#[derive(Clone, Copy, Debug, PartialEq, Eq, Structural)]
pub struct NaiveDateTime {
    date: NaiveDate,
    hour: u32,
    minute: u32,
    second: u32,
    nanosecond: u32,
}

impl NaiveDateTime {
    #[verifier::type_invariant]
    spec fn well_formed(self) -> bool {
        valid_time(
            self.hour as int,
            self.minute as int,
            self.second as int,
            self.nanosecond as int,
        )
    }

    /// The calendar date of the timestamp.
    pub closed spec fn spec_date(&self) -> NaiveDate {
        self.date
    }

    /// The hour of the day.
    pub closed spec fn spec_hour(&self) -> u32 {
        self.hour
    }

    /// The minute of the hour.
    pub closed spec fn spec_minute(&self) -> u32 {
        self.minute
    }

    /// The second of the minute.
    pub closed spec fn spec_second(&self) -> u32 {
        self.second
    }

    /// The nanoseconds since the start of the second; a thousand million
    /// or more within a leap second.
    pub closed spec fn spec_nanosecond(&self) -> u32 {
        self.nanosecond
    }

    /// Whether the timestamp names a moment of a calendar day. Every
    /// timestamp that the program holds does.
    pub open spec fn is_valid(self) -> bool {
        &&& self.date().is_valid()
        &&& valid_time(
            self.hour() as int,
            self.minute() as int,
            self.second() as int,
            self.nanosecond() as int,
        )
    }

    /// The calendar date of the timestamp.
    #[verifier::when_used_as_spec(spec_date)]
    pub fn date(&self) -> (r: NaiveDate)
        ensures
            r == self.date(),
    {
        self.date
    }

    /// The hour of the day, from 0 to 23.
    #[verifier::when_used_as_spec(spec_hour)]
    pub fn hour(&self) -> (r: u32)
        ensures
            r == self.hour(),
            r < 24,
    {
        proof {
            use_type_invariant(self);
        }
        self.hour
    }

    /// The minute of the hour, from 0 to 59.
    #[verifier::when_used_as_spec(spec_minute)]
    pub fn minute(&self) -> (r: u32)
        ensures
            r == self.minute(),
            r < 60,
    {
        proof {
            use_type_invariant(self);
        }
        self.minute
    }

    /// The second of the minute, from 0 to 59.
    #[verifier::when_used_as_spec(spec_second)]
    pub fn second(&self) -> (r: u32)
        ensures
            r == self.second(),
            r < 60,
    {
        proof {
            use_type_invariant(self);
        }
        self.second
    }

    /// The nanoseconds since the start of the second.
    #[verifier::when_used_as_spec(spec_nanosecond)]
    pub fn nanosecond(&self) -> (r: u32)
        ensures
            r == self.nanosecond(),
            r < 2_000_000_000,
    {
        proof {
            use_type_invariant(self);
        }
        self.nanosecond
    }
}

/// Whether the numbers name a time of day. The nanoseconds reach into a
/// second thousand million to stand for a leap second.
pub open spec fn valid_time(hour: int, minute: int, second: int, nanosecond: int) -> bool {
    &&& 0 <= hour < 24
    &&& 0 <= minute < 60
    &&& 0 <= second < 60
    &&& 0 <= nanosecond < 2_000_000_000
}

/// Chronological order of dates: `a` is `b` or an earlier day.
pub open spec fn date_le(a: NaiveDate, b: NaiveDate) -> bool {
    ||| a.year() < b.year()
    ||| a.year() == b.year() && a.month() < b.month()
    ||| a.year() == b.year() && a.month() == b.month() && a.day() <= b.day()
}

/// Whether `b` is the day that follows `a` in the calendar.
pub open spec fn is_next_day(a: NaiveDate, b: NaiveDate) -> bool {
    ||| b.year() == a.year() && b.month() == a.month() && b.day() == a.day() + 1
    ||| b.year() == a.year() && b.month() == a.month() + 1 && b.day() == 1 && a.day()
        == days_in_month(a.year() as int, a.month() as int)
    ||| b.year() == a.year() + 1 && b.month() == 1 && b.day() == 1 && a.month() == 12 && a.day()
        == 31
}

/// Two dates of the same year, month and day are the same date.
pub proof fn lemma_date_determined(a: NaiveDate, b: NaiveDate)
    requires
        a.year() == b.year(),
        a.month() == b.month(),
        a.day() == b.day(),
    ensures
        a == b,
{
}

/// The order of dates is total: it is reflexive, antisymmetric and
/// transitive, and any two dates are comparable.
pub proof fn lemma_date_order(a: NaiveDate, b: NaiveDate, c: NaiveDate)
    ensures
        date_le(a, a),
        date_le(a, b) || date_le(b, a),
        date_le(a, b) && date_le(b, a) ==> a == b,
        date_le(a, b) && date_le(b, c) ==> date_le(a, c),
{
    if date_le(a, b) && date_le(b, a) {
        lemma_date_determined(a, b);
    }
}

/// The day after a date comes strictly later in the order.
pub proof fn lemma_next_day_is_later(a: NaiveDate, b: NaiveDate)
    requires
        is_next_day(a, b),
    ensures
        date_le(a, b),
        !date_le(b, a),
{
}

/// The text of a year as the pattern `%Y` writes it: four digits at
/// least, and a sign in front of a year before 0 or after 9999.
pub open spec fn year_text(year: int) -> Seq<char> {
    if 0 <= year <= 9999 {
        zero_padded(digits(year as nat), 4)
    } else if year < 0 {
        seq!['-'] + zero_padded(digits((-year) as nat), 4)
    } else {
        seq!['+'] + zero_padded(digits(year as nat), 4)
    }
}

/// The text of a date in the pattern `%Y-%m-%d`: the year, then month and
/// day in two digits each, with hyphens between.
pub open spec fn ymd_text(date: NaiveDate) -> Seq<char> {
    year_text(date.year() as int) + seq!['-'] + zero_padded(digits(date.month() as nat), 2)
        + seq!['-'] + zero_padded(digits(date.day() as nat), 2)
}

/// The pattern of a date as year, month and day with hyphens between.
pub open spec fn ymd_pattern() -> Seq<char> {
    "%Y-%m-%d"@
}

/// What `chrono::NaiveDate::parse_from_str` makes of a text under a
/// pattern: the date, or nothing where the text does not match.
pub uninterp spec fn parsed_date(text: Seq<char>, pattern: Seq<char>) -> Option<NaiveDate>;

/// What `chrono::NaiveDateTime::parse_from_str` makes of a text under a
/// pattern: the timestamp, or nothing where the text does not match.
pub uninterp spec fn parsed_datetime(text: Seq<char>, pattern: Seq<char>) -> Option<NaiveDateTime>;

/// Calls `chrono::NaiveDate::parse_from_str`. The outcome depends on the
/// two texts alone and is named [`parsed_date`]; chrono only ever yields
/// days of the calendar within its range of years, and an error of any
/// kind becomes `None`.
#[verifier::external_body]
pub(crate) fn parse_date(text: &str, pattern: &str) -> (r: Option<NaiveDate>)
    ensures
        r == parsed_date(text@, pattern@),
        r matches Some(d) ==> d.is_valid(),
{
    match chrono::NaiveDate::parse_from_str(text, pattern) {
        Ok(d) => Some(NaiveDate { year: d.year(), month: d.month(), day: d.day() }),
        Err(_) => None,
    }
}

/// Calls `chrono::NaiveDateTime::parse_from_str`. The outcome depends on
/// the two texts alone and is named [`parsed_datetime`]; chrono only ever
/// yields valid timestamps, and an error of any kind becomes `None`.
#[verifier::external_body]
pub(crate) fn parse_datetime(text: &str, pattern: &str) -> (r: Option<NaiveDateTime>)
    ensures
        r == parsed_datetime(text@, pattern@),
        r matches Some(t) ==> t.is_valid(),
{
    match chrono::NaiveDateTime::parse_from_str(text, pattern) {
        Ok(t) => {
            let date = NaiveDate { year: t.year(), month: t.month(), day: t.day() };
            let (hour, minute, second) = (t.hour(), t.minute(), t.second());
            Some(NaiveDateTime { date, hour, minute, second, nanosecond: t.nanosecond() })
        },
        Err(_) => None,
    }
}

/// Calls `chrono::NaiveDate::format` with the pattern `%Y-%m-%d` and
/// collects the text. chrono writes the year in four digits, signed when
/// it lies outside 0 to 9999, and month and day in two digits each. What
/// it writes this way it also reads back under the same pattern as the
/// date it started from.
#[verifier::external_body]
pub(crate) fn format_date(date: &NaiveDate, pattern: &str) -> (text: String)
    requires
        pattern@ == ymd_pattern(),
    ensures
        text@ == ymd_text(*date),
        parsed_date(text@, pattern@) == Some(*date),
{
    chrono::NaiveDate::from_ymd_opt(date.year, date.month, date.day).unwrap().format(
        pattern,
    ).to_string()
}

} // verus!
