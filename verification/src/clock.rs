//! Local wall-clock values: a time of day and a date-time, held as plain numbers,
//! with the calendar and clock work that `chrono` does for them.

use chrono::{Datelike, Days, Local, NaiveDate, NaiveTime, Timelike};
use vstd::prelude::*;

use crate::text::{self, StripPattern};

verus! {

/// A wall-clock time of day: whole seconds since midnight and a nanosecond fraction.
/// The fraction reaches past one second only while a leap second is being represented.
#[derive(Debug, Clone, Copy, PartialEq, Eq, Structural)]
pub struct ClockTime {
    pub secs: u32,
    pub nanos: u32,
}

/// A local date and time: the day number counted from 1 January of year 1 (day 1),
/// and the time of day.
#[derive(Debug, Clone, Copy, PartialEq, Eq, Structural)]
pub struct LocalDateTime {
    pub days: i32,
    pub time: ClockTime,
}

impl ClockTime {
    /// The ranges that a time of day keeps.
    pub open spec fn wf(self) -> bool {
        self.secs < 86400 && self.nanos < 2_000_000_000
    }

    /// Strictly earlier in the day.
    pub open spec fn spec_lt(self, other: ClockTime) -> bool {
        self.secs < other.secs || (self.secs == other.secs && self.nanos < other.nanos)
    }

    /// Returns whether `self` is strictly earlier in the day than `other`.
    pub fn lt(&self, other: &ClockTime) -> (r: bool)
        ensures
            r == self.spec_lt(*other),
    {
        self.secs < other.secs || (self.secs == other.secs && self.nanos < other.nanos)
    }

    /// The time `hour:minute:second`, if each part is in range.
    pub fn from_hms_opt(hour: u32, minute: u32, second: u32) -> (r: Option<ClockTime>)
        ensures
            (hour < 24 && minute < 60 && second < 60) ==> r == Some(
                ClockTime { secs: (hour * 3600 + minute * 60 + second) as u32, nanos: 0 },
            ),
            !(hour < 24 && minute < 60 && second < 60) ==> r is None,
            r matches Some(t) ==> t.wf(),
    {
        if hour < 24 && minute < 60 && second < 60 {
            Some(ClockTime { secs: hour * 3600 + minute * 60 + second, nanos: 0 })
        } else {
            None
        }
    }

    /// The hour of the day, 0 to 23.
    pub fn hour(&self) -> (r: u32)
        ensures
            r == self.secs / 3600,
    {
        self.secs / 3600
    }

    /// The minute within the hour, 0 to 59.
    pub fn minute(&self) -> (r: u32)
        ensures
            r == (self.secs / 60) % 60,
    {
        (self.secs / 60) % 60
    }
}

impl LocalDateTime {
    /// The ranges that a date-time keeps.
    pub open spec fn wf(self) -> bool {
        self.time.wf()
    }

    /// Strictly earlier.
    pub open spec fn spec_lt(self, other: LocalDateTime) -> bool {
        self.days < other.days || (self.days == other.days && self.time.spec_lt(other.time))
    }

    /// Returns whether `self` is strictly earlier than `other`.
    pub fn lt(&self, other: &LocalDateTime) -> (r: bool)
        ensures
            r == self.spec_lt(*other),
    {
        self.days < other.days || (self.days == other.days && self.time.lt(&other.time))
    }

    /// The date-time `year-month-day hour:minute:second`, if it exists in the calendar.
    pub fn from_ymd_hms_opt(year: i32, month: u32, day: u32, hour: u32, minute: u32, second: u32) -> (r:
        Option<LocalDateTime>)
        ensures
            match (spec_days_from_ymd(year, month, day), hour < 24 && minute < 60 && second < 60) {
                (Some(days), true) => r == Some(
                    LocalDateTime {
                        days,
                        time: ClockTime {
                            secs: (hour * 3600 + minute * 60 + second) as u32,
                            nanos: 0,
                        },
                    },
                ),
                _ => r is None,
            },
    {
        let days = match days_from_ymd(year, month, day) {
            Some(d) => d,
            None => return None,
        };
        match ClockTime::from_hms_opt(hour, minute, second) {
            Some(time) => Some(LocalDateTime { days, time }),
            None => None,
        }
    }

    /// The same time of day on the following date, if that date is in the calendar's range.
    pub fn next_day(&self) -> (r: Option<LocalDateTime>)
        ensures
            r == match spec_day_after(self.days) {
                Some(d) => Some(LocalDateTime { days: d, time: self.time }),
                None => None,
            },
            r matches Some(t) ==> t.days == self.days + 1,
    {
        match day_after(self.days) {
            Some(days) => Some(LocalDateTime { days, time: self.time }),
            None => None,
        }
    }
}

/// The first and last years of `chrono`'s calendar.
pub const FIRST_YEAR: i32 = -262143;

pub const LAST_YEAR: i32 = 262142;

/// A leap year of the proleptic Gregorian calendar.
pub open spec fn is_leap_year(year: int) -> bool {
    year % 4 == 0 && (year % 100 != 0 || year % 400 == 0)
}

/// The number of days in a month (1 to 12) of a year.
pub open spec fn days_in_month(year: int, month: int) -> int {
    if month == 2 {
        if is_leap_year(year) {
            29
        } else {
            28
        }
    } else if month == 4 || month == 6 || month == 9 || month == 11 {
        30
    } else {
        31
    }
}

/// The number of days of a year before the first of a month (1 to 12).
pub open spec fn days_before_month(year: int, month: int) -> int {
    let common: int = if month == 1 {
        0
    } else if month == 2 {
        31
    } else if month == 3 {
        59
    } else if month == 4 {
        90
    } else if month == 5 {
        120
    } else if month == 6 {
        151
    } else if month == 7 {
        181
    } else if month == 8 {
        212
    } else if month == 9 {
        243
    } else if month == 10 {
        273
    } else if month == 11 {
        304
    } else {
        334
    };
    if month > 2 && is_leap_year(year) {
        common + 1
    } else {
        common
    }
}

/// The day number (1 January of year 1 is day 1) of a date of the proleptic Gregorian calendar,
/// if the date exists and lies within `chrono`'s years.
pub open spec fn spec_days_from_ymd(year: i32, month: u32, day: u32) -> Option<i32> {
    if FIRST_YEAR <= year <= LAST_YEAR && 1 <= month <= 12 && 1 <= day <= days_in_month(
        year as int,
        month as int,
    ) {
        let y = year - 1;
        Some(
            (365 * y + y / 4 - y / 100 + y / 400 + days_before_month(year as int, month as int)
                + day) as i32,
        )
    } else {
        None
    }
}

/// The day number of `chrono`'s first date (`NaiveDate::MIN`, 1 January of year -262143).
pub const FIRST_DAY_NUMBER: i32 = -95746129;

/// The day number of `chrono`'s last date (`NaiveDate::MAX`, 31 December of year 262142).
pub const LAST_DAY_NUMBER: i32 = 95745399;

/// The number of the day after day `days`, if both lie within `chrono`'s calendar.
pub open spec fn spec_day_after(days: i32) -> Option<i32> {
    if FIRST_DAY_NUMBER <= days < LAST_DAY_NUMBER {
        Some((days + 1) as i32)
    } else {
        None
    }
}

/// How `chrono` reads a numeric field of width two: one or two leading ASCII digits, their
/// value and what follows them; nothing if `s` does not start with a digit.
pub open spec fn spec_scan_two_digits(s: Seq<char>) -> Option<(int, Seq<char>)> {
    if s.len() >= 1 && text::is_ascii_digit(s[0]) {
        let n: int = if s.len() >= 2 && text::is_ascii_digit(s[1]) {
            2
        } else {
            1
        };
        Some((text::digits_value(s.take(n)), s.skip(n)))
    } else {
        None
    }
}

/// What `NaiveTime::parse_from_str(s, "%H:%M")` accepts and gives: optional leading Unicode
/// whitespace, one or two hour digits (at most 23), `:`, optional whitespace, one or two minute
/// digits (at most 59), and nothing after; the time is that hour and minute with zero seconds.
pub open spec fn spec_parse_hh_mm(s: Seq<char>) -> Option<ClockTime> {
    match spec_scan_two_digits(text::strip_start(s, StripPattern::Whitespace)) {
        Some((hour, after_hour)) => if after_hour.len() >= 1 && after_hour[0] == ':' {
            match spec_scan_two_digits(
                text::strip_start(after_hour.drop_first(), StripPattern::Whitespace),
            ) {
                Some((minute, rest)) => if rest.len() == 0 && hour <= 23 && minute <= 59 {
                    Some(ClockTime { secs: (hour * 3600 + minute * 60) as u32, nanos: 0 })
                } else {
                    None
                },
                None => None,
            }
        } else {
            None
        },
        None => None,
    }
}

proof fn lemma_short_digits_value(d: Seq<char>)
    requires
        1 <= d.len() <= 2,
    ensures
        d.len() == 1 ==> text::digits_value(d) == d[0] as int - '0' as int,
        d.len() == 2 ==> text::digits_value(d) == (d[0] as int - '0' as int) * 10 + (d[1] as int
            - '0' as int),
{
    let e = d.drop_last();
    if d.len() == 1 {
        assert(e.len() == 0);
        assert(text::digits_value(e) == 0);
    } else {
        let f = e.drop_last();
        assert(f.len() == 0);
        assert(text::digits_value(f) == 0);
        assert(e.last() == d[0]);
        assert(text::digits_value(e) == d[0] as int - '0' as int);
    }
}

proof fn lemma_scan_two_digits_nonneg(s: Seq<char>)
    ensures
        spec_scan_two_digits(s) matches Some((v, rest)) ==> 0 <= v <= 99,
{
    if s.len() >= 1 && text::is_ascii_digit(s[0]) {
        let n: int = if s.len() >= 2 && text::is_ascii_digit(s[1]) {
            2
        } else {
            1
        };
        let d = s.take(n);
        lemma_short_digits_value(d);
        assert(d[0] == s[0]);
        if n == 2 {
            assert(d[1] == s[1]);
        }
    }
}

/// A time that `%H:%M` accepts is a valid time of day on a whole minute.
pub proof fn lemma_parsed_time_in_range(s: Seq<char>)
    ensures
        spec_parse_hh_mm(s) matches Some(t) ==> t.wf() && t.nanos == 0 && t.secs % 60 == 0,
{
    let s0 = text::strip_start(s, StripPattern::Whitespace);
    lemma_scan_two_digits_nonneg(s0);
    if let Some((hour, after_hour)) = spec_scan_two_digits(s0) {
        if after_hour.len() >= 1 && after_hour[0] == ':' {
            lemma_scan_two_digits_nonneg(
                text::strip_start(after_hour.drop_first(), StripPattern::Whitespace),
            );
        }
    }
}

/// Every `HH:MM` string with an hour below 24 and a minute below 60 is accepted, with that
/// hour and minute.
pub proof fn lemma_canonical_hh_mm_parses(s: Seq<char>)
    requires
        is_canonical_hh_mm(s),
    ensures
        spec_parse_hh_mm(s) == Some(
            ClockTime { secs: (two_digits_at(s, 0) * 3600 + two_digits_at(s, 3) * 60) as u32, nanos: 0 },
        ),
{
    let w = StripPattern::Whitespace;
    assert(!w.spec_matches(s[0]));
    assert(text::strip_start(s, w) == s);
    let hh = s.take(2);
    lemma_short_digits_value(hh);
    assert(hh[0] == s[0] && hh[1] == s[1]);
    let after_hour = s.skip(2);
    assert(after_hour[0] == ':');
    let m = after_hour.drop_first();
    assert(m =~= s.skip(3));
    assert(!w.spec_matches(m[0]));
    assert(text::strip_start(m, w) == m);
    let mm = m.take(2);
    lemma_short_digits_value(mm);
    assert(mm[0] == s[3] && mm[1] == s[4]);
    assert(m.skip(2).len() == 0);
}

/// The value of the two ASCII digits of `s` at `i` and `i + 1`.
pub open spec fn two_digits_at(s: Seq<char>, i: int) -> int {
    (s[i] as int - '0' as int) * 10 + (s[i + 1] as int - '0' as int)
}

/// `s` is exactly `HH:MM`, two digits each, with an hour below 24 and a minute below 60.
pub open spec fn is_canonical_hh_mm(s: Seq<char>) -> bool {
    &&& s.len() == 5
    &&& '0' <= s[0] <= '9'
    &&& '0' <= s[1] <= '9'
    &&& s[2] == ':'
    &&& '0' <= s[3] <= '9'
    &&& '0' <= s[4] <= '9'
    &&& two_digits_at(s, 0) < 24
    &&& two_digits_at(s, 3) < 60
}

/// Calls `NaiveDate::from_ymd_opt` and reports the date as its day number
/// (`Datelike::num_days_from_ce`).
#[verifier::external_body]
fn days_from_ymd(year: i32, month: u32, day: u32) -> (r: Option<i32>)
    ensures
        r == spec_days_from_ymd(year, month, day),
{
    NaiveDate::from_ymd_opt(year, month, day).map(|date| date.num_days_from_ce())
}

/// Calls `NaiveDate::checked_add_days` with one day on the date numbered `days`
/// (`NaiveDate::from_num_days_from_ce_opt`): the next day's number, unless the day or its
/// successor lies outside `chrono`'s calendar (`NaiveDate::MIN` to `NaiveDate::MAX`).
#[verifier::external_body]
fn day_after(days: i32) -> (r: Option<i32>)
    ensures
        r == spec_day_after(days),
{
    let date = NaiveDate::from_num_days_from_ce_opt(days)?;
    Some(date.checked_add_days(Days::new(1))?.num_days_from_ce())
}

/// Calls `NaiveTime::parse_from_str(s, "%H:%M")` and reports the time as seconds since
/// midnight and nanoseconds; what `chrono` accepts is stated by `spec_parse_hh_mm`.
#[verifier::external_body]
pub(crate) fn parse_hh_mm(s: &str) -> (r: Option<ClockTime>)
    ensures
        r == spec_parse_hh_mm(s@),
{
    NaiveTime::parse_from_str(s, "%H:%M").ok().map(
        |t| ClockTime { secs: t.num_seconds_from_midnight(), nanos: t.nanosecond() },
    )
}

/// `t` is what a call of `local_now` gave: the local wall-clock time at that moment.
pub closed spec fn is_clock_reading(t: LocalDateTime) -> bool {
    call_ensures(local_now, (), t)
}

/// A clock reading is a valid date and time of `chrono`'s calendar.
pub proof fn lemma_clock_reading_is_valid(t: LocalDateTime)
    requires
        is_clock_reading(t),
    ensures
        t.wf(),
        FIRST_DAY_NUMBER <= t.days <= LAST_DAY_NUMBER,
{
}

/// What a call of `local_now` gave is a clock reading.
pub(crate) proof fn lemma_read_clock(t: LocalDateTime)
    requires
        call_ensures(local_now, (), t),
    ensures
        is_clock_reading(t),
{
}

/// Reads the local wall-clock time through `Local::now().naive_local()`. The result depends on
/// the clock and the time zone; only the ranges that `chrono` keeps for a date and a time of day
/// are stated.
#[verifier::external_body]
pub(crate) fn local_now() -> (r: LocalDateTime)
    ensures
        r.wf(),
        FIRST_DAY_NUMBER <= r.days <= LAST_DAY_NUMBER,
{
    let now = Local::now().naive_local();
    LocalDateTime {
        days: now.date().num_days_from_ce(),
        time: ClockTime { secs: now.time().num_seconds_from_midnight(), nanos: now.time().nanosecond() },
    }
}

} // verus!
