//! Calendar dates and times of day, checked and rendered by chrono, and the
//! local clock.

use vstd::prelude::*;
use crate::text::padded;
use chrono::{Datelike, Timelike};

verus! {

/// Whether `y` is a leap year of the proleptic Gregorian calendar.
pub open spec fn is_leap_year(y: int) -> bool {
    (y % 4 == 0 && y % 100 != 0) || y % 400 == 0
}

/// The number of days of month `m` in year `y`.
pub open spec fn days_in_month(y: int, m: int) -> int {
    if m == 2 {
        if is_leap_year(y) { 29 } else { 28 }
    } else if m == 4 || m == 6 || m == 9 || m == 11 {
        30
    } else {
        31
    }
}

/// The smallest year that a chrono date can hold.
pub open spec fn min_year() -> int {
    -262143
}

/// The largest year that a chrono date can hold.
pub open spec fn max_year() -> int {
    262142
}

/// Whether (year, month, day) names a day that chrono can hold.
pub open spec fn is_valid_date(y: int, m: int, d: int) -> bool {
    &&& min_year() <= y <= max_year()
    &&& 1 <= m <= 12
    &&& 1 <= d <= days_in_month(y, m)
}

/// The year as chrono writes it: four digits for 0..=9999, otherwise a sign
/// and at least four digits.
pub open spec fn year_text(y: int) -> Seq<char> {
    if 0 <= y <= 9999 {
        padded(y as nat, 4)
    } else if y < 0 {
        seq!['-'] + padded((-y) as nat, 4)
    } else {
        seq!['+'] + padded(y as nat, 4)
    }
}

/// A date as chrono writes it (`%Y-%m-%d`).
pub open spec fn date_text(y: int, m: int, d: int) -> Seq<char> {
    year_text(y) + seq!['-'] + padded(m as nat, 2) + seq!['-'] + padded(d as nat, 2)
}

/// Calls `chrono::NaiveDate::from_ymd_opt`. Claimed: it returns a date
/// exactly for the days of the proleptic Gregorian calendar within chrono's
/// year range.
#[verifier::external_body]
fn chrono_date_exists(year: i32, month: u32, day: u32) -> (r: bool)
    ensures
        r == is_valid_date(year as int, month as int, day as int),
{
    chrono::NaiveDate::from_ymd_opt(year, month, day).is_some()
}

/// Calls `Display` of `chrono::NaiveDate`. Claimed: it writes `%Y-%m-%d`,
/// the year with four digits within 0..=9999 and signed outside it.
#[verifier::external_body]
fn chrono_date_text(year: i32, month: u32, day: u32) -> (r: String)
    requires
        is_valid_date(year as int, month as int, day as int),
    ensures
        r@ == date_text(year as int, month as int, day as int),
{
    chrono::NaiveDate::from_ymd_opt(year, month, day).unwrap().to_string()
}

/// Calls `chrono::Local::now` and takes its date (year, month, day) and
/// time of day (hour, minute, second). Claimed: only that the date is a
/// valid one and the ranges of hour, minute and second; which moment it is
/// depends on the clock.
#[verifier::external_body]
fn chrono_local_now() -> (r: (i32, u32, u32, u8, u8, u8))
    ensures
        is_valid_date(r.0 as int, r.1 as int, r.2 as int),
        r.3 < 24,
        r.4 < 60,
        r.5 < 60,
{
    let now = chrono::Local::now();
    let (d, t) = (now.date_naive(), now.time());
    (d.year(), d.month(), d.day(), t.hour() as u8, t.minute() as u8, t.second() as u8)
}

/// Whether `c` is a reading that the local clock can give: a date
/// (year, month, day) and a time (hour, minute, second) that
/// `chrono_local_now` returns.
pub closed spec fn local_clock_reading(c: (i32, u32, u32, u8, u8, u8)) -> bool {
    call_ensures(chrono_local_now, (), c)
}

/// Whether `d` is the date of a reading of the local clock.
pub open spec fn is_local_date(d: CalendarDate) -> bool {
    exists|c: (i32, u32, u32, u8, u8, u8)| #[trigger] local_clock_reading(c)
        && d.spec_year() == c.0 && d.spec_month() == c.1 && d.spec_day() == c.2
}

/// Whether `t` is the time of day of a reading of the local clock.
pub open spec fn is_local_time(t: TimeOfDay) -> bool {
    exists|c: (i32, u32, u32, u8, u8, u8)| #[trigger] local_clock_reading(c)
        && t.hour == c.3 && t.minute == c.4 && t.second == c.5
}

/// A day of the calendar, always one that chrono can hold.
#[derive(Debug, Clone, Copy, PartialEq, Eq, Structural)]
pub struct CalendarDate {
    year: i32,
    month: u32,
    day: u32,
}

impl CalendarDate {
    #[verifier::type_invariant]
    closed spec fn valid(self) -> bool {
        is_valid_date(self.year as int, self.month as int, self.day as int)
    }

    /// The year.
    pub closed spec fn spec_year(self) -> int {
        self.year as int
    }

    /// The month, 1..=12.
    pub closed spec fn spec_month(self) -> int {
        self.month as int
    }

    /// The day of the month.
    pub closed spec fn spec_day(self) -> int {
        self.day as int
    }

    /// The date as chrono writes it.
    pub open spec fn text(self) -> Seq<char> {
        date_text(self.spec_year(), self.spec_month(), self.spec_day())
    }

    /// The date (year, month, day), or `None` where no such day exists.
    pub fn new(year: i32, month: u32, day: u32) -> (r: Option<CalendarDate>)
        ensures
            r is Some <==> is_valid_date(year as int, month as int, day as int),
            r matches Some(d) ==> d.spec_year() == year && d.spec_month() == month
                && d.spec_day() == day,
    {
        if chrono_date_exists(year, month, day) {
            Some(CalendarDate { year, month, day })
        } else {
            None
        }
    }

    /// Today's date on the local clock: the year, month and day of a
    /// reading of it.
    pub fn today_local() -> (r: CalendarDate)
        ensures
            is_local_date(r),
    {
        let c = chrono_local_now();
        assert(local_clock_reading(c));
        let (y, m, d, _, _, _) = c;
        CalendarDate { year: y, month: m, day: d }
    }

    pub fn year(&self) -> (r: i32)
        ensures
            r == self.spec_year(),
    {
        self.year
    }

    pub fn month(&self) -> (r: u32)
        ensures
            r == self.spec_month(),
            1 <= r <= 12,
    {
        proof {
            use_type_invariant(self);
        }
        self.month
    }

    pub fn day(&self) -> (r: u32)
        ensures
            r == self.spec_day(),
    {
        self.day
    }

    /// The date as chrono writes it, such as "2024-01-15".
    pub fn to_text(&self) -> (r: String)
        ensures
            r@ == self.text(),
    {
        proof {
            use_type_invariant(self);
        }
        chrono_date_text(self.year, self.month, self.day)
    }
}

/// A time of day to the second.
#[derive(Debug, Clone, Copy, PartialEq, Eq, Structural)]
pub struct TimeOfDay {
    pub hour: u8,
    pub minute: u8,
    pub second: u8,
}

impl TimeOfDay {
    /// Whether the time names a real time of day.
    pub open spec fn wf(self) -> bool {
        self.hour < 24 && self.minute < 60 && self.second < 60
    }

    /// The time hour:minute:second, or `None` where one is out of range.
    pub fn from_hms(hour: u8, minute: u8, second: u8) -> (r: Option<TimeOfDay>)
        ensures
            r is Some <==> (hour < 24 && minute < 60 && second < 60),
            r matches Some(t) ==> t.hour == hour && t.minute == minute && t.second == second,
    {
        if hour < 24 && minute < 60 && second < 60 {
            Some(TimeOfDay { hour, minute, second })
        } else {
            None
        }
    }

    /// The time of day on the local clock: the hour, minute and second of
    /// a reading of it.
    pub fn now_local() -> (r: TimeOfDay)
        ensures
            r.wf(),
            is_local_time(r),
    {
        let c = chrono_local_now();
        assert(local_clock_reading(c));
        let (_, _, _, h, m, s) = c;
        TimeOfDay { hour: h, minute: m, second: s }
    }
}

/// The local date is read, not made up: every date `today_local` gives is
/// the year, month and day of a reading of the local clock.
pub proof fn law_today_is_clock_date(d: CalendarDate)
    requires
        call_ensures(CalendarDate::today_local, (), d),
    ensures
        exists|c: (i32, u32, u32, u8, u8, u8)| #[trigger] local_clock_reading(c)
            && d.spec_year() == c.0 && d.spec_month() == c.1 && d.spec_day() == c.2,
{
}

/// The local time is read, not made up: every time `now_local` gives holds
/// the hour, minute and second of a reading of the local clock, each in its
/// own field.
pub proof fn law_now_is_clock_time(t: TimeOfDay)
    requires
        call_ensures(TimeOfDay::now_local, (), t),
    ensures
        t.wf(),
        exists|c: (i32, u32, u32, u8, u8, u8)| #[trigger] local_clock_reading(c)
            && t.hour == c.3 && t.minute == c.4 && t.second == c.5,
{
}

}
