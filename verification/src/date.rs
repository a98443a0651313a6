//! Days of the proleptic Gregorian calendar, numbered so that 1 January of the year 1 is
//! day 1, and the reckoning of Sundays and weeks on them.

use vstd::prelude::*;
use chrono::{Datelike, NaiveDate};

verus! {

/// The number of the first day that a `Date` can hold: 1 January of the year -262143.
pub const DAYS_MIN: i32 = -95_746_129;

/// The number of the last day that a `Date` can hold: 31 December of the year 262142.
pub const DAYS_MAX: i32 = 95_745_399;

/// The first year of which a `Date` can hold a day.
pub const YEAR_MIN: i32 = -262_143;

/// The last year of which a `Date` can hold a day.
pub const YEAR_MAX: i32 = 262_142;

/// Whether a `Date` can hold the day with this number.
pub open spec fn in_range(n: int) -> bool {
    DAYS_MIN <= n <= DAYS_MAX
}

/// Whether the year has a 29 February.
pub open spec fn is_leap_year(year: int) -> bool {
    (year % 4 == 0 && year % 100 != 0) || year % 400 == 0
}

/// The number of days of a month; 0 for a month that does not exist.
pub open spec fn days_in_month(year: int, month: int) -> int {
    if month == 2 {
        if is_leap_year(year) {
            29
        } else {
            28
        }
    } else if month == 4 || month == 6 || month == 9 || month == 11 {
        30
    } else if 1 <= month <= 12 {
        31
    } else {
        0
    }
}

/// Whether the calendar has this day and a `Date` can hold it.
pub open spec fn is_calendar_date(year: int, month: int, day: int) -> bool {
    &&& YEAR_MIN <= year <= YEAR_MAX
    &&& 1 <= month <= 12
    &&& 1 <= day <= days_in_month(year, month)
}

/// The number of a day of the calendar, as `chrono` counts the days from the beginning of
/// the common era: 1 for 1 January of the year 1. It means something only where
/// `is_calendar_date` holds.
pub uninterp spec fn day_number(year: int, month: int, day: int) -> int;

/// Year, month and day of the day with this number, as `chrono` reads it. It means
/// something only where `in_range` holds.
pub uninterp spec fn civil_of(days: int) -> (int, int, int);

/// The text that `chrono` displays for the day with this number: year, month and day with
/// hyphens between them.
pub uninterp spec fn iso_text(days: int) -> Seq<char>;

/// Calls `NaiveDate::from_ymd_opt` and, on the date it made, `num_days_from_ce`.
///
/// `chrono` makes a date exactly where the calendar has the day and the year is one that
/// it can hold; the number it counts for the date is named `day_number`, and lies between
/// those of its first and its last date.
#[verifier::external_body]
fn civil_to_days(year: i32, month: u32, day: u32) -> (out: Option<i32>)
    ensures
        out is Some <==> is_calendar_date(year as int, month as int, day as int),
        out matches Some(n) ==> n == day_number(year as int, month as int, day as int) && in_range(
            n as int,
        ),
{
    match NaiveDate::from_ymd_opt(year, month, day) {
        Some(date) => Some(date.num_days_from_ce()),
        None => None,
    }
}

/// Calls `NaiveDate::from_num_days_from_ce_opt` and, on the date it made, `year`, `month`
/// and `day`.
///
/// `chrono` makes a date exactly where the number lies between those of its first and its
/// last date; what it reads from the date is named `civil_of`, is a day of the calendar,
/// and is the day that has this number.
#[verifier::external_body]
fn days_to_civil(days: i32) -> (out: Option<(i32, u32, u32)>)
    ensures
        out is Some <==> in_range(days as int),
        out matches Some(c) ==> (c.0 as int, c.1 as int, c.2 as int) == civil_of(days as int)
            && is_calendar_date(c.0 as int, c.1 as int, c.2 as int) && day_number(
            c.0 as int,
            c.1 as int,
            c.2 as int,
        ) == days,
{
    match NaiveDate::from_num_days_from_ce_opt(days) {
        Some(date) => Some((date.year(), date.month(), date.day())),
        None => None,
    }
}

/// Calls `NaiveDate::from_num_days_from_ce_opt` and displays the date it made, which
/// `to_string` does through `NaiveDate`'s `Display`. The text is named `iso_text`.
#[verifier::external_body]
fn days_to_text(days: i32) -> (out: String)
    requires
        in_range(days as int),
    ensures
        out@ == iso_text(days as int),
{
    match NaiveDate::from_num_days_from_ce_opt(days) {
        Some(date) => date.to_string(),
        None => String::new(),
    }
}

/// A day of the calendar, held as its number.
#[derive(Debug, Clone, Copy, PartialEq, Eq, Structural, PartialOrd, Ord, Hash)]
pub struct Date {
    days: i32,
}

impl View for Date {
    type V = int;

    /// The day's number: 1 for 1 January of the year 1.
    closed spec fn view(&self) -> int {
        self.days as int
    }
}

/// How many days after a Sunday the day with this number falls: 0 for a Sunday, 6 for a
/// Saturday. Day 1 is a Monday.
pub open spec fn weekday_of(n: int) -> int {
    n % 7
}

/// The number of the last Sunday that is not after day `n`.
pub open spec fn sunday_on_or_before(n: int) -> int {
    n - weekday_of(n)
}

/// The number of the first Sunday that is not before day `n`.
pub open spec fn sunday_on_or_after(n: int) -> int {
    if weekday_of(n) == 0 {
        n
    } else {
        n + 7 - weekday_of(n)
    }
}

/// The number of the first Sunday after day `n`.
pub open spec fn sunday_after(n: int) -> int {
    n + 7 - weekday_of(n)
}

/// A day any number of weeks away falls on the same day of the week.
pub proof fn lemma_weeks_keep_weekday(n: int, weeks: int)
    ensures
        weekday_of(n + 7 * weeks) == weekday_of(n),
{
    vstd::arithmetic::div_mod::lemma_mod_multiples_vanish(weeks, n, 7);
}

/// The numbers of an optional date.
pub open spec fn day_of(d: Option<Date>) -> Option<int> {
    match d {
        Some(date) => Some(date@),
        None => None,
    }
}

/// The day with this number, where a `Date` can hold it.
pub open spec fn day_in_range(n: int) -> Option<int> {
    if in_range(n) {
        Some(n)
    } else {
        None
    }
}

/// The number of a day of the calendar, where the calendar has the day and a `Date` can
/// hold it.
pub open spec fn calendar_day(year: int, month: int, day: int) -> Option<int> {
    if is_calendar_date(year, month, day) {
        Some(day_number(year, month, day))
    } else {
        None
    }
}

impl Date {
    #[verifier::type_invariant]
    spec fn holds_a_day(self) -> bool {
        in_range(self.days as int)
    }

    /// Two dates are the same date exactly where they hold the same day.
    pub proof fn lemma_same_day(self, other: Date)
        ensures
            (self@ == other@) == (self == other),
    {
    }

    /// The day of the calendar with this year, month and day, if there is one that a
    /// `Date` can hold.
    pub fn from_ymd(year: i32, month: u32, day: u32) -> (out: Option<Date>)
        ensures
            day_of(out) == calendar_day(year as int, month as int, day as int),
            out matches Some(d) ==> in_range(d@),
    {
        match civil_to_days(year, month, day) {
            Some(days) => Some(Date { days }),
            None => None,
        }
    }

    /// The day with this number, if a `Date` can hold it.
    pub fn from_days(days: i64) -> (out: Option<Date>)
        ensures
            day_of(out) == day_in_range(days as int),
    {
        if DAYS_MIN as i64 <= days && days <= DAYS_MAX as i64 {
            Some(Date { days: days as i32 })
        } else {
            None
        }
    }

    /// The day's number.
    pub fn days(&self) -> (out: i32)
        ensures
            out == self@,
            in_range(out as int),
    {
        proof {
            use_type_invariant(self);
        }
        self.days
    }

    /// Year, month and day.
    pub fn ymd(&self) -> (out: (i32, u32, u32))
        ensures
            (out.0 as int, out.1 as int, out.2 as int) == civil_of(self@),
            is_calendar_date(out.0 as int, out.1 as int, out.2 as int),
            day_number(out.0 as int, out.1 as int, out.2 as int) == self@,
    {
        proof {
            use_type_invariant(self);
        }
        match days_to_civil(self.days) {
            Some(c) => c,
            None => (0, 0, 0),
        }
    }

    /// The year.
    pub fn year(&self) -> (out: i32)
        ensures
            out == civil_of(self@).0,
            YEAR_MIN <= out <= YEAR_MAX,
    {
        self.ymd().0
    }

    /// The month, 1 to 12.
    pub fn month(&self) -> (out: u32)
        ensures
            out == civil_of(self@).1,
            1 <= out <= 12,
    {
        self.ymd().1
    }

    /// The day of the month, 1 to 31.
    pub fn day(&self) -> (out: u32)
        ensures
            out == civil_of(self@).2,
            1 <= out <= 31,
    {
        self.ymd().2
    }

    /// How many days after a Sunday the day falls: 0 for a Sunday, 6 for a Saturday.
    pub fn weekday_from_sunday(&self) -> (out: u32)
        ensures
            out == weekday_of(self@),
            out < 7,
    {
        let m: i32 = self.days % 7;
        if m < 0 {
            (m + 7) as u32
        } else {
            m as u32
        }
    }

    /// The day of the week as a number from 1 for a Monday to 7 for a Sunday.
    pub fn weekday_from_monday(&self) -> (out: u32)
        ensures
            out == (if weekday_of(self@) == 0 { 7 } else { weekday_of(self@) }),
            1 <= out <= 7,
    {
        let w = self.weekday_from_sunday();
        if w == 0 {
            7
        } else {
            w
        }
    }

    /// Whether the day is a Sunday.
    pub fn is_sunday(&self) -> (out: bool)
        ensures
            out == (weekday_of(self@) == 0),
    {
        self.weekday_from_sunday() == 0
    }

    /// The day `n` days later, or earlier for a negative `n`, if a `Date` can hold it.
    pub fn add_days(&self, n: i64) -> (out: Option<Date>)
        ensures
            day_of(out) == day_in_range(self@ + n),
    {
        proof {
            use_type_invariant(self);
        }
        if n < -200_000_000 || n > 200_000_000 {
            return None;
        }
        Date::from_days(self.days as i64 + n)
    }

    /// The day before, if a `Date` can hold it.
    pub fn pred(&self) -> (out: Option<Date>)
        ensures
            day_of(out) == day_in_range(self@ - 1),
    {
        self.add_days(-1)
    }

    /// The day after, if a `Date` can hold it.
    pub fn succ(&self) -> (out: Option<Date>)
        ensures
            day_of(out) == day_in_range(self@ + 1),
    {
        self.add_days(1)
    }

    /// How many days `self` lies after `other`; negative where it lies before.
    pub fn days_since(&self, other: &Date) -> (out: i64)
        ensures
            out == self@ - other@,
    {
        proof {
            use_type_invariant(self);
            use_type_invariant(other);
        }
        self.days as i64 - other.days as i64
    }

    /// Whether `self` lies before `other`.
    pub fn is_before(&self, other: &Date) -> (out: bool)
        ensures
            out == (self@ < other@),
    {
        self.days < other.days
    }

    /// Whether `self` lies after `other`.
    pub fn is_after(&self, other: &Date) -> (out: bool)
        ensures
            out == (self@ > other@),
    {
        self.days > other.days
    }

    /// Whether the two are the same day.
    pub fn same_day(&self, other: &Date) -> (out: bool)
        ensures
            out == (self@ == other@),
            out == (*self == *other),
    {
        self.days == other.days
    }

    /// The date as text: year, month and day with hyphens between them.
    pub fn to_string(&self) -> (out: String)
        ensures
            out@ == iso_text(self@),
    {
        proof {
            use_type_invariant(self);
        }
        days_to_text(self.days)
    }
}

} // verus!
