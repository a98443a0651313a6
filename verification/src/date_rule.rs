//! Date rules: expressions that name a day of any year, such as "Easter", "25 December" or
//! "the fourth Sunday before 25 December", and their evaluation for a given year.

use vstd::prelude::*;
use crate::date::{
    calendar_day, civil_of, day_in_range, day_of, in_range, is_calendar_date, is_leap_year,
    sunday_after, sunday_on_or_after, sunday_on_or_before, weekday_of, Date, YEAR_MAX, YEAR_MIN,
};

verus! {

/// A rule that names a day of any year.
#[derive(Debug, PartialEq)]
pub enum DateRule {
    /// Easter Sunday.
    Easter,
    /// A day of a month.
    Fixed { month: u8, day: u8 },
    /// So many days after the day of `rule`; before it for a negative `offset`.
    OffsetDays { rule: Box<DateRule>, offset: i32 },
    /// So many weeks after the Sunday on or before the day of `rule`; for a negative
    /// `offset`, so many weeks before the Sunday on or after it.
    OffsetSundays { rule: Box<DateRule>, offset: i32 },
    /// The day of the year before that has the month and day of the rule's day.
    PreviousYear(Box<DateRule>),
    /// The day of the year after that has the month and day of the rule's day.
    NextYear(Box<DateRule>),
    /// The first Sunday after `start` if it is not after `end`, else the day of `fallback`.
    SundayBetweenOrFallback { start: Box<DateRule>, end: Box<DateRule>, fallback: Box<DateRule> },
    /// The day of one rule in a leap year, of another in any other year.
    LeapYearConditional { leap_year_rule: Box<DateRule>, non_leap_year_rule: Box<DateRule> },
    /// The day of `rule`, or the Monday after it if it is a Sunday.
    AvoidSunday { rule: Box<DateRule> },
    /// The Saturday before Septuagesima, in the years in which the Sundays after Epiphany
    /// that have no room before Septuagesima have none in November either.
    DivinoAfflatuAnticipation,
}

/// Month and day of Easter Sunday in a year that is not negative, by the Gregorian
/// computus.
pub open spec fn easter_month_day(year: int) -> (int, int) {
    let a = year % 19;
    let b = year / 100;
    let c = year % 100;
    let d = b / 4;
    let e = b % 4;
    let f = (b + 8) / 25;
    let g = (b - f + 1) / 3;
    let h = (19 * a + b - d - g + 15) % 30;
    let i = c / 4;
    let k = c % 4;
    let l = (32 + 2 * e + 2 * i - h - k) % 7;
    let m = (a + 11 * h + 22 * l) / 451;
    ((h + l - 7 * m + 114) / 31, (h + l - 7 * m + 114) % 31 + 1)
}

/// Easter Sunday of a year. It is undefined for a negative year and for a year that a
/// `Date` cannot hold.
pub open spec fn easter_of(year: int) -> Option<int> {
    if year >= 0 {
        calendar_day(year, easter_month_day(year).0, easter_month_day(year).1)
    } else {
        None
    }
}

/// How many Sundays lie between day `lo` and day `hi`, both counted.
pub open spec fn sundays_in(lo: int, hi: int) -> int
    decreases hi - lo + 1,
{
    if lo > hi {
        0
    } else {
        (if weekday_of(lo) == 0 {
            1int
        } else {
            0int
        }) + sundays_in(lo + 1, hi)
    }
}

/// The greatest number of Sundays after Epiphany that a year can ask for.
pub const MAX_EPIPHANY_SUNDAYS: i64 = 6;

/// The Sunday from which `OffsetSundays` counts its weeks: the one on or before the base
/// day for an offset that is not negative, the one on or after it for a negative offset.
pub open spec fn anchor_sunday(base: int, offset: int) -> int {
    if offset >= 0 {
        sunday_on_or_before(base)
    } else {
        sunday_on_or_after(base)
    }
}

/// The first Sunday of Advent of the year before, as the rule of the anticipation reckons
/// it: four weeks before the Sunday on or after 25 December.
pub open spec fn previous_advent(year: int) -> Option<int> {
    match calendar_day(year - 1, 12, 25) {
        Some(christmas) => day_in_range(sunday_on_or_after(christmas) - 28),
        None => None,
    }
}

/// The day of the anticipation in a year: the Saturday before Septuagesima, where the
/// Sundays from 14 January to that Saturday are fewer than six and the Sundays from
/// 1 November to the day before the first Sunday of Advent are fewer than those missing.
pub open spec fn anticipation_of(year: int) -> Option<int> {
    match easter_of(year) {
        None => None,
        Some(easter) => match day_in_range(easter - 63) {
            None => None,
            Some(septuagesima) => match day_in_range(septuagesima - 1) {
                None => None,
                Some(saturday_before) => match previous_advent(year) {
                    None => None,
                    Some(advent) => match calendar_day(year, 11, 1) {
                        None => None,
                        Some(november) => match calendar_day(year, 1, 14) {
                            None => None,
                            Some(window_start) => {
                                let in_november = sundays_in(november, advent - 1);
                                let in_window = sundays_in(window_start, septuagesima - 1);
                                let surplus = if MAX_EPIPHANY_SUNDAYS > in_window {
                                    MAX_EPIPHANY_SUNDAYS - in_window
                                } else {
                                    0
                                };
                                if surplus > 0 && in_november < surplus {
                                    Some(saturday_before)
                                } else {
                                    None
                                }
                            },
                        },
                    },
                },
            },
        },
    }
}

/// The day of the year `year` that has the month and day of day `base`.
pub open spec fn same_day_of_year(base: int, year: int) -> Option<int> {
    calendar_day(year, civil_of(base).1, civil_of(base).2)
}

impl DateRule {
    /// The day that the rule names in a year, by its number; `None` where the rule names
    /// no day of that year that a `Date` can hold.
    pub open spec fn eval(self, year: int) -> Option<int>
        decreases self,
    {
        match self {
            DateRule::Easter => easter_of(year),
            DateRule::Fixed { month, day } => calendar_day(year, month as int, day as int),
            DateRule::OffsetDays { rule, offset } => match rule.eval(year) {
                Some(base) => day_in_range(base + offset),
                None => None,
            },
            DateRule::OffsetSundays { rule, offset } => match rule.eval(year) {
                Some(base) => day_in_range(anchor_sunday(base, offset as int) + 7 * offset),
                None => None,
            },
            DateRule::PreviousYear(rule) => match rule.eval(year) {
                Some(base) => same_day_of_year(base, year - 1),
                None => None,
            },
            DateRule::NextYear(rule) => match rule.eval(year) {
                Some(base) => same_day_of_year(base, year + 1),
                None => None,
            },
            DateRule::SundayBetweenOrFallback { start, end, fallback } => match start.eval(year) {
                Some(s) => match end.eval(year) {
                    Some(e) => if sunday_after(s) <= e {
                        Some(sunday_after(s))
                    } else {
                        fallback.eval(year)
                    },
                    None => None,
                },
                None => None,
            },
            DateRule::LeapYearConditional { leap_year_rule, non_leap_year_rule } => if is_leap_year(year) {
                leap_year_rule.eval(year)
            } else {
                non_leap_year_rule.eval(year)
            },
            DateRule::AvoidSunday { rule } => match rule.eval(year) {
                Some(base) => if weekday_of(base) == 0 {
                    day_in_range(base + 1)
                } else {
                    Some(base)
                },
                None => None,
            },
            DateRule::DivinoAfflatuAnticipation => anticipation_of(year),
        }
    }

    /// Easter Sunday of a year, by the Gregorian computus.
    pub fn easter_date(year: i32) -> (out: Option<Date>)
        ensures
            day_of(out) == easter_of(year as int),
            0 <= year <= YEAR_MAX ==> out is Some,
    {
        if year < 0 {
            return None;
        }
        let a = year % 19;
        let b = year / 100;
        let c = year % 100;
        let d = b / 4;
        let e = b % 4;
        let f = (b + 8) / 25;
        let g = (b - f + 1) / 3;
        let h = (19 * a + b - d - g + 15) % 30;
        let i = c / 4;
        let k = c % 4;
        let l = (32 + 2 * e + 2 * i - h - k) % 7;
        let m = (a + 11 * h + 22 * l) / 451;
        let month = (h + l - 7 * m + 114) / 31;  // 3 for March, 4 for April
        let day = ((h + l - 7 * m + 114) % 31) + 1;
        Date::from_ymd(year, month as u32, day as u32)
    }

    /// How many Sundays lie between day `lo` and day `hi`, both counted.
    fn count_sundays(lo: i64, hi: i64) -> (out: i64)
        requires
            in_range(lo as int),
            in_range(hi as int),
        ensures
            out == sundays_in(lo as int, hi as int),
            0 <= out,
    {
        let mut count: i64 = 0;
        let mut d: i64 = lo;
        while d <= hi
            invariant
                lo <= d,
                d <= hi + 1 || lo > hi,
                in_range(lo as int),
                in_range(hi as int),
                0 <= count <= d - lo,
                count + sundays_in(d as int, hi as int) == sundays_in(lo as int, hi as int),
            decreases hi - d + 1,
        {
            if d % 7 == 0 {
                count += 1;
            }
            d = d + 1;
        }
        count
    }

    /// The day of the anticipation in a year.
    fn anticipation(year: i32) -> (out: Option<Date>)
        ensures
            day_of(out) == anticipation_of(year as int),
    {
        let easter = match Self::easter_date(year) {
            Some(d) => d,
            None => {
                return None;
            },
        };
        let sept_sun = match easter.add_days(-63) {
            Some(d) => d,
            None => {
                return None;
            },
        };
        let saturday_before = match sept_sun.pred() {
            Some(d) => d,
            None => {
                return None;
            },
        };
        // the first Sunday of Advent, reckoned from 25 December of the year before
        if year == i32::MIN {
            return None;
        }
        let christmas = match Date::from_ymd(year - 1, 12, 25) {
            Some(d) => d,
            None => {
                return None;
            },
        };
        let days_to_sunday: i64 = if christmas.weekday_from_sunday() == 0 {
            0
        } else {
            7 - christmas.weekday_from_sunday() as i64
        };
        let advent_sun = match christmas.add_days(days_to_sunday - 28) {
            Some(d) => d,
            None => {
                return None;
            },
        };
        let nov_first = match Date::from_ymd(year, 11, 1) {
            Some(d) => d,
            None => {
                return None;
            },
        };
        let epiphany_window_start = match Date::from_ymd(year, 1, 14) {
            Some(d) => d,
            None => {
                return None;
            },
        };
        let nov_end: i64 = advent_sun.days() as i64 - 1;
        let sundays_in_nov = if nov_first.days() as i64 <= nov_end {
            Self::count_sundays(nov_first.days() as i64, nov_end)
        } else {
            0
        };
        let sundays_in_epiphany_window = Self::count_sundays(
            epiphany_window_start.days() as i64,
            saturday_before.days() as i64,
        );
        // how many Sundays after Epiphany find no room before Septuagesima
        let surplus = if MAX_EPIPHANY_SUNDAYS > sundays_in_epiphany_window {
            MAX_EPIPHANY_SUNDAYS - sundays_in_epiphany_window
        } else {
            0
        };
        if surplus > 0 && sundays_in_nov < surplus {
            Some(saturday_before)
        } else {
            None
        }
    }

    /// Whether the year has a 29 February.
    pub fn leap_year(year: i32) -> (out: bool)
        ensures
            out == is_leap_year(year as int),
    {
        (year % 4 == 0 && year % 100 != 0) || (year % 400 == 0)
    }

    /// So many weeks after the Sunday on or before `base_date`; for a negative `offset`,
    /// so many weeks before the Sunday on or after it.
    pub fn offset_sundays(base_date: Date, offset: i32) -> (out: Option<Date>)
        ensures
            day_of(out) == day_in_range(anchor_sunday(base_date@, offset as int) + 7 * offset),
    {
        let days_from_sunday = base_date.weekday_from_sunday() as i64;
        let to_anchor: i64 = if offset >= 0 {
            // back to the Sunday on or before the base day
            -days_from_sunday
        } else if days_from_sunday == 0 {
            0
        } else {
            // on to the Sunday on or after the base day
            7 - days_from_sunday
        };
        base_date.add_days(to_anchor + (offset as i64) * 7)
    }

    /// The first Sunday after `start_date`, if it is not after `end_date`.
    pub fn sunday_between(start_date: Date, end_date: Date) -> (out: Option<Date>)
        ensures
            day_of(out) == (if sunday_after(start_date@) <= end_date@ {
                Some(sunday_after(start_date@))
            } else {
                None
            }),
    {
        let days_from_sunday = start_date.weekday_from_sunday() as i64;
        let days_to_add: i64 = if days_from_sunday == 0 {
            7
        } else {
            7 - days_from_sunday
        };
        let next_sunday: i64 = start_date.days() as i64 + days_to_add;
        if next_sunday <= end_date.days() as i64 {
            Date::from_days(next_sunday)
        } else {
            None
        }
    }

    /// The day of the year `year` that has the month and day of `base_date`.
    pub fn in_year(base_date: Date, year: i64) -> (out: Option<Date>)
        ensures
            day_of(out) == same_day_of_year(base_date@, year as int),
    {
        if year < YEAR_MIN as i64 || year > YEAR_MAX as i64 {
            return None;
        }
        Date::from_ymd(year as i32, base_date.month(), base_date.day())
    }

    /// The day that the rule names in the year `year`; `None` where it names no day of
    /// that year that a `Date` can hold.
    pub fn to_day(&self, year: i32) -> (out: Option<Date>)
        ensures
            day_of(out) == self.eval(year as int),
        decreases self,
    {
        match self {
            DateRule::Easter => Self::easter_date(year),
            DateRule::Fixed { month, day } => Date::from_ymd(year, *month as u32, *day as u32),
            DateRule::OffsetDays { rule, offset } => {
                let base_date = match rule.to_day(year) {
                    Some(d) => d,
                    None => {
                        return None;
                    },
                };
                base_date.add_days(*offset as i64)
            },
            DateRule::OffsetSundays { rule, offset } => {
                let base_date = match rule.to_day(year) {
                    Some(d) => d,
                    None => {
                        return None;
                    },
                };
                Self::offset_sundays(base_date, *offset)
            },
            DateRule::PreviousYear(rule) => {
                let base_date = match rule.to_day(year) {
                    Some(d) => d,
                    None => {
                        return None;
                    },
                };
                Self::in_year(base_date, year as i64 - 1)
            },
            DateRule::NextYear(rule) => {
                let base_date = match rule.to_day(year) {
                    Some(d) => d,
                    None => {
                        return None;
                    },
                };
                Self::in_year(base_date, year as i64 + 1)
            },
            DateRule::SundayBetweenOrFallback { start, end, fallback } => {
                let start_date = match start.to_day(year) {
                    Some(d) => d,
                    None => {
                        return None;
                    },
                };
                let end_date = match end.to_day(year) {
                    Some(d) => d,
                    None => {
                        return None;
                    },
                };
                match Self::sunday_between(start_date, end_date) {
                    Some(next_sunday) => Some(next_sunday),
                    None => fallback.to_day(year),
                }
            },
            DateRule::LeapYearConditional { leap_year_rule, non_leap_year_rule } => {
                if Self::leap_year(year) {
                    leap_year_rule.to_day(year)
                } else {
                    non_leap_year_rule.to_day(year)
                }
            },
            DateRule::AvoidSunday { rule } => {
                let base_date = match rule.to_day(year) {
                    Some(d) => d,
                    None => {
                        return None;
                    },
                };
                if base_date.weekday_from_sunday() == 0 {
                    base_date.add_days(1)
                } else {
                    Some(base_date)
                }
            },
            DateRule::DivinoAfflatuAnticipation => Self::anticipation(year),
        }
    }
}

/// The Sunday from which `OffsetSundays` counts is a Sunday at most six days from the base
/// day, on the side that the offset's sign picks, and so is every day whole weeks from it.
pub proof fn lemma_anchor_sunday(base: int, offset: int)
    ensures
        weekday_of(anchor_sunday(base, offset)) == 0,
        weekday_of(anchor_sunday(base, offset) + 7 * offset) == 0,
        offset >= 0 ==> base - 6 <= anchor_sunday(base, offset) <= base,
        offset < 0 ==> base <= anchor_sunday(base, offset) <= base + 6,
{
    crate::date::lemma_weeks_keep_weekday(anchor_sunday(base, offset), offset);
}

impl Clone for DateRule {
    fn clone(&self) -> (out: Self)
        ensures
            out == *self,
        decreases self,
    {
        match self {
            DateRule::Easter => DateRule::Easter,
            DateRule::Fixed { month, day } => DateRule::Fixed { month: *month, day: *day },
            DateRule::OffsetDays { rule, offset } => DateRule::OffsetDays {
                rule: Box::new((**rule).clone()),
                offset: *offset,
            },
            DateRule::OffsetSundays { rule, offset } => DateRule::OffsetSundays {
                rule: Box::new((**rule).clone()),
                offset: *offset,
            },
            DateRule::PreviousYear(rule) => DateRule::PreviousYear(Box::new((**rule).clone())),
            DateRule::NextYear(rule) => DateRule::NextYear(Box::new((**rule).clone())),
            DateRule::SundayBetweenOrFallback { start, end, fallback } => DateRule::SundayBetweenOrFallback {
                start: Box::new((**start).clone()),
                end: Box::new((**end).clone()),
                fallback: Box::new((**fallback).clone()),
            },
            DateRule::LeapYearConditional { leap_year_rule, non_leap_year_rule } => DateRule::LeapYearConditional {
                leap_year_rule: Box::new((**leap_year_rule).clone()),
                non_leap_year_rule: Box::new((**non_leap_year_rule).clone()),
            },
            DateRule::AvoidSunday { rule } => DateRule::AvoidSunday { rule: Box::new((**rule).clone()) },
            DateRule::DivinoAfflatuAnticipation => DateRule::DivinoAfflatuAnticipation,
        }
    }
}

impl Default for DateRule {
    fn default() -> (out: Self)
        ensures
            out == DateRule::Easter,
    {
        DateRule::Easter
    }
}

impl DateRule {
    /// The day of `OffsetSundays` is a Sunday, and lies `offset` weeks from the Sunday
    /// that its direction picks: for an offset that is not negative the Sunday on or
    /// before the base day, which lies at most six days before it; for a negative offset
    /// the Sunday on or after the base day, which lies at most six days after it.
    pub proof fn lemma_offset_sundays_direction(rule: DateRule, offset: i32, year: int)
        requires
            rule.eval(year) is Some,
            (DateRule::OffsetSundays { rule: Box::new(rule), offset }).eval(year) is Some,
        ensures
            ({
                let base = rule.eval(year)->0;
                let day = (DateRule::OffsetSundays { rule: Box::new(rule), offset }).eval(year)->0;
                &&& weekday_of(day) == 0
                &&& offset >= 0 ==> {
                    &&& day == sunday_on_or_before(base) + 7 * offset
                    &&& weekday_of(sunday_on_or_before(base)) == 0
                    &&& base - 6 <= sunday_on_or_before(base) <= base
                    &&& day >= sunday_on_or_before(base)
                }
                &&& offset < 0 ==> {
                    &&& day == sunday_on_or_after(base) + 7 * offset
                    &&& weekday_of(sunday_on_or_after(base)) == 0
                    &&& base <= sunday_on_or_after(base) <= base + 6
                    &&& day < sunday_on_or_after(base)
                }
            }),
    {
        let base = rule.eval(year)->0;
        let whole = DateRule::OffsetSundays { rule: Box::new(rule), offset };
        assert(whole.eval(year) == day_in_range(anchor_sunday(base, offset as int) + 7 * offset));
        lemma_anchor_sunday(base, offset as int);
    }

    /// Easter Sunday of every year from 0 that a `Date` can hold is a day of March, from
    /// the 22nd on, or of April, up to the 25th.
    pub proof fn lemma_easter_exists(year: int)
        requires
            0 <= year <= YEAR_MAX,
        ensures
            easter_of(year) is Some,
            ({
                let (month, day) = easter_month_day(year);
                (month == 3 && 22 <= day <= 31) || (month == 4 && 1 <= day <= 25)
            }),
    {
    }
}

} // verus!
