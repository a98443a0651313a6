//! Handles for the two things a user of the library works with: a calendar as it is
//! written, and a liturgical year that was built from it.

use vstd::prelude::*;
use crate::date::Date;
use crate::date_rule::DateRule;
use crate::feast_rank::feast_rank54::FeastRank54;
use crate::feast_rank::feast_rank62::FeastRank62;
use crate::feast_rank::feast_rank_of::FeastRankOf;
use crate::feast_rank::RankError;
use crate::feast_rule::FeastRule;
use crate::generic_calendar::{
    edition_of, feast_like_from, rank_name_in, same_feast, year_of, CalendarError, CalendarType,
    GenericCalendar,
};
use crate::text::lowercase_of;
use crate::year_calendar::{
    csv_header, csv_rows, day_views, place_of_day, DayDescription, DayView, YearCalendar,
};

verus! {

/// A calendar as it is written.
#[derive(Debug)]
pub struct GenericCalendarHandle(pub GenericCalendar);

/// A liturgical year, in the edition of its calendar.
#[derive(Debug)]
pub enum YearCalendarHandle {
    F54(YearCalendar<FeastRank54>),
    Ef(YearCalendar<FeastRank62>),
    Of(YearCalendar<FeastRankOf>),
}

impl YearCalendarHandle {
    /// The days of the year.
    pub open spec fn days(self) -> Seq<DayDescription> {
        match self {
            YearCalendarHandle::F54(cal) => cal.days@,
            YearCalendarHandle::Ef(cal) => cal.days@,
            YearCalendarHandle::Of(cal) => cal.days@,
        }
    }

    /// The year.
    pub open spec fn year_number(self) -> i32 {
        match self {
            YearCalendarHandle::F54(cal) => cal.year,
            YearCalendarHandle::Ef(cal) => cal.year,
            YearCalendarHandle::Of(cal) => cal.year,
        }
    }

    /// The table of the year as text: a line of column names, then a line for every day.
    pub fn generate_csv(&self) -> (out: String)
        ensures
            out@ == csv_header() + csv_rows(day_views(self.days())),
    {
        match self {
            YearCalendarHandle::F54(cal) => cal.generate_year_calendar_csv(),
            YearCalendarHandle::Ef(cal) => cal.generate_year_calendar_csv(),
            YearCalendarHandle::Of(cal) => cal.generate_year_calendar_csv(),
        }
    }

    /// The year of the calendar.
    pub fn year(&self) -> (out: i32)
        ensures
            out == self.year_number(),
    {
        match self {
            YearCalendarHandle::F54(cal) => cal.year,
            YearCalendarHandle::Ef(cal) => cal.year,
            YearCalendarHandle::Of(cal) => cal.year,
        }
    }

    /// The first day of the year that has the date `date`.
    pub fn get_day_info(&self, date: Date) -> (out: Option<DayDescription>)
        ensures
            match place_of_day(day_views(self.days()), 0, date@) {
                Some(k) => out matches Some(d) && d@ == self.days()[k]@,
                None => out is None,
            },
    {
        match self {
            YearCalendarHandle::F54(cal) => cal.get_day(date),
            YearCalendarHandle::Ef(cal) => cal.get_day(date),
            YearCalendarHandle::Of(cal) => cal.get_day(date),
        }
    }
}

/// The days of a liturgical year of a calendar in the edition that its name stands for.
pub open spec fn year_in_edition(calendar: GenericCalendar, year: int) -> Result<Seq<DayView>, CalendarError> {
    match edition_of(lowercase_of(calendar.name@)) {
        CalendarType::Calendar1954 => year_of::<FeastRank54>(calendar, year, CalendarType::Calendar1954),
        CalendarType::Calendar1962 => year_of::<FeastRank62>(calendar, year, CalendarType::Calendar1962),
        CalendarType::OrdinaryForm => year_of::<FeastRankOf>(calendar, year, CalendarType::OrdinaryForm),
    }
}

impl GenericCalendarHandle {
    /// The name of the calendar.
    pub fn name(&self) -> (out: &str)
        ensures
            out@ == self.0.name@,
    {
        self.0.name.as_str()
    }

    /// How a commemoration is to be read in this calendar.
    pub fn commemoration_interpretation(&self) -> (out: &str)
        ensures
            out@ == self.0.commemoration_interpretation@,
    {
        self.0.commemoration_interpretation.as_str()
    }

    /// The liturgical year `year`, in the edition that the calendar's name stands for.
    pub fn create_year_calendar(&self, year: i32) -> (out: Result<YearCalendarHandle, CalendarError>)
        ensures
            match year_in_edition(self.0, year as int) {
                Ok(days) => out matches Ok(handle) && day_views(handle.days()) == days && handle.year_number()
                    == year,
                Err(e) => out matches Err(x) && x == e,
            },
            out matches Ok(handle) ==> match edition_of(lowercase_of(self.0.name@)) {
                CalendarType::Calendar1954 => handle is F54,
                CalendarType::Calendar1962 => handle is Ef,
                CalendarType::OrdinaryForm => handle is Of,
            },
    {
        match self.0.calendar_type() {
            CalendarType::Calendar1954 => match self.0.instantiate_54_for_lit_year(year) {
                Ok(cal) => Ok(YearCalendarHandle::F54(cal)),
                Err(e) => Err(e),
            },
            CalendarType::Calendar1962 => match self.0.instantiate_62_for_lit_year(year) {
                Ok(cal) => Ok(YearCalendarHandle::Ef(cal)),
                Err(e) => Err(e),
            },
            CalendarType::OrdinaryForm => match self.0.instantiate_of_for_lit_year(year) {
                Ok(cal) => Ok(YearCalendarHandle::Of(cal)),
                Err(e) => Err(e),
            },
        }
    }

    /// The feast whose name is `name`, whatever the case of the letters, with the name of
    /// its rank; `None` where the calendar has no such feast.
    pub fn get_feast_info(&self, name: &str) -> (out: Result<Option<(FeastRule<DateRule>, String)>, RankError>)
        ensures
            match feast_like_from(self.0.feasts@, 0, lowercase_of(name@)) {
                None => out == Ok::<Option<(FeastRule<DateRule>, String)>, RankError>(None),
                Some(i) => match rank_name_in(edition_of(lowercase_of(self.0.name@)), self.0.feasts@[i]) {
                    Ok(t) => out matches Ok(Some(found)) && same_feast(found.0, self.0.feasts@[i])
                        && found.1@ == t,
                    Err(e) => out matches Err(x) && x == e,
                },
            },
    {
        self.0.get_feast_info(name)
    }
}

} // verus!
