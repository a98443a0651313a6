//! The days of one liturgical year, each with the observance that wins it and those that
//! are commemorated.

use vstd::prelude::*;
use core::marker::PhantomData;
use crate::date::{iso_text, Date};
use crate::feast_rule::joined;
use crate::liturgical_unit::{unit_views, LiturgicalUnit, UnitView};

verus! {

/// One day of a liturgical year.
#[derive(Debug)]
pub struct DayDescription {
    pub date: Date,
    /// The day's place in its season.
    pub day_in_season: String,
    /// The rank's name of the observance that wins the day.
    pub day_rank: String,
    /// The observance that wins the day.
    pub day: LiturgicalUnit,
    /// The observances that are commemorated.
    pub commemorations: Vec<LiturgicalUnit>,
}

/// A `DayDescription` as a plain value.
pub struct DayView {
    pub date: int,
    pub day_in_season: Seq<char>,
    pub day_rank: Seq<char>,
    pub day: UnitView,
    pub commemorations: Seq<UnitView>,
}

impl View for DayDescription {
    type V = DayView;

    open spec fn view(&self) -> DayView {
        DayView {
            date: self.date@,
            day_in_season: self.day_in_season@,
            day_rank: self.day_rank@,
            day: self.day@,
            commemorations: unit_views(self.commemorations@),
        }
    }
}

/// The days of a list, each as a plain value.
pub open spec fn day_views(days: Seq<DayDescription>) -> Seq<DayView> {
    days.map_values(|d: DayDescription| d@)
}

/// A copy of a list of observances.
pub fn clone_units(units: &Vec<LiturgicalUnit>) -> (out: Vec<LiturgicalUnit>)
    ensures
        unit_views(out@) == unit_views(units@),
{
    let mut out: Vec<LiturgicalUnit> = Vec::new();
    let mut i: usize = 0;
    while i < units.len()
        invariant
            i <= units.len(),
            unit_views(out@) == unit_views(units@).subrange(0, i as int),
        decreases units.len() - i,
    {
        let ghost before = out@;
        let copy = units[i].clone();
        assert(copy@ == units@[i as int]@);
        out.push(copy);
        assert(unit_views(out@) =~= unit_views(before).push(copy@));
        i = i + 1;
        assert(unit_views(out@) =~= unit_views(units@).subrange(0, i as int));
    }
    assert(unit_views(units@).subrange(0, units@.len() as int) =~= unit_views(units@));
    out
}

impl Clone for DayDescription {
    fn clone(&self) -> (out: Self)
        ensures
            out@ == self@,
    {
        DayDescription {
            date: self.date,
            day_in_season: self.day_in_season.clone(),
            day_rank: self.day_rank.clone(),
            day: self.day.clone(),
            commemorations: clone_units(&self.commemorations),
        }
    }
}

/// The days of one liturgical year in the edition `R`.
#[derive(Debug)]
pub struct YearCalendar<R> {
    pub year: i32,
    pub name: String,
    pub days: Vec<DayDescription>,
    pub __marker: PhantomData<R>,
}

/// The descriptions of a list of observances.
pub open spec fn descriptions(units: Seq<UnitView>) -> Seq<Seq<char>> {
    units.map_values(|u: UnitView| u.desc)
}

/// The first line of the table of a year.
pub open spec fn csv_header() -> Seq<char> {
    "Date|Day in Season|Rank|Feast|Commemorations\n"@
}

/// The line of a day in the table of a year: the date, the day's place in its season, the
/// winning rank, the winning observance, and the commemorations with commas between them;
/// bars stand between the columns, and the line ends with a line feed.
pub open spec fn csv_row(day: DayView) -> Seq<char> {
    iso_text(day.date) + "|"@ + day.day_in_season + "|"@ + day.day_rank + "|"@ + day.day.desc + "|"@
        + joined(descriptions(day.commemorations), ", "@) + "\n"@
}

/// The lines of the days of a list, one after the other.
pub open spec fn csv_rows(days: Seq<DayView>) -> Seq<char>
    decreases days.len(),
{
    if days.len() == 0 {
        Seq::empty()
    } else {
        csv_rows(days.drop_last()) + csv_row(days.last())
    }
}

/// The place of the first day of a list from place `k` on that has the number `date`.
pub open spec fn place_of_day(days: Seq<DayView>, k: int, date: int) -> Option<int>
    decreases days.len() - k,
{
    if k < 0 || k >= days.len() {
        None
    } else if days[k].date == date {
        Some(k)
    } else {
        place_of_day(days, k + 1, date)
    }
}

/// Appends the descriptions of a list of observances, with `, ` between every two.
fn append_descriptions(out: &mut String, units: &Vec<LiturgicalUnit>)
    ensures
        final(out)@ == old(out)@ + joined(descriptions(unit_views(units@)), ", "@),
{
    let ghost all = descriptions(unit_views(units@));
    let mut i: usize = 0;
    assert(all.subrange(0, 0) =~= Seq::empty());
    assert(old(out)@ + Seq::<char>::empty() =~= old(out)@);
    while i < units.len()
        invariant
            i <= units.len(),
            all == descriptions(unit_views(units@)),
            out@ == old(out)@ + joined(all.subrange(0, i as int), ", "@),
        decreases units.len() - i,
    {
        proof {
            let s = all.subrange(0, i + 1);
            assert(s.drop_last() =~= all.subrange(0, i as int));
            assert(s.last() == units@[i as int]@.desc);
            if i == 0 {
                assert(s[0] == units@[0]@.desc);
                assert(old(out)@ + Seq::<char>::empty() + units@[0]@.desc =~= old(out)@ + units@[0]@.desc);
            } else {
                let before = joined(all.subrange(0, i as int), ", "@);
                assert(old(out)@ + before + ", "@ + s.last() =~= old(out)@ + (before + ", "@ + s.last()));
            }
        }
        if i > 0 {
            out.append(", ");
        }
        out.append(units[i].desc.as_str());
        i = i + 1;
    }
    assert(all.subrange(0, all.len() as int) =~= all);
}

impl<R> YearCalendar<R> {
    /// The year of the calendar.
    pub fn year(&self) -> (out: i32)
        ensures
            out == self.year,
    {
        self.year
    }

    /// The name of the calendar.
    pub fn name(&self) -> (out: &str)
        ensures
            out@ == self.name@,
    {
        self.name.as_str()
    }

    /// The days of the year, in order.
    pub fn days(&self) -> (out: &[DayDescription])
        ensures
            out@ == self.days@,
    {
        self.days.as_slice()
    }

    /// The first day of the calendar that has the date `date`.
    pub fn get_day(&self, date: Date) -> (out: Option<DayDescription>)
        ensures
            match place_of_day(day_views(self.days@), 0, date@) {
                Some(k) => out matches Some(d) && d@ == self.days@[k]@,
                None => out is None,
            },
    {
        let mut k: usize = 0;
        while k < self.days.len()
            invariant
                k <= self.days.len(),
                place_of_day(day_views(self.days@), k as int, date@) == place_of_day(
                    day_views(self.days@),
                    0,
                    date@,
                ),
            decreases self.days.len() - k,
        {
            assert(day_views(self.days@)[k as int] == self.days@[k as int]@);
            if self.days[k].date.same_day(&date) {
                return Some(self.days[k].clone());
            }
            k = k + 1;
        }
        None
    }

    /// The table of the year as text: a line of column names, then a line for every day.
    pub fn generate_year_calendar_csv(&self) -> (out: String)
        ensures
            out@ == csv_header() + csv_rows(day_views(self.days@)),
    {
        let mut csv_content = String::new();
        csv_content.append("Date|Day in Season|Rank|Feast|Commemorations\n");
        let ghost days = day_views(self.days@);
        let mut i: usize = 0;
        assert(days.subrange(0, 0) =~= Seq::empty());
        assert(csv_content@ =~= csv_header() + csv_rows(days.subrange(0, 0)));
        while i < self.days.len()
            invariant
                i <= self.days.len(),
                days == day_views(self.days@),
                csv_content@ == csv_header() + csv_rows(days.subrange(0, i as int)),
            decreases self.days.len() - i,
        {
            let day = &self.days[i];
            let ghost before = csv_content@;
            let date_text = day.date.to_string();
            csv_content.append(date_text.as_str());
            csv_content.append("|");
            csv_content.append(day.day_in_season.as_str());
            csv_content.append("|");
            csv_content.append(day.day_rank.as_str());
            csv_content.append("|");
            csv_content.append(day.day.desc.as_str());
            csv_content.append("|");
            append_descriptions(&mut csv_content, &day.commemorations);
            csv_content.append("\n");
            proof {
                let s = days.subrange(0, i + 1);
                assert(s.drop_last() =~= days.subrange(0, i as int));
                assert(s.last() == day@);
                assert(csv_content@ =~= before + csv_row(day@));
                assert(csv_header() + csv_rows(s.drop_last()) + csv_row(day@) =~= csv_header() + (csv_rows(
                    s.drop_last(),
                ) + csv_row(day@)));
            }
            i = i + 1;
        }
        assert(days.subrange(0, days.len() as int) =~= days);
        csv_content
    }
}

} // verus!
