//! The builder of a liturgical year: for every day from the first Sunday of Advent to the
//! day before the next, the season's own observance, the feasts of the day and what was
//! transferred from an earlier day compete, and one wins.

use vstd::prelude::*;
use core::marker::PhantomData;
use crate::date::{
    calendar_day, civil_of, in_range, sunday_on_or_after, sunday_on_or_before, weekday_of, Date,
};
use crate::date_calc::{month_name, roman, sundays_counted, to_month_string, to_roman_numeral, weeks_counted};
use crate::day_type::DayType;
use crate::feast_rank::{
    all_below, ranks_of, resolution, resolve_places, BVMOnSaturdayResult, ContextView, FeastRank,
    LiturgicalContext, RankError, ResolveError, Resolved, ResolvedView,
};
use crate::feast_rule::{feast_rank_of, feast_text, feast_views, FeastRule, FeastView};
use crate::generic_calendar::CalendarType;
use crate::liturgical_unit::{unit_views, LiturgicalUnit, UnitView};
use crate::season_rule::{ferial_rank_from, name_of_lent, SeasonRule, SeasonView};
use crate::text::{has_substring, int_text, int_to_string, str_contains, str_eq};
use crate::year_calendar::{day_views, DayDescription, DayView, YearCalendar};

verus! {

/// What a year is built from: the seasons and feasts of the year, the first Sunday of
/// Advent that begins it and the one that begins the next.
#[derive(Debug)]
pub struct YearCalendarBuilder {
    pub year: i32,
    pub name: String,
    pub seasons: Vec<SeasonRule<Date>>,
    /// The feasts of the year. Those of one day compete in the order of this list.
    pub feasts: Vec<FeastRule<Date>>,
    pub first_advent: Date,
    pub next_first_advent: Date,
    pub calendar_type: CalendarType,
}

/// Why a year could not be built. Every error names the day, by its number, on which it
/// came up.
#[derive(Debug, Clone, Copy, PartialEq, Eq, Structural)]
pub enum GenerateError {
    /// The builder has no season at all.
    NoSeasons { day: i32 },
    /// A weekday lies in no season, so that no rank is known for it.
    NoSeason { day: i32 },
    /// A rank code is unknown.
    Rank { day: i32, error: RankError },
    /// The observances of the day could not be resolved.
    Conflict { day: i32, error: ResolveError },
    /// The Sunday before the day lies outside the range of dates.
    OutOfRange { day: i32 },
}

/// A builder as a plain value.
pub struct BuilderView {
    pub seasons: Seq<SeasonView>,
    pub feasts: Seq<FeastView>,
    pub first_advent: int,
    pub next_first_advent: int,
    pub ordinary_form: bool,
}

/// The seasons of a list, each as a plain value.
pub open spec fn season_views(seasons: Seq<SeasonRule<Date>>) -> Seq<SeasonView> {
    seasons.map_values(|s: SeasonRule<Date>| s@)
}

impl View for YearCalendarBuilder {
    type V = BuilderView;

    open spec fn view(&self) -> BuilderView {
        BuilderView {
            seasons: season_views(self.seasons@),
            feasts: feast_views(self.feasts@),
            first_advent: self.first_advent@,
            next_first_advent: self.next_first_advent@,
            ordinary_form: self.calendar_type == CalendarType::OrdinaryForm,
        }
    }
}

/// Whether day `date` lies within a season.
pub open spec fn covers(season: SeasonView, date: int) -> bool {
    season.begin <= date <= season.end
}

/// The place of the most specific season for day `date` among those from place `k` on
/// and the one at place `best`: of the seasons that cover the day the shortest, and of
/// several that are shortest the first.
pub open spec fn most_specific_from(seasons: Seq<SeasonView>, k: int, date: int, best: Option<int>) -> Option<
    int,
>
    decreases seasons.len() - k,
{
    if k < 0 || k >= seasons.len() {
        best
    } else if covers(seasons[k], date) && (best matches Some(b) ==> seasons[k].end - seasons[k].begin
        < seasons[b].end - seasons[b].begin) {
        most_specific_from(seasons, k + 1, date, Some(k))
    } else {
        most_specific_from(seasons, k + 1, date, best)
    }
}

/// The place of the season of day `date`: the most specific one that covers the day, or
/// the first season of the list where none covers it.
pub open spec fn season_place(seasons: Seq<SeasonView>, date: int) -> int {
    match most_specific_from(seasons, 0, date, None) {
        Some(i) => i,
        None => 0,
    }
}

/// Whether `best` is the place of the most specific season for day `date` among the first
/// `n` seasons: it covers the day, no season that covers the day is shorter, none before
/// it is as short; and it is `None` exactly where no season covers the day.
pub open spec fn is_most_specific(seasons: Seq<SeasonView>, n: int, date: int, best: Option<int>) -> bool {
    match best {
        Some(b) => {
            &&& 0 <= b < n
            &&& covers(seasons[b], date)
            &&& forall|j: int|
                0 <= j < n && covers(#[trigger] seasons[j], date) ==> {
                    &&& seasons[b].end - seasons[b].begin <= seasons[j].end - seasons[j].begin
                    &&& j < b ==> seasons[b].end - seasons[b].begin < seasons[j].end - seasons[j].begin
                }
        },
        None => forall|j: int| 0 <= j < n ==> !covers(#[trigger] seasons[j], date),
    }
}

/// The search for the most specific season goes on rightly from any place.
pub proof fn lemma_most_specific_from(seasons: Seq<SeasonView>, k: int, date: int, best: Option<int>)
    requires
        0 <= k <= seasons.len(),
        is_most_specific(seasons, k, date, best),
    ensures
        is_most_specific(seasons, seasons.len() as int, date, most_specific_from(seasons, k, date, best)),
    decreases seasons.len() - k,
{
    if k < seasons.len() {
        if covers(seasons[k], date) && (best matches Some(b) ==> seasons[k].end - seasons[k].begin
            < seasons[b].end - seasons[b].begin) {
            assert(is_most_specific(seasons, k + 1, date, Some(k)));
            lemma_most_specific_from(seasons, k + 1, date, Some(k));
        } else {
            assert(is_most_specific(seasons, k + 1, date, best));
            lemma_most_specific_from(seasons, k + 1, date, best);
        }
    }
}

/// The season of a day is the shortest of the seasons that cover it, and the first of
/// several that are shortest; where no season covers the day, it is the first of the list.
pub proof fn lemma_season_place(seasons: Seq<SeasonView>, date: int)
    ensures
        is_most_specific(seasons, seasons.len() as int, date, most_specific_from(seasons, 0, date, None)),
        most_specific_from(seasons, 0, date, None) is None ==> season_place(seasons, date) == 0,
        most_specific_from(seasons, 0, date, None) matches Some(i) ==> season_place(seasons, date) == i,
{
    lemma_most_specific_from(seasons, 0, date, None);
}

/// The place of the first season from place `k` on that has the name `name`.
pub open spec fn first_named(seasons: Seq<SeasonView>, k: int, name: Seq<char>) -> Option<int>
    decreases seasons.len() - k,
{
    if k < 0 || k >= seasons.len() {
        None
    } else if seasons[k].name == name {
        Some(k)
    } else {
        first_named(seasons, k + 1, name)
    }
}

/// The place of the first season from place `k` on whose name holds `Ordinary Time` and
/// `word`.
pub open spec fn first_ordinary(seasons: Seq<SeasonView>, k: int, word: Seq<char>) -> Option<int>
    decreases seasons.len() - k,
{
    if k < 0 || k >= seasons.len() {
        None
    } else if has_substring(seasons[k].name, "Ordinary Time"@) && has_substring(seasons[k].name, word) {
        Some(k)
    } else {
        first_ordinary(seasons, k + 1, word)
    }
}

/// The day from which the Sundays of a season are counted.
pub open spec fn sundays_start(season: SeasonView) -> int {
    match season.sundays_from {
        Some(d) => d,
        None => season.begin,
    }
}

/// The day from which the weeks of a season are counted.
pub open spec fn ferias_start(season: SeasonView) -> int {
    match season.ferias_from {
        Some(d) => d,
        None => season.begin,
    }
}

/// How many Sundays a season counts in all.
pub open spec fn sundays_of(season: SeasonView) -> int {
    let last_sunday = sunday_on_or_before(season.end);
    if last_sunday >= sundays_start(season) {
        sundays_counted(sundays_start(season), last_sunday)
    } else {
        0
    }
}

/// How many weeks a season counts in all.
pub open spec fn weeks_of(season: SeasonView) -> int {
    if season.end >= ferias_start(season) {
        weeks_counted(ferias_start(season), season.end)
    } else {
        0
    }
}

/// How many weeks Ordinary Time has in the year: the Sundays of its part before Lent and
/// of its part after Pentecost; 34 where the seasons do not name both parts.
pub open spec fn total_ordinary_time_weeks(seasons: Seq<SeasonView>) -> int {
    match (first_ordinary(seasons, 0, "before"@), first_ordinary(seasons, 0, "after"@)) {
        (Some(before), Some(after)) => sundays_of(seasons[before]) + sundays_of(seasons[after]),
        _ => 34,
    }
}

/// The number of the week of day `date` within a season that counts by itself: the count
/// of Sundays for a Sunday, the count of weeks for a weekday.
pub open spec fn standard_week_ordinal(season: SeasonView, date: int) -> int {
    if weekday_of(date) == 0 {
        sundays_counted(sundays_start(season), date)
    } else {
        weeks_counted(ferias_start(season), date)
    }
}

/// The number of the week of day `date` within a season. A season that goes on with the
/// count of another adds that season's whole count, and in the Ordinary Form one week
/// more where Ordinary Time has 33 weeks.
pub open spec fn week_ordinal(b: BuilderView, season: SeasonView, date: int) -> int {
    match season.continue_counting_from_season {
        Some(name) => match first_named(b.seasons, 0, name) {
            Some(r) => {
                let before = if weekday_of(date) == 0 {
                    sundays_of(b.seasons[r])
                } else {
                    weeks_of(b.seasons[r])
                };
                let adjustment: int = if b.ordinary_form && total_ordinary_time_weeks(b.seasons) == 33 {
                    1
                } else {
                    0
                };
                before + standard_week_ordinal(season, date) + adjustment
            },
            None => standard_week_ordinal(season, date),
        },
        None => standard_week_ordinal(season, date),
    }
}

/// The Latin name of the day of the week.
pub open spec fn feria_name(date: int) -> Seq<char> {
    if weekday_of(date) == 6 {
        "Sabbato"@
    } else if weekday_of(date) == 0 {
        "Dominica"@
    } else {
        "Feria "@ + roman(weekday_of(date) + 1)
    }
}

/// The words that follow the number of the week: those that the season names for a
/// Sunday or for a weekday, or `of` and the season's name.
pub open spec fn suffix_text(season: SeasonView, date: int) -> Seq<char> {
    let named = if weekday_of(date) == 0 {
        season.sundays_suffix
    } else {
        season.ferias_suffix
    };
    match named {
        Some(s) => s,
        None => "of "@ + season.name,
    }
}

/// The number of the week with the word before it and the blank after it.
pub open spec fn ordinal_text(season: SeasonView, ordinal: int, date: int) -> Seq<char> {
    if season.dont_show_week_of_season {
        Seq::empty()
    } else if ordinal == 0 {
        "after start "@
    } else if weekday_of(date) == 0 {
        roman(ordinal) + " "@
    } else {
        "week "@ + roman(ordinal) + " "@
    }
}

/// The week of the month, in brackets, for a day that is not before the day from which
/// the season shows it: the Sundays of the month are counted up to the Sunday on or
/// before the day. `None` where that Sunday lies outside the range of dates.
pub open spec fn week_of_month_text(season: SeasonView, date: int) -> Option<Seq<char>> {
    match season.append_week_of_month {
        None => Some(Seq::empty()),
        Some(lower_bound) => if lower_bound > date {
            Some(Seq::empty())
        } else {
            let sunday = sunday_on_or_before(date);
            if !in_range(sunday) {
                None
            } else {
                match calendar_day(civil_of(sunday).0, civil_of(sunday).1, 1) {
                    None => None,
                    Some(first_of_month) => Some(
                        " (Week "@ + int_text(
                            sundays_counted(sunday_on_or_after(first_of_month), sunday),
                        ) + " of "@ + month_name(civil_of(sunday).1) + ")"@,
                    ),
                }
            }
        },
    }
}

/// The description of the place of day `date` in a season.
pub open spec fn descriptor_in(b: BuilderView, season: SeasonView, date: int) -> Option<Seq<char>> {
    match week_of_month_text(season, date) {
        Some(week_of_month) => Some(
            feria_name(date) + " "@ + ordinal_text(season, week_ordinal(b, season, date), date)
                + suffix_text(season, date) + week_of_month,
        ),
        None => None,
    }
}

/// The rank code of the days within an octave; `I` where the season names none.
pub open spec fn octave_code(season: SeasonView) -> Seq<char> {
    match season.octave_rank {
        Some(r) => r,
        None => "I"@,
    }
}

/// The rank code of the Sundays of a season; `II` where the season names none.
pub open spec fn sunday_code(season: SeasonView) -> Seq<char> {
    match season.sunday_rank {
        Some(r) => r,
        None => "II"@,
    }
}

/// The rank of the season's own observance of day `date` in the edition `R`, the
/// description of the day being `descriptor`.
pub open spec fn season_rank_in<R: FeastRank>(season: SeasonView, date: int, descriptor: Seq<char>) -> Result<
    R,
    GenerateError,
> {
    let base = ContextView {
        season_name: Some(season.name),
        of_lent: name_of_lent(season.name),
        ..ContextView::blank()
    };
    let built = if weekday_of(date) == 0 {
        if season.is_octave {
            R::built(
                octave_code(season),
                DayType::Octave,
                ContextView { secondary_day_type: Some(DayType::Sunday), ..base },
            )
        } else {
            R::built(sunday_code(season), DayType::Sunday, base)
        }
    } else {
        let weekday = ContextView { feast_name: Some(descriptor), ..base };
        if season.is_octave {
            R::built(
                octave_code(season),
                DayType::Octave,
                ContextView { secondary_day_type: Some(DayType::Feria), ..weekday },
            )
        } else {
            R::built(ferial_rank_from(season.ferial_rules, 0, date), DayType::Feria, weekday)
        }
    };
    if weekday_of(date) != 0 && !season.is_octave && !covers(season, date) {
        Err(GenerateError::NoSeason { day: date as i32 })
    } else {
        match built {
            Ok(r) => Ok(r),
            Err(e) => Err(GenerateError::Rank { day: date as i32, error: e }),
        }
    }
}

/// The day from which the Sundays of a season are counted.
fn sundays_start_of(season: &SeasonRule<Date>) -> (out: i64)
    ensures
        out == sundays_start(season@),
        in_range(out as int),
{
    match season.counting.sundays_from {
        Some(d) => d.days() as i64,
        None => season.core.begin.days() as i64,
    }
}

/// The day from which the weeks of a season are counted.
fn ferias_start_of(season: &SeasonRule<Date>) -> (out: i64)
    ensures
        out == ferias_start(season@),
        in_range(out as int),
{
    match season.counting.ferias_from {
        Some(d) => d.days() as i64,
        None => season.core.begin.days() as i64,
    }
}

/// How many Sundays a season counts in all.
fn count_sundays_of(season: &SeasonRule<Date>) -> (out: i64)
    ensures
        out == sundays_of(season@),
        0 <= out <= 300_000_000,
{
    let last_sunday = crate::date_calc::preceding_sunday_number(season.core.end.days() as i64);
    let count_from = sundays_start_of(season);
    if last_sunday >= count_from {
        crate::date_calc::count_sundays_between(count_from, last_sunday)
    } else {
        0
    }
}

/// How many weeks a season counts in all.
fn count_weeks_of(season: &SeasonRule<Date>) -> (out: i64)
    ensures
        out == weeks_of(season@),
        0 <= out <= 300_000_000,
{
    let count_from = ferias_start_of(season);
    let end = season.core.end.days() as i64;
    if end >= count_from {
        crate::date_calc::count_weeks_between(count_from, end)
    } else {
        0
    }
}

impl YearCalendarBuilder {
    /// The place of the season of the day `date` in the list of seasons.
    pub fn season_index(&self, date: &Date) -> (out: usize)
        requires
            self.seasons.len() > 0,
        ensures
            out == season_place(self@.seasons, date@),
            out < self.seasons.len(),
    {
        let mut best: Option<usize> = None;
        let mut k: usize = 0;
        while k < self.seasons.len()
            invariant
                k <= self.seasons.len(),
                best matches Some(b) ==> b < self.seasons.len(),
                most_specific_from(
                    self@.seasons,
                    k as int,
                    date@,
                    match best {
                        Some(b) => Some(b as int),
                        None => None,
                    },
                ) == most_specific_from(self@.seasons, 0, date@, None),
            decreases self.seasons.len() - k,
        {
            let season = &self.seasons[k];
            assert(self@.seasons[k as int] == season@);
            if !date.is_before(&season.core.begin) && !date.is_after(&season.core.end) {
                let shorter = match best {
                    Some(b) => {
                        assert(self@.seasons[b as int] == self.seasons@[b as int]@);
                        season.core.end.days_since(&season.core.begin) < self.seasons[b].core.end.days_since(
                            &self.seasons[b].core.begin,
                        )
                    },
                    None => true,
                };
                if shorter {
                    best = Some(k);
                }
            }
            k = k + 1;
        }
        match best {
            Some(b) => b,
            None => 0,
        }
    }

    /// The season of the day `date`: the most specific one that covers the day, or the
    /// first season where none covers it.
    pub fn get_season(&self, date: &Date) -> (out: &SeasonRule<Date>)
        requires
            self.seasons.len() > 0,
        ensures
            out@ == self@.seasons[season_place(self@.seasons, date@)],
    {
        let i = self.season_index(date);
        assert(self@.seasons[i as int] == self.seasons@[i as int]@);
        &self.seasons[i]
    }

    /// The liturgical color of the season of the day `date`.
    pub fn get_season_color(&self, date: &Date) -> (out: String)
        requires
            self.seasons.len() > 0,
        ensures
            out@ == self@.seasons[season_place(self@.seasons, date@)].color,
    {
        let season = self.get_season(date);
        season.core.color.clone()
    }

    /// The place of the first season whose name holds `Ordinary Time` and `word`.
    fn find_ordinary(&self, word: &str) -> (out: Option<usize>)
        ensures
            match first_ordinary(self@.seasons, 0, word@) {
                Some(i) => out == Some(i as usize) && 0 <= i < self.seasons.len(),
                None => out is None,
            },
    {
        let mut k: usize = 0;
        while k < self.seasons.len()
            invariant
                k <= self.seasons.len(),
                first_ordinary(self@.seasons, k as int, word@) == first_ordinary(self@.seasons, 0, word@),
            decreases self.seasons.len() - k,
        {
            let season = &self.seasons[k];
            assert(self@.seasons[k as int] == season@);
            if str_contains(season.core.name.as_str(), "Ordinary Time") && str_contains(
                season.core.name.as_str(),
                word,
            ) {
                return Some(k);
            }
            k = k + 1;
        }
        None
    }

    /// The place of the first season that has the name `name`.
    fn find_named(&self, name: &str) -> (out: Option<usize>)
        ensures
            match first_named(self@.seasons, 0, name@) {
                Some(i) => out == Some(i as usize) && 0 <= i < self.seasons.len(),
                None => out is None,
            },
    {
        let mut k: usize = 0;
        while k < self.seasons.len()
            invariant
                k <= self.seasons.len(),
                first_named(self@.seasons, k as int, name@) == first_named(self@.seasons, 0, name@),
            decreases self.seasons.len() - k,
        {
            let season = &self.seasons[k];
            assert(self@.seasons[k as int] == season@);
            if str_eq(season.core.name.as_str(), name) {
                return Some(k);
            }
            k = k + 1;
        }
        None
    }

    /// How many weeks Ordinary Time has in the year.
    pub fn get_total_ordinary_time_weeks(&self) -> (out: i32)
        ensures
            out == total_ordinary_time_weeks(self@.seasons),
    {
        let before_lent = self.find_ordinary("before");
        let after_pentecost = self.find_ordinary("after");
        match (before_lent, after_pentecost) {
            (Some(before), Some(after)) => {
                assert(self@.seasons[before as int] == self.seasons@[before as int]@);
                assert(self@.seasons[after as int] == self.seasons@[after as int]@);
                let before_weeks = count_sundays_of(&self.seasons[before]);
                let after_weeks = count_sundays_of(&self.seasons[after]);
                (before_weeks + after_weeks) as i32
            },
            _ => 34,
        }
    }

    /// The number of the week of the day `date` within a season that counts by itself.
    pub fn get_standard_week_ordinal(&self, season: &SeasonRule<Date>, date: &Date) -> (out: i32)
        ensures
            out == standard_week_ordinal(season@, date@),
            0 <= out <= 300_000_000,
    {
        if date.is_sunday() {
            crate::date_calc::count_sundays_between(sundays_start_of(season), date.days() as i64) as i32
        } else {
            crate::date_calc::count_weeks_between(ferias_start_of(season), date.days() as i64) as i32
        }
    }

    /// The number of the week of the day `date` within a season.
    pub fn get_week_ordinal_for_season(&self, season: &SeasonRule<Date>, date: &Date) -> (out: i32)
        ensures
            out == week_ordinal(self@, season@, date@),
    {
        match &season.counting.continue_counting_from_season {
            Some(ref_season_name) => {
                match self.find_named(ref_season_name.as_str()) {
                    Some(r) => {
                        let ref_season = &self.seasons[r];
                        assert(self@.seasons[r as int] == ref_season@);
                        let ref_season_weeks = if date.is_sunday() {
                            count_sundays_of(ref_season)
                        } else {
                            count_weeks_of(ref_season)
                        };
                        // one week is skipped where Ordinary Time has 33 weeks
                        let week_adjustment: i64 = if self.calendar_type == CalendarType::OrdinaryForm {
                            let total_ot_weeks = self.get_total_ordinary_time_weeks();
                            if total_ot_weeks == 33 {
                                1
                            } else {
                                0
                            }
                        } else {
                            0
                        };
                        let current_season_weeks = self.get_standard_week_ordinal(season, date) as i64;
                        (ref_season_weeks + current_season_weeks + week_adjustment) as i32
                    },
                    None => self.get_standard_week_ordinal(season, date),
                }
            },
            None => self.get_standard_week_ordinal(season, date),
        }
    }

    /// The week of the month of the day `date`, in brackets, where the season shows it.
    fn week_of_month(season: &SeasonRule<Date>, date: &Date) -> (out: Option<String>)
        ensures
            match week_of_month_text(season@, date@) {
                Some(t) => out matches Some(s) && s@ == t,
                None => out is None,
            },
    {
        match season.display.append_week_of_month {
            None => Some(String::new()),
            Some(lower_bound) => {
                if lower_bound.is_after(date) {
                    Some(String::new())
                } else {
                    let preceding_sunday = match crate::date_calc::get_preceding_sunday(*date) {
                        Some(d) => d,
                        None => {
                            return None;
                        },
                    };
                    let month = preceding_sunday.month();
                    let first_of_month = match Date::from_ymd(preceding_sunday.year(), month, 1) {
                        Some(d) => d,
                        None => {
                            return None;
                        },
                    };
                    let first_sunday_of_month = crate::date_calc::following_sunday_number(
                        first_of_month.days() as i64,
                    );
                    let week_of_month = crate::date_calc::count_sundays_between(
                        first_sunday_of_month,
                        preceding_sunday.days() as i64,
                    );
                    let mut out = String::from_str(" (Week ");
                    out.append(int_to_string(week_of_month).as_str());
                    out.append(" of ");
                    out.append(to_month_string(month).as_str());
                    out.append(")");
                    Some(out)
                }
            },
        }
    }

    /// The description of the place of the day `date` in its season, such as
    /// `Feria III week II of Advent`.
    pub fn get_season_descriptor(&self, date: &Date) -> (out: Result<String, GenerateError>)
        requires
            self.seasons.len() > 0,
        ensures
            match descriptor_in(self@, self@.seasons[season_place(self@.seasons, date@)], date@) {
                Some(t) => out matches Ok(s) && s@ == t,
                None => out == Err::<String, GenerateError>(GenerateError::OutOfRange { day: date@ as i32 }),
            },
    {
        let season = self.get_season(date);
        let weekday = date.weekday_from_monday();
        let mut out = if weekday == 6 {
            String::from_str("Sabbato")
        } else if weekday == 7 {
            String::from_str("Dominica")
        } else {
            let mut feria = String::from_str("Feria ");
            feria.append(to_roman_numeral((weekday + 1) as i32).as_str());
            feria
        };
        assert(out@ == feria_name(date@));
        let week_ordinal = self.get_week_ordinal_for_season(season, date);
        let week_of_month = match Self::week_of_month(season, date) {
            Some(s) => s,
            None => {
                return Err(GenerateError::OutOfRange { day: date.days() });
            },
        };
        out.append(" ");
        if season.display.dont_show_week_of_season {
        } else if week_ordinal == 0 {
            out.append("after start ");
        } else if weekday == 7 {
            out.append(to_roman_numeral(week_ordinal).as_str());
            out.append(" ");
        } else {
            out.append("week ");
            out.append(to_roman_numeral(week_ordinal).as_str());
            out.append(" ");
        }
        assert(out@ =~= feria_name(date@) + " "@ + ordinal_text(season@, week_ordinal as int, date@));
        let named = if weekday == 7 {
            season.get_count_sundays_suffix()
        } else {
            season.get_count_ferias_suffix()
        };
        match named {
            Some(s) => {
                out.append(s);
            },
            None => {
                out.append("of ");
                out.append(season.core.name.as_str());
            },
        }
        assert(out@ =~= feria_name(date@) + " "@ + ordinal_text(season@, week_ordinal as int, date@)
            + suffix_text(season@, date@));
        out.append(week_of_month.as_str());
        Ok(out)
    }

    /// The rank of the season's own observance of the day `date` in the edition `R`.
    pub fn season_day_to_feast_rank<R: FeastRank>(&self, date: &Date) -> (out: Result<R, GenerateError>)
        requires
            self.seasons.len() > 0,
        ensures
            ({
                let season = self@.seasons[season_place(self@.seasons, date@)];
                match descriptor_in(self@, season, date@) {
                    Some(t) => out == season_rank_in::<R>(season, date@, t),
                    None => if weekday_of(date@) == 0 {
                        out == season_rank_in::<R>(season, date@, Seq::empty())
                    } else {
                        out == Err::<R, GenerateError>(GenerateError::OutOfRange { day: date@ as i32 })
                    },
                }
            }),
            out matches Ok(r) ==> r.well_formed(),
    {
        let season = self.get_season(date);
        let context = LiturgicalContext::new().season(season.core.name.as_str()).of_lent(season.is_of_lent());
        let default_octave = String::from_str("I");
        let built = if date.is_sunday() {
            if season.octave.is_octave {
                // a Sunday within an octave
                let rank: &str = match &season.octave.octave_rank {
                    Some(r) => r.as_str(),
                    None => default_octave.as_str(),
                };
                R::new_with_context(rank, &DayType::Octave, &context.also_sunday())
            } else {
                R::new_with_context(season.get_sunday_rank().as_str(), &DayType::Sunday, &context)
            }
        } else {
            let descriptor = match self.get_season_descriptor(date) {
                Ok(s) => s,
                Err(e) => {
                    return Err(e);
                },
            };
            let context = context.feast(descriptor.as_str());
            if season.octave.is_octave {
                // a weekday within an octave
                let rank: &str = match &season.octave.octave_rank {
                    Some(r) => r.as_str(),
                    None => default_octave.as_str(),
                };
                R::new_with_context(rank, &DayType::Octave, &context.also_ferial())
            } else {
                if date.is_before(&season.core.begin) || date.is_after(&season.core.end) {
                    return Err(GenerateError::NoSeason { day: date.days() });
                }
                R::new_with_context(season.get_ferial_rank_for_date(date).as_str(), &DayType::Feria, &context)
            }
        };
        match built {
            Ok(r) => Ok(r),
            Err(e) => Err(GenerateError::Rank { day: date.days(), error: e }),
        }
    }
}

/// A feast as an observance of day `date`, its rank being `rank`.
pub open spec fn unit_of_feast<R: FeastRank>(feast: FeastView, rank: R, date: int) -> UnitView {
    UnitView {
        desc: feast_text(feast.name, feast.titles),
        rank: rank.rank_text(),
        date,
        color: feast.color,
    }
}

/// The feasts of day `date` as competitors, in the order of the list; the error of the
/// first of them whose rank code is unknown.
pub open spec fn feast_competitors<R: FeastRank>(feasts: Seq<FeastView>, date: int) -> Result<
    Seq<(R, UnitView)>,
    GenerateError,
>
    decreases feasts.len(),
{
    if feasts.len() == 0 {
        Ok(Seq::empty())
    } else {
        match feast_competitors::<R>(feasts.drop_last(), date) {
            Err(e) => Err(e),
            Ok(before) => {
                let feast = feasts.last();
                if feast.date != date {
                    Ok(before)
                } else {
                    match feast_rank_of::<R>(
                        feast.name,
                        feast.rank,
                        feast.day_type,
                        feast.movable,
                        feast.of_our_lord,
                    ) {
                        Ok(r) => Ok(before.push((r, unit_of_feast(feast, r, date)))),
                        Err(e) => Err(GenerateError::Rank { day: date as i32, error: e }),
                    }
                }
            },
        }
    }
}

/// Whether one of the competitors is a feria or a Sunday by its rank.
pub open spec fn any_ferial_or_sunday<R: FeastRank>(competitors: Seq<(R, UnitView)>) -> bool {
    exists|i: int| 0 <= i < competitors.len() && (#[trigger] competitors[i]).0.ferial_or_sunday()
}

/// Whether one of the competitors is a high festival by its rank.
pub open spec fn any_high_festival<R: FeastRank>(competitors: Seq<(R, UnitView)>) -> bool {
    exists|i: int| 0 <= i < competitors.len() && (#[trigger] competitors[i]).0.high_festival()
}

/// An observance marked as transferred from another day.
pub open spec fn transferred_unit(unit: UnitView) -> UnitView {
    UnitView { desc: unit.desc + " (transferred)"@, ..unit }
}

/// The competitors of a day: the feasts of the day; the season's own observance, unless
/// one of the feasts is a feria or a Sunday by its rank; and the observance that waits in
/// the transfer slot, unless one of the feasts is a high festival.
pub open spec fn competitors_of<R: FeastRank>(
    feasts: Seq<(R, UnitView)>,
    season: (R, UnitView),
    slot: Option<(R, UnitView)>,
) -> Seq<(R, UnitView)> {
    feasts + (if any_ferial_or_sunday(feasts) {
        Seq::empty()
    } else {
        seq![season]
    }) + (match slot {
        Some(waiting) => if any_high_festival(feasts) {
            Seq::empty()
        } else {
            seq![(waiting.0, transferred_unit(waiting.1))]
        },
        None => Seq::empty(),
    })
}

/// The transfer slot after the day took from it what it could: empty unless a high
/// festival kept the waiting observance out.
pub open spec fn slot_after<R: FeastRank>(feasts: Seq<(R, UnitView)>, slot: Option<(R, UnitView)>) -> Option<
    (R, UnitView),
> {
    if any_high_festival(feasts) {
        slot
    } else {
        None
    }
}

/// The observances at the given places of a list of competitors.
pub open spec fn units_at<R: FeastRank>(competitors: Seq<(R, UnitView)>, places: Seq<usize>) -> Seq<UnitView> {
    places.map_values(|i: usize| competitors[i as int].1)
}

/// The Saturday office of the Blessed Virgin as a commemoration of day `date`.
pub open spec fn saturday_unit<R: FeastRank>(date: int) -> UnitView {
    UnitView {
        desc: "BVM on Saturday"@,
        rank: R::saturday_rank()->0.rank_text(),
        date,
        color: "white"@,
    }
}

/// The day as it is recorded, the competitors being resolved as `v` says. On a Saturday
/// whose winner admits it, the office of the Blessed Virgin takes the place of the winner's
/// description or is added to the commemorations.
pub open spec fn recorded_day<R: FeastRank>(
    date: int,
    descriptor: Seq<char>,
    competitors: Seq<(R, UnitView)>,
    v: ResolvedView,
) -> DayView {
    let winner = competitors[v.winner as int];
    let commemorated = units_at(competitors, v.commemorations);
    let admission = if weekday_of(date) == 6 {
        winner.0.saturday_admission()
    } else {
        BVMOnSaturdayResult::NotAdmitted
    };
    DayView {
        date,
        day_in_season: descriptor,
        day_rank: winner.1.rank,
        day: if admission == BVMOnSaturdayResult::Admitted {
            UnitView { desc: "BVM on Saturday"@, ..winner.1 }
        } else {
            winner.1
        },
        commemorations: if admission == BVMOnSaturdayResult::Commemorated {
            commemorated.push(saturday_unit::<R>(date))
        } else {
            commemorated
        },
    }
}

/// The ranks of a list of competitors.
pub open spec fn competitor_ranks<R: FeastRank>(competitors: Seq<(R, UnitView)>) -> Seq<R> {
    competitors.map_values(|p: (R, UnitView)| p.0)
}

/// One day of the year: the day as it is recorded, and the transfer slot as the day leaves
/// it. The slot goes in with what an earlier day transferred; what this day transfers goes
/// into the slot only if the slot is empty by then.
pub open spec fn day_step<R: FeastRank>(b: BuilderView, date: int, slot: Option<(R, UnitView)>) -> Result<
    (DayView, Option<(R, UnitView)>),
    GenerateError,
> {
    if b.seasons.len() == 0 {
        Err(GenerateError::NoSeasons { day: date as i32 })
    } else {
        let season = b.seasons[season_place(b.seasons, date)];
        match descriptor_in(b, season, date) {
            None => Err(GenerateError::OutOfRange { day: date as i32 }),
            Some(descriptor) => match season_rank_in::<R>(season, date, descriptor) {
                Err(e) => Err(e),
                Ok(season_rank) => match feast_competitors::<R>(b.feasts, date) {
                    Err(e) => Err(e),
                    Ok(feasts) => {
                        let season_unit = UnitView {
                            desc: descriptor,
                            rank: season_rank.rank_text(),
                            date,
                            color: season.color,
                        };
                        let competitors = competitors_of(feasts, (season_rank, season_unit), slot);
                        match resolution(competitor_ranks(competitors)) {
                            Err(e) => Err(GenerateError::Conflict { day: date as i32, error: e }),
                            Ok(v) => Ok(
                                (
                                    recorded_day(date, descriptor, competitors, v),
                                    match slot_after(feasts, slot) {
                                        Some(waiting) => Some(waiting),
                                        None => match v.transferred {
                                            Some(t) => Some(competitors[t as int]),
                                            None => None,
                                        },
                                    },
                                ),
                            ),
                        }
                    },
                },
            },
        }
    }
}

/// The days from `date` to `end`, one after the other, the transfer slot going from each
/// day to the next; the error of the first day that fails.
pub open spec fn days_from<R: FeastRank>(b: BuilderView, date: int, end: int, slot: Option<(R, UnitView)>) -> Result<
    Seq<DayView>,
    GenerateError,
>
    decreases end - date + 1,
{
    if date > end {
        Ok(Seq::empty())
    } else {
        match day_step(b, date, slot) {
            Err(e) => Err(e),
            Ok(step) => after_days(seq![step.0], days_from(b, date + 1, end, step.1)),
        }
    }
}

/// The days `before`, followed by the days of `rest`, or the error of `rest`.
pub open spec fn after_days(before: Seq<DayView>, rest: Result<Seq<DayView>, GenerateError>) -> Result<
    Seq<DayView>,
    GenerateError,
> {
    match rest {
        Ok(days) => Ok(before + days),
        Err(e) => Err(e),
    }
}

/// The days of the liturgical year: from the first Sunday of Advent to the day before the
/// next, beginning with an empty transfer slot.
pub open spec fn year_days<R: FeastRank>(b: BuilderView) -> Result<Seq<DayView>, GenerateError> {
    days_from::<R>(b, b.first_advent, b.next_first_advent - 1, None)
}

/// A year that is built has exactly one day for every day from `date` to `end`, in the
/// order of the days: no day is missing, none comes twice.
pub proof fn lemma_one_day_each<R: FeastRank>(b: BuilderView, date: int, end: int, slot: Option<(R, UnitView)>)
    requires
        days_from(b, date, end, slot) is Ok,
    ensures
        ({
            let days = days_from(b, date, end, slot)->Ok_0;
            &&& days.len() == (if end >= date {
                end - date + 1
            } else {
                0
            })
            &&& forall|i: int| 0 <= i < days.len() ==> (#[trigger] days[i]).date == date + i
            &&& forall|i: int, j: int| 0 <= i < j < days.len() ==> days[i].date < days[j].date
        }),
    decreases end - date + 1,
{
    if date <= end {
        let step = day_step(b, date, slot)->Ok_0;
        lemma_one_day_each(b, date + 1, end, step.1);
        let rest = days_from(b, date + 1, end, step.1)->Ok_0;
        let days = days_from(b, date, end, slot)->Ok_0;
        assert(days =~= seq![step.0] + rest);
        assert(step.0.date == date);
        assert forall|i: int| 0 <= i < days.len() implies (#[trigger] days[i]).date == date + i by {
            if i > 0 {
                assert(days[i] == rest[i - 1]);
            }
        }
    }
}

/// The competitors of a list, each with its observance as a plain value.
pub open spec fn competitor_views<R: FeastRank>(competitors: Seq<(R, LiturgicalUnit)>) -> Seq<(R, UnitView)> {
    competitors.map_values(|p: (R, LiturgicalUnit)| (p.0, p.1@))
}

/// A transfer slot with its observance as a plain value.
pub open spec fn slot_view<R: FeastRank>(slot: Option<(R, LiturgicalUnit)>) -> Option<(R, UnitView)> {
    match slot {
        Some(p) => Some((p.0, p.1@)),
        None => None,
    }
}

/// What holds of a list of feasts holds of the list with more feasts behind it, where it
/// is an error.
proof fn lemma_feasts_fail<R: FeastRank>(feasts: Seq<FeastView>, k: int, date: int)
    requires
        0 <= k <= feasts.len(),
        feast_competitors::<R>(feasts.subrange(0, k), date) is Err,
    ensures
        feast_competitors::<R>(feasts, date) == feast_competitors::<R>(feasts.subrange(0, k), date),
    decreases feasts.len() - k,
{
    if k == feasts.len() {
        assert(feasts.subrange(0, k) =~= feasts);
    } else {
        let s = feasts.subrange(0, k + 1);
        assert(s.drop_last() =~= feasts.subrange(0, k));
        lemma_feasts_fail::<R>(feasts, k + 1, date);
    }
}

/// The feasts of a list that fall on day `date`, in the order of the list.
pub open spec fn feasts_on(feasts: Seq<FeastView>, date: int) -> Seq<FeastView> {
    feasts.filter(|f: FeastView| f.date == date)
}

/// Whether one of the competitors is a feria or a Sunday by its rank.
fn has_ferial_or_sunday<R: FeastRank>(competitors: &Vec<(R, LiturgicalUnit)>) -> (out: bool)
    ensures
        out == any_ferial_or_sunday(competitor_views(competitors@)),
{
    let mut i: usize = 0;
    while i < competitors.len()
        invariant
            i <= competitors.len(),
            forall|j: int| 0 <= j < i ==> !(#[trigger] competitor_views(competitors@)[j]).0.ferial_or_sunday(),
        decreases competitors.len() - i,
    {
        assert(competitor_views(competitors@)[i as int].0 == competitors@[i as int].0);
        if competitors[i].0.is_ferial_or_sunday_rank() {
            return true;
        }
        i = i + 1;
    }
    false
}

/// Whether one of the competitors is a high festival by its rank.
fn has_high_festival<R: FeastRank>(competitors: &Vec<(R, LiturgicalUnit)>) -> (out: bool)
    ensures
        out == any_high_festival(competitor_views(competitors@)),
{
    let mut i: usize = 0;
    while i < competitors.len()
        invariant
            i <= competitors.len(),
            forall|j: int| 0 <= j < i ==> !(#[trigger] competitor_views(competitors@)[j]).0.high_festival(),
        decreases competitors.len() - i,
    {
        assert(competitor_views(competitors@)[i as int].0 == competitors@[i as int].0);
        if competitors[i].0.is_high_festial() {
            return true;
        }
        i = i + 1;
    }
    false
}

/// The ranks of a list of competitors.
fn ranks_of_competitors<R: FeastRank>(competitors: &Vec<(R, LiturgicalUnit)>) -> (out: Vec<R>)
    ensures
        out@ == competitor_ranks(competitor_views(competitors@)),
{
    let mut out: Vec<R> = Vec::new();
    let mut i: usize = 0;
    while i < competitors.len()
        invariant
            i <= competitors.len(),
            out@ == competitor_ranks(competitor_views(competitors@)).subrange(0, i as int),
        decreases competitors.len() - i,
    {
        out.push(competitors[i].0);
        i = i + 1;
        assert(out@ =~= competitor_ranks(competitor_views(competitors@)).subrange(0, i as int));
    }
    assert(out@ =~= competitor_ranks(competitor_views(competitors@)));
    out
}

/// Copies of the observances at the given places of a list of competitors.
fn units_at_places<R: FeastRank>(competitors: &Vec<(R, LiturgicalUnit)>, places: &Vec<usize>) -> (out: Vec<
    LiturgicalUnit,
>)
    requires
        all_below(places@, competitors.len() as int),
    ensures
        unit_views(out@) == units_at(competitor_views(competitors@), places@),
{
    let mut out: Vec<LiturgicalUnit> = Vec::new();
    let mut i: usize = 0;
    while i < places.len()
        invariant
            i <= places.len(),
            all_below(places@, competitors.len() as int),
            unit_views(out@) == units_at(competitor_views(competitors@), places@).subrange(0, i as int),
        decreases places.len() - i,
    {
        let ghost before = out@;
        let copy = competitors[places[i]].1.clone();
        out.push(copy);
        assert(unit_views(out@) =~= unit_views(before).push(copy@));
        i = i + 1;
        assert(unit_views(out@) =~= units_at(competitor_views(competitors@), places@).subrange(0, i as int));
    }
    assert(unit_views(out@) =~= units_at(competitor_views(competitors@), places@));
    out
}

impl YearCalendarBuilder {
    /// The feasts of the day `date`, in the order of the builder's list.
    pub fn get_feasts_on_date(&self, date: &Date) -> (out: Vec<FeastRule<Date>>)
        ensures
            feast_views(out@) == feasts_on(self@.feasts, date@),
    {
        let mut out: Vec<FeastRule<Date>> = Vec::new();
        let mut k: usize = 0;
        proof {
            reveal(Seq::filter);
            assert(self@.feasts.subrange(0, 0) =~= Seq::empty());
            assert(feast_views(out@) =~= Seq::empty());
        }
        while k < self.feasts.len()
            invariant
                k <= self.feasts.len(),
                feast_views(out@) == feasts_on(self@.feasts.subrange(0, k as int), date@),
            decreases self.feasts.len() - k,
        {
            let feast = &self.feasts[k];
            proof {
                reveal(Seq::filter);
                let s = self@.feasts.subrange(0, k + 1);
                assert(s.drop_last() =~= self@.feasts.subrange(0, k as int));
                assert(s.last() == feast@);
            }
            if feast.date_rule.same_day(date) {
                let ghost before = out@;
                let copy = feast.duplicate();
                out.push(copy);
                assert(feast_views(out@) =~= feast_views(before).push(copy@));
            }
            k = k + 1;
        }
        assert(self@.feasts.subrange(0, self@.feasts.len() as int) =~= self@.feasts);
        out
    }

    /// The feasts of the day `date` as competitors, each with its rank in the edition `R`.
    pub fn feasts_of_day<R: FeastRank>(&self, date: &Date) -> (out: Result<
        Vec<(R, LiturgicalUnit)>,
        GenerateError,
    >)
        ensures
            match feast_competitors::<R>(self@.feasts, date@) {
                Ok(c) => out matches Ok(v) && competitor_views(v@) == c,
                Err(e) => out matches Err(x) && x == e,
            },
    {
        let mut out: Vec<(R, LiturgicalUnit)> = Vec::new();
        let mut k: usize = 0;
        proof {
            assert(self@.feasts.subrange(0, 0) =~= Seq::empty());
            assert(competitor_views(out@) =~= Seq::empty());
        }
        while k < self.feasts.len()
            invariant
                k <= self.feasts.len(),
                feast_competitors::<R>(self@.feasts.subrange(0, k as int), date@) == Ok::<
                    Seq<(R, UnitView)>,
                    GenerateError,
                >(competitor_views(out@)),
            decreases self.feasts.len() - k,
        {
            let feast = &self.feasts[k];
            proof {
                let s = self@.feasts.subrange(0, k + 1);
                assert(s.drop_last() =~= self@.feasts.subrange(0, k as int));
                assert(s.last() == feast@);
            }
            if feast.date_rule.same_day(date) {
                match feast.get_feastrank::<R>() {
                    Ok(rank) => {
                        let unit = LiturgicalUnit {
                            desc: feast.to_string(),
                            rank: rank.get_rank_string(),
                            date: *date,
                            color: feast.color.clone(),
                        };
                        let ghost before = out@;
                        out.push((rank, unit));
                        assert(competitor_views(out@) =~= competitor_views(before).push((rank, unit@)));
                    },
                    Err(e) => {
                        proof {
                            lemma_feasts_fail::<R>(self@.feasts, k + 1, date@);
                        }
                        return Err(GenerateError::Rank { day: date.days(), error: e });
                    },
                }
            }
            k = k + 1;
        }
        assert(self@.feasts.subrange(0, self@.feasts.len() as int) =~= self@.feasts);
        Ok(out)
    }

    /// One day of the year: the competitors of the day are gathered and resolved, the day
    /// is recorded, and the transfer slot is handed on.
    pub fn resolve_day<R: FeastRank>(&self, date: Date, transfer: Option<(R, LiturgicalUnit)>) -> (out: Result<
        (DayDescription, Option<(R, LiturgicalUnit)>),
        GenerateError,
    >)
        ensures
            match day_step::<R>(self@, date@, slot_view(transfer)) {
                Ok(step) => out matches Ok(o) && o.0@ == step.0 && slot_view(o.1) == step.1,
                Err(e) => out matches Err(x) && x == e,
            },
    {
        if self.seasons.len() == 0 {
            return Err(GenerateError::NoSeasons { day: date.days() });
        }
        let season_desc = match self.get_season_descriptor(&date) {
            Ok(s) => s,
            Err(e) => {
                return Err(e);
            },
        };
        let season_rank: R = match self.season_day_to_feast_rank::<R>(&date) {
            Ok(r) => r,
            Err(e) => {
                return Err(e);
            },
        };
        let season_liturgical_unit = LiturgicalUnit {
            desc: season_desc.clone(),
            rank: season_rank.get_rank_string(),
            date,
            color: self.get_season_color(&date),
        };
        let mut competitors: Vec<(R, LiturgicalUnit)> = match self.feasts_of_day::<R>(&date) {
            Ok(c) => c,
            Err(e) => {
                return Err(e);
            },
        };
        let ghost feasts = competitor_views(competitors@);
        let has_ferial_or_sunday = has_ferial_or_sunday(&competitors);
        let has_high_festival = has_high_festival(&competitors);
        // the season's own observance fills the day unless a feria or a Sunday is there
        if !has_ferial_or_sunday {
            let ghost before = competitors@;
            competitors.push((season_rank, season_liturgical_unit));
            assert(competitor_views(competitors@) =~= competitor_views(before).push(
                (season_rank, season_liturgical_unit@),
            ));
        }
        // what waits in the slot comes in unless a high festival keeps it out
        let mut slot: Option<(R, LiturgicalUnit)> = None;
        match transfer {
            Some(waiting) => {
                if !has_high_festival {
                    let ghost before = competitors@;
                    let unit = waiting.1.transfered();
                    competitors.push((waiting.0, unit));
                    assert(competitor_views(competitors@) =~= competitor_views(before).push(
                        (waiting.0, unit@),
                    ));
                } else {
                    slot = Some(waiting);
                }
            },
            None => {},
        }
        assert(competitor_views(competitors@) =~= competitors_of(
            feasts,
            (season_rank, season_liturgical_unit@),
            slot_view(transfer),
        ));
        assert(slot_view(slot) == slot_after(feasts, slot_view(transfer)));
        let ranks = ranks_of_competitors(&competitors);
        let places = match resolve_places(&ranks) {
            Ok(p) => p,
            Err(e) => {
                return Err(GenerateError::Conflict { day: date.days(), error: e });
            },
        };
        assert(competitor_views(competitors@)[places.winner as int] == (
            competitors@[places.winner as int].0,
            competitors@[places.winner as int].1@,
        ));
        let winner_rank = competitors[places.winner].0;
        let mut winner = competitors[places.winner].1.clone();
        let mut commemorations = units_at_places(&competitors, &places.commemorations);
        let day_rank = winner.rank.clone();
        if date.weekday_from_sunday() == 6 {
            match winner_rank.admits_bvm_on_saturday() {
                BVMOnSaturdayResult::NotAdmitted => {},
                BVMOnSaturdayResult::Admitted => {
                    winner.bvm_on_saturday();
                },
                BVMOnSaturdayResult::Commemorated => {
                    proof {
                        winner_rank.lemma_saturday_rank();
                    }
                    match LiturgicalUnit::bvm_on_saturday_commemoration::<R>(date) {
                        Some(unit) => {
                            let ghost before = commemorations@;
                            commemorations.push(unit);
                            assert(unit_views(commemorations@) =~= unit_views(before).push(unit@));
                        },
                        None => {},
                    }
                },
            }
        }
        let transferred: Option<(R, LiturgicalUnit)> = match places.transferred {
            Some(t) => {
                assert(competitor_views(competitors@)[t as int] == (
                    competitors@[t as int].0,
                    competitors@[t as int].1@,
                ));
                Some((competitors[t].0, competitors[t].1.clone()))
            },
            None => None,
        };
        let day = DayDescription { date, day_in_season: season_desc, day_rank, day: winner, commemorations };
        let next = match slot {
            Some(waiting) => Some(waiting),
            None => transferred,
        };
        Ok((day, next))
    }

    /// The liturgical year: every day from the first Sunday of Advent to the day before
    /// the next, in order, or the error of the first day that could not be resolved.
    pub fn generate_year_calendar<R: FeastRank>(&self) -> (out: Result<YearCalendar<R>, GenerateError>)
        ensures
            match year_days::<R>(self@) {
                Ok(days) => out matches Ok(calendar) && day_views(calendar.days@) == days && calendar.year
                    == self.year && calendar.name@ == self.name@,
                Err(e) => out matches Err(x) && x == e,
            },
            out matches Ok(calendar) ==> {
                &&& calendar.days@.len() == (if self@.next_first_advent > self@.first_advent {
                    self@.next_first_advent - self@.first_advent
                } else {
                    0
                })
                &&& forall|i: int|
                    0 <= i < calendar.days@.len() ==> (#[trigger] calendar.days@[i]).date@
                        == self@.first_advent + i
            },
    {
        let mut days: Vec<DayDescription> = Vec::new();
        let start: i64 = self.first_advent.days() as i64;
        let end: i64 = self.next_first_advent.days() as i64 - 1;
        let mut transfer: Option<(R, LiturgicalUnit)> = None;
        let mut d: i64 = start;
        proof {
            assert(day_views(days@) =~= Seq::empty());
            assert(Seq::<DayView>::empty() + days_from::<R>(self@, start as int, end as int, None)->Ok_0
                =~= days_from::<R>(self@, start as int, end as int, None)->Ok_0);
        }
        while d <= end
            invariant
                start == self@.first_advent,
                end == self@.next_first_advent - 1,
                in_range(start as int),
                in_range(end + 1),
                start <= d,
                d <= end + 1 || start > end,
                days@.len() == d - start,
                forall|i: int| 0 <= i < days@.len() ==> (#[trigger] days@[i]).date@ == start + i,
                after_days(day_views(days@), days_from(self@, d as int, end as int, slot_view(transfer)))
                    == year_days::<R>(self@),
            decreases end - d + 1,
        {
            let date = match Date::from_days(d) {
                Some(date) => date,
                None => {
                    // every day between two dates is a day of the range
                    assert(false);
                    return Err(GenerateError::OutOfRange { day: 0 });
                },
            };
            let ghost slot_before = slot_view(transfer);
            let ghost rest_before = days_from(self@, d as int, end as int, slot_before);
            match self.resolve_day::<R>(date, transfer) {
                Ok((day, next)) => {
                    let ghost before = days@;
                    proof {
                        let rest = days_from(self@, d + 1, end as int, slot_view(next));
                        assert(rest_before == after_days(seq![day@], rest));
                        match rest {
                            Ok(r) => {
                                assert(day_views(before) + (seq![day@] + r) =~= day_views(before).push(day@) + r);
                            },
                            Err(_) => {},
                        }
                    }
                    days.push(day);
                    assert(day_views(days@) =~= day_views(before).push(day@));
                    transfer = next;
                },
                Err(e) => {
                    return Err(e);
                },
            }
            d = d + 1;
        }
        proof {
            assert(day_views(days@) + Seq::<DayView>::empty() =~= day_views(days@));
        }
        Ok(YearCalendar { year: self.year, name: self.name.clone(), days, __marker: PhantomData })
    }
}

} // verus!
