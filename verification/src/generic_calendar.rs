//! A calendar as it is written: a name, seasons and feasts with their date rules, and the
//! liturgical years that are built from it.

use vstd::prelude::*;
use crate::date::Date;
use crate::date_rule::DateRule;
use crate::day_type::DayType;
use crate::feast_rank::feast_rank54::FeastRank54;
use crate::feast_rank::feast_rank62::FeastRank62;
use crate::feast_rank::feast_rank_of::FeastRankOf;
use crate::feast_rank::{FeastRank, RankError};
use crate::feast_rule::{clone_strings, feast_rank_of, feast_views, texts, FeastRule, FeastView};
use crate::season_rule::{inherited, SeasonRule, SeasonView};
use crate::text::{
    clone_opt_string, has_substring, lowercase_of, opt_view, str_contains, str_eq, to_lowercase,
};
use crate::year_calendar::{day_views, YearCalendar};
use crate::year_calendar_builder::{season_views, year_days, BuilderView, GenerateError, YearCalendarBuilder};

verus! {

/// The edition of the calendar.
#[derive(Debug, Clone, Copy, PartialEq, Eq, Structural)]
pub enum CalendarType {
    /// The Roman calendar of 1954.
    Calendar1954,
    /// The Roman calendar of 1962.
    Calendar1962,
    /// The calendar of the Ordinary Form.
    OrdinaryForm,
}

/// A calendar as it is written.
#[derive(Debug)]
pub struct GenericCalendar {
    pub name: String,
    /// How a commemoration is to be read in this calendar.
    pub commemoration_interpretation: String,
    pub seasons: Vec<SeasonRule<DateRule>>,
    pub feasts: Vec<FeastRule<DateRule>>,
}

/// Why a liturgical year could not be built from a calendar.
#[derive(Debug, Clone, Copy, PartialEq, Eq, Structural)]
pub enum CalendarError {
    /// No season of the calendar is Advent by its name.
    NoAdvent,
    /// The first Sunday of Advent is no day of the year, or of the year after.
    NoAdventDate,
    /// The season at this place of the list has a rule that names no day of the year.
    SeasonWithoutDate { place: usize },
    /// The feast at this place of the list has a rule that names no day of the year.
    FeastWithoutDate { place: usize },
    /// The days of the year could not be resolved.
    Generate(GenerateError),
}

/// How a commemoration is read where a calendar does not say it.
pub fn default_commemoration_interpretation() -> (out: String)
    ensures
        out@ == "Commemoration"@,
{
    String::from_str("Commemoration")
}

/// The edition that a calendar's name in lower case stands for: the calendar of 1954
/// where the name holds `1954`; that of 1962 where it holds `1962`, `extraordinary` or
/// `tridentine`; else the Ordinary Form.
pub open spec fn edition_of(lower: Seq<char>) -> CalendarType {
    if has_substring(lower, "1954"@) {
        CalendarType::Calendar1954
    } else if has_substring(lower, "1962"@) || has_substring(lower, "extraordinary"@) || has_substring(
        lower,
        "tridentine"@,
    ) {
        CalendarType::Calendar1962
    } else {
        CalendarType::OrdinaryForm
    }
}

/// The edition that a calendar's name in lower case stands for.
pub fn edition_from_lower(lower: &str) -> (out: CalendarType)
    ensures
        out == edition_of(lower@),
{
    if str_contains(lower, "1954") {
        CalendarType::Calendar1954
    } else if str_contains(lower, "1962") || str_contains(lower, "extraordinary") || str_contains(
        lower,
        "tridentine",
    ) {
        CalendarType::Calendar1962
    } else {
        CalendarType::OrdinaryForm
    }
}

/// The place of the first feast from place `k` on whose name is `name`.
pub open spec fn feast_named_from(feasts: Seq<FeastRule<DateRule>>, k: int, name: Seq<char>) -> Option<int>
    decreases feasts.len() - k,
{
    if k < 0 || k >= feasts.len() {
        None
    } else if feasts[k].name@ == name {
        Some(k)
    } else {
        feast_named_from(feasts, k + 1, name)
    }
}

/// A list of feasts with one more: the feast takes the place of the first feast of its
/// name, or goes to the end where the list has none of that name.
pub open spec fn with_feast(feasts: Seq<FeastRule<DateRule>>, feast: FeastRule<DateRule>) -> Seq<
    FeastRule<DateRule>,
> {
    match feast_named_from(feasts, 0, feast.name@) {
        Some(place) => feasts.update(place, feast),
        None => feasts.push(feast),
    }
}

/// A list of feasts with the feasts of `more` from place `k` on, one after the other.
pub open spec fn with_feasts_from(
    feasts: Seq<FeastRule<DateRule>>,
    more: Seq<FeastRule<DateRule>>,
    k: int,
) -> Seq<FeastRule<DateRule>>
    decreases more.len() - k,
{
    if k < 0 || k >= more.len() {
        feasts
    } else {
        with_feasts_from(with_feast(feasts, more[k]), more, k + 1)
    }
}

/// The place of the first feast from place `k` on whose name in lower case is `lower`.
pub open spec fn feast_like_from(feasts: Seq<FeastRule<DateRule>>, k: int, lower: Seq<char>) -> Option<int>
    decreases feasts.len() - k,
{
    if k < 0 || k >= feasts.len() {
        None
    } else if lowercase_of(feasts[k].name@) == lower {
        Some(k)
    } else {
        feast_like_from(feasts, k + 1, lower)
    }
}

/// Whether two feasts are the same in every part, texts by their characters.
pub open spec fn same_feast(a: FeastRule<DateRule>, b: FeastRule<DateRule>) -> bool {
    &&& a.name@ == b.name@
    &&& a.date_rule == b.date_rule
    &&& opt_view(a.rank) == opt_view(b.rank)
    &&& a.of_our_lord == b.of_our_lord
    &&& a.day_type == b.day_type
    &&& a.color@ == b.color@
    &&& texts(a.titles@) == texts(b.titles@)
    &&& a.movable == b.movable
}

impl FeastRule<DateRule> {
    /// A copy of the feast.
    pub fn duplicate_rule(&self) -> (out: Self)
        ensures
            same_feast(out, *self),
    {
        FeastRule {
            name: self.name.clone(),
            date_rule: self.date_rule.clone(),
            rank: clone_opt_string(&self.rank),
            of_our_lord: self.of_our_lord,
            day_type: self.day_type,
            color: self.color.clone(),
            titles: clone_strings(&self.titles),
            movable: self.movable,
        }
    }
}

/// The name of a feast's rank in an edition.
pub open spec fn rank_name_in(kind: CalendarType, feast: FeastRule<DateRule>) -> Result<Seq<char>, RankError> {
    match kind {
        CalendarType::Calendar1954 => match feast_rank_of::<FeastRank54>(
            feast.name@,
            opt_view(feast.rank),
            feast.day_type,
            feast.movable,
            feast.of_our_lord,
        ) {
            Ok(r) => Ok(r.rank_text()),
            Err(e) => Err(e),
        },
        CalendarType::Calendar1962 => match feast_rank_of::<FeastRank62>(
            feast.name@,
            opt_view(feast.rank),
            feast.day_type,
            feast.movable,
            feast.of_our_lord,
        ) {
            Ok(r) => Ok(r.rank_text()),
            Err(e) => Err(e),
        },
        CalendarType::OrdinaryForm => match feast_rank_of::<FeastRankOf>(
            feast.name@,
            opt_view(feast.rank),
            feast.day_type,
            feast.movable,
            feast.of_our_lord,
        ) {
            Ok(r) => Ok(r.rank_text()),
            Err(e) => Err(e),
        },
    }
}

/// The name of a feast's rank in an edition.
pub fn rank_name(kind: CalendarType, feast: &FeastRule<DateRule>) -> (out: Result<String, RankError>)
    ensures
        match rank_name_in(kind, *feast) {
            Ok(t) => out matches Ok(s) && s@ == t,
            Err(e) => out matches Err(x) && x == e,
        },
{
    match kind {
        CalendarType::Calendar1954 => match feast.get_feastrank::<FeastRank54>() {
            Ok(r) => Ok(r.get_rank_string()),
            Err(e) => Err(e),
        },
        CalendarType::Calendar1962 => match feast.get_feastrank::<FeastRank62>() {
            Ok(r) => Ok(r.get_rank_string()),
            Err(e) => Err(e),
        },
        CalendarType::OrdinaryForm => match feast.get_feastrank::<FeastRankOf>() {
            Ok(r) => Ok(r.get_rank_string()),
            Err(e) => Err(e),
        },
    }
}

impl GenericCalendar {
    /// The name of the calendar.
    pub fn name(&self) -> (out: &str)
        ensures
            out@ == self.name@,
    {
        self.name.as_str()
    }

    /// The seasons of the calendar.
    pub fn seasons(&self) -> (out: &[SeasonRule<DateRule>])
        ensures
            out@ == self.seasons@,
    {
        self.seasons.as_slice()
    }

    /// The feasts of the calendar.
    pub fn feasts(&self) -> (out: &[FeastRule<DateRule>])
        ensures
            out@ == self.feasts@,
    {
        self.feasts.as_slice()
    }

    /// The edition of the calendar, by its name.
    pub fn calendar_type(&self) -> (out: CalendarType)
        ensures
            out == edition_of(lowercase_of(self.name@)),
    {
        let lower = to_lowercase(self.name.as_str());
        edition_from_lower(lower.as_str())
    }

    /// The place of the first feast whose name is `name`.
    fn position_of(&self, name: &str) -> (out: Option<usize>)
        ensures
            match feast_named_from(self.feasts@, 0, name@) {
                Some(i) => out == Some(i as usize) && 0 <= i < self.feasts.len(),
                None => out is None,
            },
    {
        let mut k: usize = 0;
        while k < self.feasts.len()
            invariant
                k <= self.feasts.len(),
                feast_named_from(self.feasts@, k as int, name@) == feast_named_from(self.feasts@, 0, name@),
            decreases self.feasts.len() - k,
        {
            if str_eq(self.feasts[k].name.as_str(), name) {
                return Some(k);
            }
            k = k + 1;
        }
        None
    }

    /// Takes the feasts of another calendar into this one: a feast takes the place of the
    /// first feast of its name, or goes to the end. The name of the calendar tells of the
    /// other.
    pub fn merge_feasts(&mut self, other: GenericCalendar)
        ensures
            final(self).feasts@ == with_feasts_from(old(self).feasts@, other.feasts@, 0),
            final(self).name@ == old(self).name@ + " with "@ + other.name@ + " Extensions"@,
            final(self).seasons == old(self).seasons,
            final(self).commemoration_interpretation == old(self).commemoration_interpretation,
    {
        let GenericCalendar { name: other_name, commemoration_interpretation: _, seasons: _, feasts } = other;
        let ghost more = feasts@;
        // the feasts are taken from the end of the other list, and put back in order
        let mut feasts = feasts;
        let mut waiting: Vec<FeastRule<DateRule>> = Vec::new();
        let count = feasts.len();
        assert(more.len() == count);
        assert(feasts@ =~= more.subrange(0, feasts@.len() as int));
        while feasts.len() > 0
            invariant
                feasts@.len() + waiting@.len() == more.len(),
                more.len() <= usize::MAX,
                feasts@ == more.subrange(0, feasts@.len() as int),
                forall|i: int| 0 <= i < waiting@.len() ==> waiting@[i] == more[more.len() - 1 - i],
            decreases feasts.len(),
        {
            let ghost before = feasts@;
            match feasts.pop() {
                Some(feast) => {
                    assert(feast == more[before.len() - 1]);
                    waiting.push(feast);
                    assert(feasts@ =~= more.subrange(0, feasts@.len() as int));
                },
                None => {},
            }
        }
        let mut k: usize = 0;
        while waiting.len() > 0
            invariant
                k + waiting@.len() == more.len(),
                more.len() <= usize::MAX,
                forall|i: int| 0 <= i < waiting@.len() ==> waiting@[i] == more[more.len() - 1 - i],
                with_feasts_from(self.feasts@, more, k as int) == with_feasts_from(old(self).feasts@, more, 0),
                self.name == old(self).name,
                self.seasons == old(self).seasons,
                self.commemoration_interpretation == old(self).commemoration_interpretation,
            decreases waiting.len(),
        {
            match waiting.pop() {
                Some(new_feast) => {
                    assert(new_feast == more[k as int]);
                    match self.position_of(new_feast.name.as_str()) {
                        Some(pos) => {
                            self.feasts.set(pos, new_feast);
                        },
                        None => {
                            self.feasts.push(new_feast);
                        },
                    }
                    k = k + 1;
                },
                None => {},
            }
        }
        let mut name = String::new();
        name.append(self.name.as_str());
        name.append(" with ");
        name.append(other_name.as_str());
        name.append(" Extensions");
        assert(name@ =~= old(self).name@ + " with "@ + other_name@ + " Extensions"@);
        self.name = name;
    }

    /// The feast whose name is `name`, whatever the case of the letters, with the name of
    /// its rank in the calendar's edition; `None` where the calendar has no such feast.
    pub fn get_feast_info(&self, name: &str) -> (out: Result<Option<(FeastRule<DateRule>, String)>, RankError>)
        ensures
            match feast_like_from(self.feasts@, 0, lowercase_of(name@)) {
                None => out == Ok::<Option<(FeastRule<DateRule>, String)>, RankError>(None),
                Some(i) => match rank_name_in(edition_of(lowercase_of(self.name@)), self.feasts@[i]) {
                    Ok(t) => out matches Ok(Some(found)) && same_feast(found.0, self.feasts@[i]) && found.1@
                        == t,
                    Err(e) => out matches Err(x) && x == e,
                },
            },
    {
        let name_lower = to_lowercase(name);
        let mut k: usize = 0;
        while k < self.feasts.len()
            invariant
                k <= self.feasts.len(),
                name_lower@ == lowercase_of(name@),
                feast_like_from(self.feasts@, k as int, name_lower@) == feast_like_from(
                    self.feasts@,
                    0,
                    name_lower@,
                ),
            decreases self.feasts.len() - k,
        {
            let feast = &self.feasts[k];
            let lower = to_lowercase(feast.name.as_str());
            if str_eq(lower.as_str(), name_lower.as_str()) {
                return match rank_name(self.calendar_type(), feast) {
                    Ok(rank) => Ok(Some((feast.duplicate_rule(), rank))),
                    Err(e) => Err(e),
                };
            }
            k = k + 1;
        }
        Ok(None)
    }
}


/// The place of the last season of a list that has the name `name`.
pub open spec fn last_named(seasons: Seq<SeasonRule<DateRule>>, name: Seq<char>) -> Option<int>
    decreases seasons.len(),
{
    if seasons.len() == 0 {
        None
    } else if seasons.last().core.name@ == name {
        Some(seasons.len() - 1)
    } else {
        last_named(seasons.drop_last(), name)
    }
}

/// The place of the season that a season names as its parent: the last season of that
/// name.
pub open spec fn parent_of(seasons: Seq<SeasonRule<DateRule>>, season: SeasonRule<DateRule>) -> Option<int> {
    match season.hierarchy.parent_season {
        Some(name) => last_named(seasons, name@),
        None => None,
    }
}

/// Whether one of the names is `name`.
pub open spec fn names_hold(names: Seq<Seq<char>>, name: Seq<char>) -> bool {
    exists|i: int| 0 <= i < names.len() && #[trigger] names[i] == name
}

/// A season in a year, with what it leaves open taken from its parent, and the parent's
/// from its own parent, and so on. The chain of parents ends at a season that names no
/// parent or a parent that the calendar does not have; it is cut at a season whose name
/// came before in the chain, which is taken as it is written, and after `steps` seasons,
/// as many as the calendar has, within which every chain comes to a name that came before.
/// `None` where a season of the chain has a rule that names no day of the year.
pub open spec fn resolved_season(
    seasons: Seq<SeasonRule<DateRule>>,
    season: SeasonRule<DateRule>,
    year: int,
    visited: Seq<Seq<char>>,
    steps: nat,
) -> Option<SeasonView>
    decreases steps,
{
    if steps == 0 || names_hold(visited, season.core.name@) {
        season.instantiated(year)
    } else {
        match parent_of(seasons, season) {
            Some(p) => match resolved_season(
                seasons,
                seasons[p],
                year,
                visited.push(season.core.name@),
                (steps - 1) as nat,
            ) {
                Some(parent) => match season.instantiated(year) {
                    Some(own) => Some(inherited(own, Some(parent))),
                    None => None,
                },
                None => None,
            },
            None => match season.instantiated(year) {
                Some(own) => Some(inherited(own, None)),
                None => None,
            },
        }
    }
}

/// The first `n` seasons of a calendar in a year, each with what it takes from its
/// parents; the error of the first season that has a rule without a day.
pub open spec fn seasons_of_year(seasons: Seq<SeasonRule<DateRule>>, n: int, year: int) -> Result<
    Seq<SeasonView>,
    CalendarError,
>
    decreases n,
{
    if n <= 0 {
        Ok(Seq::empty())
    } else {
        match seasons_of_year(seasons, n - 1, year) {
            Err(e) => Err(e),
            Ok(before) => match resolved_season(
                seasons,
                seasons[n - 1],
                year,
                Seq::empty(),
                seasons.len(),
            ) {
                Some(v) => Ok(before.push(v)),
                None => Err(CalendarError::SeasonWithoutDate { place: (n - 1) as usize }),
            },
        }
    }
}

/// The first `n` feasts of a calendar in a liturgical year; the error of the first feast
/// whose rule names no day.
pub open spec fn feasts_of_year(feasts: Seq<FeastRule<DateRule>>, n: int, year: int) -> Result<
    Seq<FeastView>,
    CalendarError,
>
    decreases n,
{
    if n <= 0 {
        Ok(Seq::empty())
    } else {
        match feasts_of_year(feasts, n - 1, year) {
            Err(e) => Err(e),
            Ok(before) => match feasts[n - 1].instantiated(year) {
                Some(v) => Ok(before.push(v)),
                None => Err(CalendarError::FeastWithoutDate { place: (n - 1) as usize }),
            },
        }
    }
}

/// The place of the first season from place `k` on whose name in lower case holds
/// `advent`.
pub open spec fn advent_from(seasons: Seq<SeasonRule<DateRule>>, k: int) -> Option<int>
    decreases seasons.len() - k,
{
    if k < 0 || k >= seasons.len() {
        None
    } else if has_substring(lowercase_of(seasons[k].core.name@), "advent"@) {
        Some(k)
    } else {
        advent_from(seasons, k + 1)
    }
}

/// What a liturgical year of a calendar is built from: the year begins with the first day
/// of Advent, and ends before the first day of Advent of the year after.
pub open spec fn builder_of(calendar: GenericCalendar, year: int, kind: CalendarType) -> Result<
    BuilderView,
    CalendarError,
> {
    match advent_from(calendar.seasons@, 0) {
        None => Err(CalendarError::NoAdvent),
        Some(a) => {
            let begin = calendar.seasons@[a].core.begin;
            let next = if year + 1 <= i32::MAX {
                begin.eval(year + 1)
            } else {
                None
            };
            match (begin.eval(year), next) {
                (Some(first_advent), Some(next_first_advent)) => match seasons_of_year(
                    calendar.seasons@,
                    calendar.seasons@.len() as int,
                    year,
                ) {
                    Err(e) => Err(e),
                    Ok(seasons) => match feasts_of_year(calendar.feasts@, calendar.feasts@.len() as int, year) {
                        Err(e) => Err(e),
                        Ok(feasts) => Ok(
                            BuilderView {
                                seasons,
                                feasts,
                                first_advent,
                                next_first_advent,
                                ordinary_form: kind == CalendarType::OrdinaryForm,
                            },
                        ),
                    },
                },
                _ => Err(CalendarError::NoAdventDate),
            }
        },
    }
}

/// The liturgical year of a calendar in the edition `R`: its days, or why it could not be
/// built.
pub open spec fn year_of<R: FeastRank>(calendar: GenericCalendar, year: int, kind: CalendarType) -> Result<
    Seq<crate::year_calendar::DayView>,
    CalendarError,
> {
    match builder_of(calendar, year, kind) {
        Err(e) => Err(e),
        Ok(b) => match year_days::<R>(b) {
            Ok(days) => Ok(days),
            Err(e) => Err(CalendarError::Generate(e)),
        },
    }
}

/// The names as texts.
pub open spec fn name_texts(names: Seq<String>) -> Seq<Seq<char>> {
    names.map_values(|s: String| s@)
}

/// Whether one of the names is `name`.
fn holds_name(names: &Vec<String>, name: &str) -> (out: bool)
    ensures
        out == names_hold(name_texts(names@), name@),
{
    let mut i: usize = 0;
    while i < names.len()
        invariant
            i <= names.len(),
            forall|k: int| 0 <= k < i ==> name_texts(names@)[k] != name@,
        decreases names.len() - i,
    {
        assert(name_texts(names@)[i as int] == names@[i as int]@);
        if str_eq(names[i].as_str(), name) {
            return true;
        }
        i = i + 1;
    }
    false
}

impl GenericCalendar {
    /// The place of the last season that has the name `name`.
    fn find_last_named(&self, name: &str) -> (out: Option<usize>)
        ensures
            match last_named(self.seasons@, name@) {
                Some(i) => out == Some(i as usize) && 0 <= i < self.seasons.len(),
                None => out is None,
            },
    {
        let mut k: usize = self.seasons.len();
        assert(self.seasons@.subrange(0, k as int) =~= self.seasons@);
        while k > 0
            invariant
                k <= self.seasons.len(),
                last_named(self.seasons@.subrange(0, k as int), name@) == last_named(self.seasons@, name@),
            decreases k,
        {
            proof {
                let s = self.seasons@.subrange(0, k as int);
                assert(s.last() == self.seasons@[k - 1]);
                assert(s.drop_last() =~= self.seasons@.subrange(0, k - 1));
            }
            if str_eq(self.seasons[k - 1].core.name.as_str(), name) {
                return Some(k - 1);
            }
            k = k - 1;
        }
        None
    }

    /// A season in a year, with what it leaves open taken from the chain of its parents.
    fn resolve_hierarchy_chain(
        &self,
        season: &SeasonRule<DateRule>,
        lit_year: i32,
        visited: &mut Vec<String>,
        steps: usize,
    ) -> (out: Option<SeasonRule<Date>>)
        ensures
            name_texts(final(visited)@) == name_texts(old(visited)@),
            match resolved_season(self.seasons@, *season, lit_year as int, name_texts(old(visited)@), steps as nat) {
                Some(v) => out matches Some(s) && s@ == v,
                None => out is None,
            },
        decreases steps,
    {
        // a season that came before in the chain is taken as it is written
        if steps == 0 || holds_name(visited, season.core.name.as_str()) {
            return season.instantiate_for_lit_year(lit_year);
        }
        let parent_place = match &season.hierarchy.parent_season {
            Some(parent_name) => self.find_last_named(parent_name.as_str()),
            None => None,
        };
        match parent_place {
            Some(p) => {
                let ghost before = visited@;
                visited.push(season.core.name.clone());
                assert(name_texts(visited@) =~= name_texts(before).push(season.core.name@));
                let parent = self.resolve_hierarchy_chain(&self.seasons[p], lit_year, visited, steps - 1);
                let ghost after = visited@;
                visited.pop();
                assert(name_texts(visited@) =~= name_texts(after).drop_last());
                assert(name_texts(visited@) =~= name_texts(before));
                match parent {
                    Some(parent_season) => season.instantiate_with_hierarchy(lit_year, Some(&parent_season)),
                    None => None,
                }
            },
            None => season.instantiate_with_hierarchy(lit_year, None),
        }
    }

    /// The place of the first season that is Advent by its name.
    fn find_advent(&self) -> (out: Option<usize>)
        ensures
            match advent_from(self.seasons@, 0) {
                Some(i) => out == Some(i as usize) && 0 <= i < self.seasons.len(),
                None => out is None,
            },
    {
        let mut k: usize = 0;
        while k < self.seasons.len()
            invariant
                k <= self.seasons.len(),
                advent_from(self.seasons@, k as int) == advent_from(self.seasons@, 0),
            decreases self.seasons.len() - k,
        {
            let lower = to_lowercase(self.seasons[k].core.name.as_str());
            if str_contains(lower.as_str(), "advent") {
                return Some(k);
            }
            k = k + 1;
        }
        None
    }

    /// The seasons of the calendar in the year `lit_year`.
    pub fn seasons_for_year(&self, lit_year: i32) -> (out: Result<Vec<SeasonRule<Date>>, CalendarError>)
        ensures
            match seasons_of_year(self.seasons@, self.seasons@.len() as int, lit_year as int) {
                Ok(v) => out matches Ok(seasons) && season_views(seasons@) == v,
                Err(e) => out matches Err(x) && x == e,
            },
    {
        let steps: usize = self.seasons.len();
        let mut seasons: Vec<SeasonRule<Date>> = Vec::new();
        let mut i: usize = 0;
        assert(season_views(seasons@) =~= Seq::empty());
        while i < self.seasons.len()
            invariant
                i <= self.seasons.len(),
                steps == self.seasons.len(),
                seasons_of_year(self.seasons@, i as int, lit_year as int) == Ok::<
                    Seq<SeasonView>,
                    CalendarError,
                >(season_views(seasons@)),
            decreases self.seasons.len() - i,
        {
            let mut visited: Vec<String> = Vec::new();
            assert(name_texts(visited@) =~= Seq::empty());
            match self.resolve_hierarchy_chain(&self.seasons[i], lit_year, &mut visited, steps) {
                Some(season) => {
                    let ghost before = seasons@;
                    seasons.push(season);
                    assert(season_views(seasons@) =~= season_views(before).push(season@));
                },
                None => {
                    proof {
                        lemma_seasons_fail(self.seasons@, i as int + 1, lit_year as int);
                    }
                    return Err(CalendarError::SeasonWithoutDate { place: i });
                },
            }
            i = i + 1;
        }
        Ok(seasons)
    }

    /// The feasts of the calendar in the liturgical year `lit_year`.
    pub fn feasts_for_year(&self, lit_year: i32) -> (out: Result<Vec<FeastRule<Date>>, CalendarError>)
        ensures
            match feasts_of_year(self.feasts@, self.feasts@.len() as int, lit_year as int) {
                Ok(v) => out matches Ok(feasts) && feast_views(feasts@) == v,
                Err(e) => out matches Err(x) && x == e,
            },
    {
        let mut feasts: Vec<FeastRule<Date>> = Vec::new();
        let mut k: usize = 0;
        assert(feast_views(feasts@) =~= Seq::empty());
        while k < self.feasts.len()
            invariant
                k <= self.feasts.len(),
                feasts_of_year(self.feasts@, k as int, lit_year as int) == Ok::<Seq<FeastView>, CalendarError>(
                    feast_views(feasts@),
                ),
            decreases self.feasts.len() - k,
        {
            match self.feasts[k].instantiate_for_lit_year_with_advent(lit_year) {
                Some(feast) => {
                    let ghost before = feasts@;
                    feasts.push(feast);
                    assert(feast_views(feasts@) =~= feast_views(before).push(feast@));
                },
                None => {
                    proof {
                        lemma_feasts_fail(self.feasts@, k as int + 1, lit_year as int);
                    }
                    return Err(CalendarError::FeastWithoutDate { place: k });
                },
            }
            k = k + 1;
        }
        Ok(feasts)
    }

    /// What the liturgical year `lit_year` is built from.
    pub fn builder_for_lit_year(&self, lit_year: i32, kind: CalendarType) -> (out: Result<
        YearCalendarBuilder,
        CalendarError,
    >)
        ensures
            match builder_of(*self, lit_year as int, kind) {
                Ok(b) => out matches Ok(builder) && builder@ == b && builder.year == lit_year
                    && builder.name@ == self.name@ && builder.calendar_type == kind,
                Err(e) => out matches Err(x) && x == e,
            },
    {
        let advent_place = match self.find_advent() {
            Some(a) => a,
            None => {
                return Err(CalendarError::NoAdvent);
            },
        };
        let advent = &self.seasons[advent_place];
        let first_advent = match advent.core.begin.to_day(lit_year) {
            Some(d) => d,
            None => {
                return Err(CalendarError::NoAdventDate);
            },
        };
        if lit_year == i32::MAX {
            return Err(CalendarError::NoAdventDate);
        }
        let next_first_advent = match advent.core.begin.to_day(lit_year + 1) {
            Some(d) => d,
            None => {
                return Err(CalendarError::NoAdventDate);
            },
        };
        let seasons = match self.seasons_for_year(lit_year) {
            Ok(v) => v,
            Err(e) => {
                return Err(e);
            },
        };
        let feasts = match self.feasts_for_year(lit_year) {
            Ok(v) => v,
            Err(e) => {
                return Err(e);
            },
        };
        Ok(
            YearCalendarBuilder {
                year: lit_year,
                name: self.name.clone(),
                seasons,
                feasts,
                first_advent,
                next_first_advent,
                calendar_type: kind,
            },
        )
    }

    /// The liturgical year `lit_year` in the edition `R`.
    pub fn instantiate_for_lit_year<R: FeastRank>(&self, lit_year: i32, kind: CalendarType) -> (out: Result<
        YearCalendar<R>,
        CalendarError,
    >)
        ensures
            match year_of::<R>(*self, lit_year as int, kind) {
                Ok(days) => out matches Ok(calendar) && day_views(calendar.days@) == days && calendar.year
                    == lit_year && calendar.name@ == self.name@,
                Err(e) => out matches Err(x) && x == e,
            },
    {
        let builder = match self.builder_for_lit_year(lit_year, kind) {
            Ok(b) => b,
            Err(e) => {
                return Err(e);
            },
        };
        match builder.generate_year_calendar::<R>() {
            Ok(calendar) => Ok(calendar),
            Err(e) => Err(CalendarError::Generate(e)),
        }
    }

    /// The liturgical year `lit_year` of the calendar of 1962.
    pub fn instantiate_62_for_lit_year(&self, lit_year: i32) -> (out: Result<
        YearCalendar<FeastRank62>,
        CalendarError,
    >)
        ensures
            match year_of::<FeastRank62>(*self, lit_year as int, CalendarType::Calendar1962) {
                Ok(days) => out matches Ok(calendar) && day_views(calendar.days@) == days && calendar.year
                    == lit_year && calendar.name@ == self.name@,
                Err(e) => out matches Err(x) && x == e,
            },
    {
        self.instantiate_for_lit_year::<FeastRank62>(lit_year, CalendarType::Calendar1962)
    }

    /// The liturgical year `lit_year` of the calendar of 1954.
    pub fn instantiate_54_for_lit_year(&self, lit_year: i32) -> (out: Result<
        YearCalendar<FeastRank54>,
        CalendarError,
    >)
        ensures
            match year_of::<FeastRank54>(*self, lit_year as int, CalendarType::Calendar1954) {
                Ok(days) => out matches Ok(calendar) && day_views(calendar.days@) == days && calendar.year
                    == lit_year && calendar.name@ == self.name@,
                Err(e) => out matches Err(x) && x == e,
            },
    {
        self.instantiate_for_lit_year::<FeastRank54>(lit_year, CalendarType::Calendar1954)
    }

    /// The liturgical year `lit_year` of the calendar of the Ordinary Form.
    pub fn instantiate_of_for_lit_year(&self, lit_year: i32) -> (out: Result<
        YearCalendar<FeastRankOf>,
        CalendarError,
    >)
        ensures
            match year_of::<FeastRankOf>(*self, lit_year as int, CalendarType::OrdinaryForm) {
                Ok(days) => out matches Ok(calendar) && day_views(calendar.days@) == days && calendar.year
                    == lit_year && calendar.name@ == self.name@,
                Err(e) => out matches Err(x) && x == e,
            },
    {
        self.instantiate_for_lit_year::<FeastRankOf>(lit_year, CalendarType::OrdinaryForm)
    }
}

/// Where the first `k` seasons fail, every longer list of them fails in the same way.
proof fn lemma_seasons_fail(seasons: Seq<SeasonRule<DateRule>>, k: int, year: int)
    requires
        0 <= k <= seasons.len(),
        seasons_of_year(seasons, k, year) is Err,
    ensures
        seasons_of_year(seasons, seasons.len() as int, year) == seasons_of_year(seasons, k, year),
    decreases seasons.len() - k,
{
    if k < seasons.len() {
        lemma_seasons_fail(seasons, k + 1, year);
    }
}

/// Where the first `k` feasts fail, every longer list of them fails in the same way.
proof fn lemma_feasts_fail(feasts: Seq<FeastRule<DateRule>>, k: int, year: int)
    requires
        0 <= k <= feasts.len(),
        feasts_of_year(feasts, k, year) is Err,
    ensures
        feasts_of_year(feasts, feasts.len() as int, year) == feasts_of_year(feasts, k, year),
    decreases feasts.len() - k,
{
    if k < feasts.len() {
        lemma_feasts_fail(feasts, k + 1, year);
    }
}

} // verus!
