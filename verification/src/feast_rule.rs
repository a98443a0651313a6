//! Feasts: a name, the rule of its day, and what decides its rank. A feast is written with
//! a date rule and then instantiated for a year.

use vstd::prelude::*;
use crate::date::{calendar_day, sunday_on_or_before, Date};
use crate::date_rule::DateRule;
use crate::day_type::DayType;
use crate::feast_rank::{ContextView, FeastRank, LiturgicalContext, RankError};
use crate::liturgical_unit::{LiturgicalUnit, UnitView};
use crate::text::{clone_opt_string, concat3, opt_view};

verus! {

/// A feast of the calendar.
#[derive(Debug)]
pub struct FeastRule<DateType> {
    pub name: String,
    /// The rule of the feast's day, or the day itself once it is instantiated.
    pub date_rule: DateType,
    /// The rank code; `III` where none is given.
    pub rank: Option<String>,
    pub of_our_lord: bool,
    /// The kind of day; a feast where none is given.
    pub day_type: Option<DayType>,
    pub color: String,
    /// Titles shown after the name.
    pub titles: Vec<String>,
    /// Whether the feast's day depends on Easter.
    pub movable: bool,
}

/// A feast of a year as a plain value.
pub struct FeastView {
    pub name: Seq<char>,
    pub date: int,
    pub rank: Option<Seq<char>>,
    pub of_our_lord: bool,
    pub day_type: Option<DayType>,
    pub color: Seq<char>,
    pub titles: Seq<Seq<char>>,
    pub movable: bool,
}

/// The texts of a list of strings.
pub open spec fn texts(strings: Seq<String>) -> Seq<Seq<char>> {
    strings.map_values(|s: String| s@)
}

impl View for FeastRule<Date> {
    type V = FeastView;

    open spec fn view(&self) -> FeastView {
        FeastView {
            name: self.name@,
            date: self.date_rule@,
            rank: opt_view(self.rank),
            of_our_lord: self.of_our_lord,
            day_type: self.day_type,
            color: self.color@,
            titles: texts(self.titles@),
            movable: self.movable,
        }
    }
}

/// The feasts of a list, each as a plain value.
pub open spec fn feast_views(feasts: Seq<FeastRule<Date>>) -> Seq<FeastView> {
    feasts.map_values(|f: FeastRule<Date>| f@)
}

/// The parts of a list, with `separator` between every two of them.
pub open spec fn joined(parts: Seq<Seq<char>>, separator: Seq<char>) -> Seq<char>
    decreases parts.len(),
{
    if parts.len() == 0 {
        Seq::empty()
    } else if parts.len() == 1 {
        parts[0]
    } else {
        joined(parts.drop_last(), separator) + separator + parts.last()
    }
}

/// A feast as it is shown: its name, and after a comma its titles with `and` between
/// them.
pub open spec fn feast_text(name: Seq<char>, titles: Seq<Seq<char>>) -> Seq<char> {
    if titles.len() == 0 {
        name
    } else {
        name + ", "@ + joined(titles, " and "@)
    }
}

/// The context from which a feast's rank is built: its name, and whether it is movable
/// and of Our Lord.
pub open spec fn feast_context(name: Seq<char>, movable: bool, of_our_lord: bool) -> ContextView {
    ContextView { feast_name: Some(name), is_movable: movable, of_our_lord, ..ContextView::blank() }
}

/// The rank code of a feast; `III` where none is given.
pub open spec fn rank_code(rank: Option<Seq<char>>) -> Seq<char> {
    match rank {
        Some(r) => r,
        None => "III"@,
    }
}

/// The kind of day of a feast; a feast where none is given.
pub open spec fn kind_of_day(day_type: Option<DayType>) -> DayType {
    match day_type {
        Some(t) => t,
        None => DayType::Feast,
    }
}

/// The rank of a feast in the edition `R`.
pub open spec fn feast_rank_of<R: FeastRank>(
    name: Seq<char>,
    rank: Option<Seq<char>>,
    day_type: Option<DayType>,
    movable: bool,
    of_our_lord: bool,
) -> Result<R, RankError> {
    R::built(rank_code(rank), kind_of_day(day_type), feast_context(name, movable, of_our_lord))
}

/// The parts of a list of strings, with `separator` between every two of them.
pub fn join(parts: &Vec<String>, separator: &str) -> (out: String)
    ensures
        out@ == joined(texts(parts@), separator@),
{
    let mut out = String::new();
    let mut i: usize = 0;
    assert(texts(parts@).subrange(0, 0) =~= Seq::empty());
    while i < parts.len()
        invariant
            i <= parts.len(),
            out@ == joined(texts(parts@).subrange(0, i as int), separator@),
        decreases parts.len() - i,
    {
        proof {
            let s = texts(parts@).subrange(0, i + 1);
            assert(s.drop_last() =~= texts(parts@).subrange(0, i as int));
            assert(s.last() == parts@[i as int]@);
            if i == 0 {
                assert(s[0] == parts@[0]@);
                assert(Seq::<char>::empty() + parts@[0]@ =~= parts@[0]@);
            }
        }
        if i > 0 {
            out.append(separator);
        }
        out.append(parts[i].as_str());
        i = i + 1;
    }
    assert(texts(parts@).subrange(0, parts@.len() as int) =~= texts(parts@));
    out
}

/// A copy of a list of strings.
pub fn clone_strings(strings: &Vec<String>) -> (out: Vec<String>)
    ensures
        texts(out@) == texts(strings@),
{
    let mut out: Vec<String> = Vec::new();
    let mut i: usize = 0;
    while i < strings.len()
        invariant
            i <= strings.len(),
            texts(out@) == texts(strings@).subrange(0, i as int),
        decreases strings.len() - i,
    {
        let ghost before = out@;
        let copy = strings[i].clone();
        assert(copy@ == strings@[i as int]@);
        out.push(copy);
        assert(texts(out@) =~= texts(before).push(copy@));
        i = i + 1;
        assert(texts(out@) =~= texts(strings@).subrange(0, i as int));
    }
    assert(texts(strings@).subrange(0, strings@.len() as int) =~= texts(strings@));
    out
}

impl<DateType> FeastRule<DateType> {
    /// The feast as it is shown: its name, and after a comma its titles with `and`
    /// between them.
    pub fn to_string(&self) -> (out: String)
        ensures
            out@ == feast_text(self.name@, texts(self.titles@)),
    {
        if self.titles.len() == 0 {
            self.name.clone()
        } else {
            let all = join(&self.titles, " and ");
            concat3(self.name.as_str(), ", ", all.as_str())
        }
    }

    /// The feast's rank in the edition `R`.
    pub fn get_feastrank<R: FeastRank>(&self) -> (out: Result<R, RankError>)
        ensures
            out == feast_rank_of::<R>(
                self.name@,
                opt_view(self.rank),
                self.day_type,
                self.movable,
                self.of_our_lord,
            ),
            out matches Ok(r) ==> r.well_formed(),
    {
        let default_rank = String::from_str("III");
        let rank: &str = match &self.rank {
            Some(r) => r.as_str(),
            None => default_rank.as_str(),
        };
        let day_type = match self.day_type {
            Some(t) => t,
            None => DayType::Feast,
        };
        let mut context = LiturgicalContext::new().feast(self.name.as_str());
        if self.movable {
            context = context.movable();
        }
        if self.of_our_lord {
            context = context.of_our_lord();
        }
        R::new_with_context(rank, &day_type, &context)
    }

    /// The feast as an observance of the day `date`, ranked in the edition `R`.
    pub fn into_liturgical_unit<R: FeastRank>(self, date: Date) -> (out: Result<LiturgicalUnit, RankError>)
        ensures
            match feast_rank_of::<R>(
                self.name@,
                opt_view(self.rank),
                self.day_type,
                self.movable,
                self.of_our_lord,
            ) {
                Ok(r) => out matches Ok(u) && u@ == (UnitView {
                    desc: feast_text(self.name@, texts(self.titles@)),
                    rank: r.rank_text(),
                    date: date@,
                    color: self.color@,
                }),
                Err(e) => out == Err::<LiturgicalUnit, RankError>(e),
            },
    {
        let rank = match self.get_feastrank::<R>() {
            Ok(r) => r.get_rank_string(),
            Err(e) => {
                return Err(e);
            },
        };
        Ok(LiturgicalUnit { desc: self.to_string(), rank, date, color: self.color })
    }
}

/// The calendar year in which a feast of the liturgical year `lit_year` falls, and whether
/// the feast is movable. A feast on a fixed day belongs to the calendar year before if its
/// day is not before the first Sunday of Advent that ends the liturgical year; every other
/// feast is movable and falls in the year itself. `None` where the fixed day, or the
/// Christmas from which Advent is reckoned, is no day of its year.
pub open spec fn feast_year(rule: DateRule, lit_year: int) -> Option<(int, bool)> {
    match rule {
        DateRule::Fixed { month, day } => match calendar_day(lit_year, month as int, day as int) {
            Some(current) => {
                let advent_year = if month >= 11 {
                    lit_year
                } else {
                    lit_year + 1
                };
                match calendar_day(advent_year, 12, 25) {
                    Some(christmas) => if current >= sunday_on_or_before(christmas - 21) {
                        Some((lit_year - 1, false))
                    } else {
                        Some((lit_year, false))
                    },
                    None => None,
                }
            },
            None => None,
        },
        _ => Some((lit_year, true)),
    }
}

/// The number of the last Sunday that is not after day `n`.
fn sunday_before(n: i64) -> (out: i64)
    requires
        -1_000_000_000 <= n <= 1_000_000_000,
    ensures
        out == sunday_on_or_before(n as int),
{
    let m = n % 7;
    if m < 0 {
        n - (m + 7)
    } else {
        n - m
    }
}

/// The calendar year in which a feast of the liturgical year `lit_year` falls, and whether
/// the feast is movable.
pub fn year_of_feast(rule: &DateRule, lit_year: i32) -> (out: Option<(i32, bool)>)
    ensures
        match feast_year(*rule, lit_year as int) {
            Some(p) => out matches Some(q) && q.0 == p.0 && q.1 == p.1,
            None => out is None,
        },
{
    match rule {
        DateRule::Fixed { month, day } => {
            let current_year_date = match Date::from_ymd(lit_year, *month as u32, *day as u32) {
                Some(d) => d,
                None => {
                    return None;
                },
            };
            // the Advent that ends this liturgical year
            let next_advent_year: i32 = if *month >= 11 {
                lit_year
            } else {
                lit_year + 1
            };
            let christmas = match Date::from_ymd(next_advent_year, 12, 25) {
                Some(d) => d,
                None => {
                    return None;
                },
            };
            // three weeks before Christmas, and back to the Sunday
            let advent_sunday: i64 = sunday_before(christmas.days() as i64 - 21);
            if current_year_date.days() as i64 >= advent_sunday {
                Some((lit_year - 1, false))
            } else {
                Some((lit_year, false))
            }
        },
        _ => Some((lit_year, true)),
    }
}

impl FeastRule<DateRule> {
    /// The feast in a liturgical year; a failure where its rule names no day.
    pub open spec fn instantiated(self, lit_year: int) -> Option<FeastView> {
        match feast_year(self.date_rule, lit_year) {
            Some((year, movable)) => match self.date_rule.eval(year) {
                Some(date) => Some(
                    FeastView {
                        name: self.name@,
                        date,
                        rank: opt_view(self.rank),
                        of_our_lord: self.of_our_lord,
                        day_type: self.day_type,
                        color: self.color@,
                        titles: texts(self.titles@),
                        movable,
                    },
                ),
                None => None,
            },
            None => None,
        }
    }

    /// The feast in the liturgical year `lit_year`.
    pub fn instantiate_for_lit_year_with_advent(&self, lit_year: i32) -> (out: Option<FeastRule<Date>>)
        ensures
            match self.instantiated(lit_year as int) {
                Some(v) => out matches Some(f) && f@ == v,
                None => out is None,
            },
    {
        let (calendar_year, movable) = match year_of_feast(&self.date_rule, lit_year) {
            Some(p) => p,
            None => {
                return None;
            },
        };
        let date = match self.date_rule.to_day(calendar_year) {
            Some(d) => d,
            None => {
                return None;
            },
        };
        Some(
            FeastRule {
                name: self.name.clone(),
                date_rule: date,
                rank: clone_opt_string(&self.rank),
                of_our_lord: self.of_our_lord,
                day_type: self.day_type,
                color: self.color.clone(),
                titles: clone_strings(&self.titles),
                movable,
            },
        )
    }

    /// The same feast, its name prefixed with `prefix` and a colon.
    pub fn add_extensions_prefix(self, prefix: &str) -> (out: Self)
        ensures
            out.name@ == prefix@ + ": "@ + self.name@,
            out == (FeastRule { name: out.name, ..self }),
    {
        let mut out = self;
        out.name = concat3(prefix, ": ", out.name.as_str());
        out
    }
}

impl FeastRule<Date> {
    /// A copy of the feast.
    pub fn duplicate(&self) -> (out: Self)
        ensures
            out@ == self@,
    {
        FeastRule {
            name: self.name.clone(),
            date_rule: self.date_rule,
            rank: clone_opt_string(&self.rank),
            of_our_lord: self.of_our_lord,
            day_type: self.day_type,
            color: self.color.clone(),
            titles: clone_strings(&self.titles),
            movable: self.movable,
        }
    }
}

} // verus!
