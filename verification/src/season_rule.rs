//! Seasons of the liturgical year: their bounds, how their Sundays and weeks are counted
//! and named, and the ranks of their days. A season is written with date rules and then
//! instantiated for a year.

use vstd::prelude::*;
use crate::date::{day_of, Date};
use crate::date_rule::DateRule;
use crate::text::{clone_opt_string, has_substring, lowercase_of, opt_view, str_contains, str_eq, to_lowercase};

verus! {

/// The rank of the weekdays of a part of a season.
#[derive(Debug)]
pub struct FerialRule<DateType> {
    pub name: String,
    pub begin: DateType,
    pub end: DateType,
    pub rank: String,
}

/// How the days and weeks of a season are counted.
#[derive(Debug)]
pub struct CountingConfig<DateType> {
    pub sundays_suffix: Option<String>,
    pub ferias_suffix: Option<String>,
    pub sundays_from: Option<DateType>,
    pub ferias_from: Option<DateType>,
    /// The season whose count this one goes on with, for a count that runs across a break.
    pub continue_counting_from_season: Option<String>,
}

/// How the days of a season are described.
#[derive(Debug)]
pub struct DisplayConfig<DateType> {
    pub append_week_of_month: Option<DateType>,
    pub dont_show_week_of_season: bool,
}

/// Whether a season is an octave, and of which rank.
#[derive(Debug)]
pub struct OctaveConfig {
    pub is_octave: bool,
    pub octave_rank: Option<String>,
}

/// The season from which a season takes what it leaves open.
#[derive(Debug)]
pub struct HierarchyConfig {
    pub parent_season: Option<String>,
}

/// What every season has.
#[derive(Debug)]
pub struct SeasonCore<DateType> {
    pub name: String,
    pub begin: DateType,
    pub end: DateType,
    pub color: String,
    pub sunday_rank: Option<String>,
    pub ferial_rules: Vec<FerialRule<DateType>>,
}

/// A season of the liturgical year.
#[derive(Debug)]
pub struct SeasonRule<DateType> {
    pub core: SeasonCore<DateType>,
    pub counting: CountingConfig<DateType>,
    pub display: DisplayConfig<DateType>,
    pub octave: OctaveConfig,
    pub hierarchy: HierarchyConfig,
}

impl<DateType> FerialRule<DateType> {
    /// A rule that gives the weekdays from `begin` to `end` the rank `rank`.
    pub fn new(name: String, begin: DateType, end: DateType, rank: String) -> (out: Self)
        ensures
            out == (FerialRule { name, begin, end, rank }),
    {
        FerialRule { name, begin, end, rank }
    }
}

impl<D> SeasonRule<D> {
    /// A season with the given parts, which goes on with no other season's count.
    pub fn new(
        name: String,
        begin: D,
        end: D,
        color: String,
        count_sundays_suffix: Option<String>,
        count_ferias_suffix: Option<String>,
        count_sundays_from: Option<D>,
        count_ferias_from: Option<D>,
        append_week_of_month: Option<D>,
        dont_show_week_of_season: bool,
        sunday_rank: Option<String>,
        ferial_rules: Vec<FerialRule<D>>,
        is_octave: bool,
        octave_rank: Option<String>,
        parent_season: Option<String>,
    ) -> (out: Self)
        ensures
            out == (SeasonRule {
                core: SeasonCore { name, begin, end, color, sunday_rank, ferial_rules },
                counting: CountingConfig {
                    sundays_suffix: count_sundays_suffix,
                    ferias_suffix: count_ferias_suffix,
                    sundays_from: count_sundays_from,
                    ferias_from: count_ferias_from,
                    continue_counting_from_season: None,
                },
                display: DisplayConfig { append_week_of_month, dont_show_week_of_season },
                octave: OctaveConfig { is_octave, octave_rank },
                hierarchy: HierarchyConfig { parent_season },
            }),
    {
        SeasonRule {
            core: SeasonCore { name, begin, end, color, sunday_rank, ferial_rules },
            counting: CountingConfig {
                sundays_suffix: count_sundays_suffix,
                ferias_suffix: count_ferias_suffix,
                sundays_from: count_sundays_from,
                ferias_from: count_ferias_from,
                continue_counting_from_season: None,
            },
            display: DisplayConfig { append_week_of_month, dont_show_week_of_season },
            octave: OctaveConfig { is_octave, octave_rank },
            hierarchy: HierarchyConfig { parent_season },
        }
    }

    /// The season's name.
    pub fn name(&self) -> (out: &str)
        ensures
            out@ == self.core.name@,
    {
        self.core.name.as_str()
    }

    /// The season's first day.
    pub fn begin(&self) -> (out: &D)
        ensures
            *out == self.core.begin,
    {
        &self.core.begin
    }

    /// The season's last day.
    pub fn end(&self) -> (out: &D)
        ensures
            *out == self.core.end,
    {
        &self.core.end
    }

    /// The season's liturgical color.
    pub fn color(&self) -> (out: &str)
        ensures
            out@ == self.core.color@,
    {
        self.core.color.as_str()
    }

    /// The words that follow the number of a Sunday of the season.
    pub fn count_sundays_suffix(&self) -> (out: &Option<String>)
        ensures
            *out == self.counting.sundays_suffix,
    {
        &self.counting.sundays_suffix
    }

    /// The words that follow the number of a week of the season.
    pub fn count_ferias_suffix(&self) -> (out: &Option<String>)
        ensures
            *out == self.counting.ferias_suffix,
    {
        &self.counting.ferias_suffix
    }

    /// The day from which the Sundays of the season are counted.
    pub fn count_sundays_from(&self) -> (out: &Option<D>)
        ensures
            *out == self.counting.sundays_from,
    {
        &self.counting.sundays_from
    }

    /// The day from which the weeks of the season are counted.
    pub fn count_ferias_from(&self) -> (out: &Option<D>)
        ensures
            *out == self.counting.ferias_from,
    {
        &self.counting.ferias_from
    }

    /// The season whose count of weeks this season goes on with.
    pub fn continue_counting_from_season(&self) -> (out: &Option<String>)
        ensures
            *out == self.counting.continue_counting_from_season,
    {
        &self.counting.continue_counting_from_season
    }

    /// The day from which the week of the month is shown.
    pub fn append_week_of_month(&self) -> (out: &Option<D>)
        ensures
            *out == self.display.append_week_of_month,
    {
        &self.display.append_week_of_month
    }

    /// Whether the number of the week is left out.
    pub fn dont_show_week_of_season(&self) -> (out: bool)
        ensures
            out == self.display.dont_show_week_of_season,
    {
        self.display.dont_show_week_of_season
    }

    /// The rank code of the season's Sundays.
    pub fn sunday_rank(&self) -> (out: &Option<String>)
        ensures
            *out == self.core.sunday_rank,
    {
        &self.core.sunday_rank
    }

    /// The rules for the ranks of the season's weekdays.
    pub fn ferial_rules(&self) -> (out: &Vec<FerialRule<D>>)
        ensures
            *out == self.core.ferial_rules,
    {
        &self.core.ferial_rules
    }

    /// Whether the season is an octave.
    pub fn is_octave(&self) -> (out: bool)
        ensures
            out == self.octave.is_octave,
    {
        self.octave.is_octave
    }

    /// The rank code of the days within the octave.
    pub fn octave_rank(&self) -> (out: &Option<String>)
        ensures
            *out == self.octave.octave_rank,
    {
        &self.octave.octave_rank
    }

    /// The season from which this one takes what it leaves open.
    pub fn parent_season(&self) -> (out: &Option<String>)
        ensures
            *out == self.hierarchy.parent_season,
    {
        &self.hierarchy.parent_season
    }

    /// Sets `name` and leaves the rest as it is.
    pub fn set_name(&mut self, name: String)
        ensures
            *final(self) == (SeasonRule {
                core: SeasonCore { name: name, ..old(self).core },
                ..*old(self)
            }),
    {
        self.core.name = name;
    }

    /// Sets `begin` and leaves the rest as it is.
    pub fn set_begin(&mut self, begin: D)
        ensures
            *final(self) == (SeasonRule {
                core: SeasonCore { begin: begin, ..old(self).core },
                ..*old(self)
            }),
    {
        self.core.begin = begin;
    }

    /// Sets `end` and leaves the rest as it is.
    pub fn set_end(&mut self, end: D)
        ensures
            *final(self) == (SeasonRule {
                core: SeasonCore { end: end, ..old(self).core },
                ..*old(self)
            }),
    {
        self.core.end = end;
    }

    /// Sets `color` and leaves the rest as it is.
    pub fn set_color(&mut self, color: String)
        ensures
            *final(self) == (SeasonRule {
                core: SeasonCore { color: color, ..old(self).core },
                ..*old(self)
            }),
    {
        self.core.color = color;
    }

    /// Sets `count_sundays_suffix` and leaves the rest as it is.
    pub fn set_count_sundays_suffix(&mut self, count_sundays_suffix: Option<String>)
        ensures
            *final(self) == (SeasonRule {
                counting: CountingConfig { sundays_suffix: count_sundays_suffix, ..old(self).counting },
                ..*old(self)
            }),
    {
        self.counting.sundays_suffix = count_sundays_suffix;
    }

    /// Sets `count_ferias_suffix` and leaves the rest as it is.
    pub fn set_count_ferias_suffix(&mut self, count_ferias_suffix: Option<String>)
        ensures
            *final(self) == (SeasonRule {
                counting: CountingConfig { ferias_suffix: count_ferias_suffix, ..old(self).counting },
                ..*old(self)
            }),
    {
        self.counting.ferias_suffix = count_ferias_suffix;
    }

    /// Sets `count_sundays_from` and leaves the rest as it is.
    pub fn set_count_sundays_from(&mut self, count_sundays_from: Option<D>)
        ensures
            *final(self) == (SeasonRule {
                counting: CountingConfig { sundays_from: count_sundays_from, ..old(self).counting },
                ..*old(self)
            }),
    {
        self.counting.sundays_from = count_sundays_from;
    }

    /// Sets `count_ferias_from` and leaves the rest as it is.
    pub fn set_count_ferias_from(&mut self, count_ferias_from: Option<D>)
        ensures
            *final(self) == (SeasonRule {
                counting: CountingConfig { ferias_from: count_ferias_from, ..old(self).counting },
                ..*old(self)
            }),
    {
        self.counting.ferias_from = count_ferias_from;
    }

    /// Sets `append_week_of_month` and leaves the rest as it is.
    pub fn set_append_week_of_month(&mut self, append_week_of_month: Option<D>)
        ensures
            *final(self) == (SeasonRule {
                display: DisplayConfig { append_week_of_month: append_week_of_month, ..old(self).display },
                ..*old(self)
            }),
    {
        self.display.append_week_of_month = append_week_of_month;
    }

    /// Sets `dont_show_week_of_season` and leaves the rest as it is.
    pub fn set_dont_show_week_of_season(&mut self, dont_show_week_of_season: bool)
        ensures
            *final(self) == (SeasonRule {
                display: DisplayConfig { dont_show_week_of_season: dont_show_week_of_season, ..old(self).display },
                ..*old(self)
            }),
    {
        self.display.dont_show_week_of_season = dont_show_week_of_season;
    }

    /// Sets `sunday_rank` and leaves the rest as it is.
    pub fn set_sunday_rank(&mut self, sunday_rank: Option<String>)
        ensures
            *final(self) == (SeasonRule {
                core: SeasonCore { sunday_rank: sunday_rank, ..old(self).core },
                ..*old(self)
            }),
    {
        self.core.sunday_rank = sunday_rank;
    }

    /// Sets `ferial_rules` and leaves the rest as it is.
    pub fn set_ferial_rules(&mut self, ferial_rules: Vec<FerialRule<D>>)
        ensures
            *final(self) == (SeasonRule {
                core: SeasonCore { ferial_rules: ferial_rules, ..old(self).core },
                ..*old(self)
            }),
    {
        self.core.ferial_rules = ferial_rules;
    }

    /// Sets `is_octave` and leaves the rest as it is.
    pub fn set_is_octave(&mut self, is_octave: bool)
        ensures
            *final(self) == (SeasonRule {
                octave: OctaveConfig { is_octave: is_octave, ..old(self).octave },
                ..*old(self)
            }),
    {
        self.octave.is_octave = is_octave;
    }

    /// Sets `octave_rank` and leaves the rest as it is.
    pub fn set_octave_rank(&mut self, octave_rank: Option<String>)
        ensures
            *final(self) == (SeasonRule {
                octave: OctaveConfig { octave_rank: octave_rank, ..old(self).octave },
                ..*old(self)
            }),
    {
        self.octave.octave_rank = octave_rank;
    }

    /// Sets `parent_season` and leaves the rest as it is.
    pub fn set_parent_season(&mut self, parent_season: Option<String>)
        ensures
            *final(self) == (SeasonRule {
                hierarchy: HierarchyConfig { parent_season: parent_season, ..old(self).hierarchy },
                ..*old(self)
            }),
    {
        self.hierarchy.parent_season = parent_season;
    }
}


impl<D> Default for CountingConfig<D> {
    fn default() -> (out: Self)
        ensures
            out == (CountingConfig::<D> {
                sundays_suffix: None,
                ferias_suffix: None,
                sundays_from: None,
                ferias_from: None,
                continue_counting_from_season: None,
            }),
    {
        CountingConfig {
            sundays_suffix: None,
            ferias_suffix: None,
            sundays_from: None,
            ferias_from: None,
            continue_counting_from_season: None,
        }
    }
}

impl<D> Default for DisplayConfig<D> {
    fn default() -> (out: Self)
        ensures
            out == (DisplayConfig::<D> { append_week_of_month: None, dont_show_week_of_season: false }),
    {
        DisplayConfig { append_week_of_month: None, dont_show_week_of_season: false }
    }
}

impl Default for OctaveConfig {
    fn default() -> (out: Self)
        ensures
            out == (OctaveConfig { is_octave: false, octave_rank: None }),
    {
        OctaveConfig { is_octave: false, octave_rank: None }
    }
}

impl Default for HierarchyConfig {
    fn default() -> (out: Self)
        ensures
            out == (HierarchyConfig { parent_season: None }),
    {
        HierarchyConfig { parent_season: None }
    }
}

/// A ferial rule of a year as a plain value: texts by their characters, days by their
/// numbers.
pub struct FerialView {
    pub name: Seq<char>,
    pub begin: int,
    pub end: int,
    pub rank: Seq<char>,
}

/// A season of a year as a plain value.
pub struct SeasonView {
    pub name: Seq<char>,
    pub begin: int,
    pub end: int,
    pub color: Seq<char>,
    pub sunday_rank: Option<Seq<char>>,
    pub ferial_rules: Seq<FerialView>,
    pub sundays_suffix: Option<Seq<char>>,
    pub ferias_suffix: Option<Seq<char>>,
    pub sundays_from: Option<int>,
    pub ferias_from: Option<int>,
    pub continue_counting_from_season: Option<Seq<char>>,
    pub append_week_of_month: Option<int>,
    pub dont_show_week_of_season: bool,
    pub is_octave: bool,
    pub octave_rank: Option<Seq<char>>,
    pub parent_season: Option<Seq<char>>,
}

impl View for FerialRule<Date> {
    type V = FerialView;

    open spec fn view(&self) -> FerialView {
        FerialView { name: self.name@, begin: self.begin@, end: self.end@, rank: self.rank@ }
    }
}

/// The ferial rules of a list, each as a plain value.
pub open spec fn ferial_views(rules: Seq<FerialRule<Date>>) -> Seq<FerialView> {
    rules.map_values(|r: FerialRule<Date>| r@)
}

impl View for SeasonRule<Date> {
    type V = SeasonView;

    open spec fn view(&self) -> SeasonView {
        SeasonView {
            name: self.core.name@,
            begin: self.core.begin@,
            end: self.core.end@,
            color: self.core.color@,
            sunday_rank: opt_view(self.core.sunday_rank),
            ferial_rules: ferial_views(self.core.ferial_rules@),
            sundays_suffix: opt_view(self.counting.sundays_suffix),
            ferias_suffix: opt_view(self.counting.ferias_suffix),
            sundays_from: day_of(self.counting.sundays_from),
            ferias_from: day_of(self.counting.ferias_from),
            continue_counting_from_season: opt_view(self.counting.continue_counting_from_season),
            append_week_of_month: day_of(self.display.append_week_of_month),
            dont_show_week_of_season: self.display.dont_show_week_of_season,
            is_octave: self.octave.is_octave,
            octave_rank: opt_view(self.octave.octave_rank),
            parent_season: opt_view(self.hierarchy.parent_season),
        }
    }
}

/// The day of an optional rule in a year: no day where there is no rule; a failure where
/// the rule names no day.
pub open spec fn optional_day(rule: Option<DateRule>, year: int) -> Option<Option<int>> {
    match rule {
        None => Some(None),
        Some(r) => match r.eval(year) {
            Some(d) => Some(Some(d)),
            None => None,
        },
    }
}

/// The ferial rules of a year; a failure where one of them names no day.
pub open spec fn instantiated_rules(rules: Seq<FerialRule<DateRule>>, year: int) -> Option<Seq<FerialView>>
    decreases rules.len(),
{
    if rules.len() == 0 {
        Some(Seq::empty())
    } else {
        match instantiated_rules(rules.drop_last(), year) {
            Some(before) => match rules.last().instantiated(year) {
                Some(v) => Some(before.push(v)),
                None => None,
            },
            None => None,
        }
    }
}

/// How many days lie between the first and the last day of a ferial rule.
pub open spec fn span(rule: FerialView) -> int {
    rule.end - rule.begin
}

/// Where `x` goes into `sorted`, which is ordered by span: behind every rule whose span
/// is not longer than that of `x`.
pub open spec fn span_place(sorted: Seq<FerialView>, x: FerialView) -> int
    decreases sorted.len(),
{
    if sorted.len() == 0 || span(sorted.last()) <= span(x) {
        sorted.len() as int
    } else {
        span_place(sorted.drop_last(), x)
    }
}

/// The rules ordered by span, the shortest first; rules of one span keep their order.
pub open spec fn sorted_by_span(rules: Seq<FerialView>) -> Seq<FerialView>
    decreases rules.len(),
{
    if rules.len() == 0 {
        Seq::empty()
    } else {
        let before = sorted_by_span(rules.drop_last());
        before.insert(span_place(before, rules.last()), rules.last())
    }
}

/// The first of two optional values that is given.
pub open spec fn or_else<T>(own: Option<T>, inherited: Option<T>) -> Option<T> {
    match own {
        Some(v) => Some(v),
        None => inherited,
    }
}

/// A season with what it leaves open taken from its parent: the color where its own is
/// green or empty, the rank of its Sundays, the words and the days of its counts; its
/// ferial rules follow those of the parent, and all are ordered by span. The season names
/// no parent any more.
pub open spec fn inherited(own: SeasonView, parent: Option<SeasonView>) -> SeasonView {
    match parent {
        None => SeasonView {
            ferial_rules: sorted_by_span(own.ferial_rules),
            parent_season: None,
            ..own
        },
        Some(p) => SeasonView {
            color: if own.color == "green"@ || own.color.len() == 0 {
                p.color
            } else {
                own.color
            },
            sunday_rank: or_else(own.sunday_rank, p.sunday_rank),
            sundays_suffix: or_else(own.sundays_suffix, p.sundays_suffix),
            ferias_suffix: or_else(own.ferias_suffix, p.ferias_suffix),
            sundays_from: or_else(own.sundays_from, p.sundays_from),
            ferias_from: or_else(own.ferias_from, p.ferias_from),
            ferial_rules: sorted_by_span(p.ferial_rules + own.ferial_rules),
            parent_season: None,
            ..own
        },
    }
}

impl FerialRule<DateRule> {
    /// The rule in a year; a failure where its first or its last day is no day of that
    /// year.
    pub open spec fn instantiated(self, year: int) -> Option<FerialView> {
        match self.begin.eval(year) {
            Some(begin) => match self.end.eval(year) {
                Some(end) => Some(FerialView { name: self.name@, begin, end, rank: self.rank@ }),
                None => None,
            },
            None => None,
        }
    }

    /// The rule in the year `lit_year`.
    pub fn instantiate_for_lit_year(&self, lit_year: i32) -> (out: Option<FerialRule<Date>>)
        ensures
            match self.instantiated(lit_year as int) {
                Some(v) => out matches Some(r) && r@ == v,
                None => out is None,
            },
    {
        let begin = match self.begin.to_day(lit_year) {
            Some(d) => d,
            None => {
                return None;
            },
        };
        let end = match self.end.to_day(lit_year) {
            Some(d) => d,
            None => {
                return None;
            },
        };
        Some(FerialRule { name: self.name.clone(), begin, end, rank: self.rank.clone() })
    }
}

impl FerialRule<Date> {
    /// A copy of the rule.
    pub fn duplicate(&self) -> (out: Self)
        ensures
            out@ == self@,
    {
        FerialRule {
            name: self.name.clone(),
            begin: self.begin,
            end: self.end,
            rank: self.rank.clone(),
        }
    }
}

/// The day of an optional rule in a year.
fn optional_to_day(rule: &Option<DateRule>, lit_year: i32) -> (out: Option<Option<Date>>)
    ensures
        match optional_day(*rule, lit_year as int) {
            Some(d) => out matches Some(x) && day_of(x) == d,
            None => out is None,
        },
{
    match rule {
        None => Some(None),
        Some(r) => match r.to_day(lit_year) {
            Some(d) => Some(Some(d)),
            None => None,
        },
    }
}

/// The ferial rules of a year.
fn instantiate_rules(rules: &Vec<FerialRule<DateRule>>, lit_year: i32) -> (out: Option<
    Vec<FerialRule<Date>>,
>)
    ensures
        match instantiated_rules(rules@, lit_year as int) {
            Some(v) => out matches Some(r) && ferial_views(r@) == v,
            None => out is None,
        },
{
    let mut out: Vec<FerialRule<Date>> = Vec::new();
    let mut i: usize = 0;
    assert(rules@.subrange(0, 0) =~= Seq::empty());
    assert(ferial_views(out@) =~= Seq::empty());
    while i < rules.len()
        invariant
            i <= rules.len(),
            instantiated_rules(rules@.subrange(0, i as int), lit_year as int) == Some(ferial_views(out@)),
        decreases rules.len() - i,
    {
        proof {
            let s = rules@.subrange(0, i + 1);
            assert(s.drop_last() =~= rules@.subrange(0, i as int));
            assert(s.last() == rules@[i as int]);
        }
        match rules[i].instantiate_for_lit_year(lit_year) {
            Some(r) => {
                let ghost before = out@;
                out.push(r);
                assert(ferial_views(out@) =~= ferial_views(before).push(r@));
            },
            None => {
                proof {
                    lemma_rules_fail(rules@, i as int + 1, lit_year as int);
                }
                return None;
            },
        }
        i = i + 1;
    }
    assert(rules@.subrange(0, rules@.len() as int) =~= rules@);
    Some(out)
}

/// Where the first `k` rules of a list fail in a year, the whole list fails.
proof fn lemma_rules_fail(rules: Seq<FerialRule<DateRule>>, k: int, year: int)
    requires
        0 <= k <= rules.len(),
        instantiated_rules(rules.subrange(0, k), year) is None,
    ensures
        instantiated_rules(rules, year) is None,
    decreases rules.len() - k,
{
    if k == rules.len() {
        assert(rules.subrange(0, k) =~= rules);
    } else {
        let s = rules.subrange(0, k + 1);
        assert(s.drop_last() =~= rules.subrange(0, k));
        lemma_rules_fail(rules, k + 1, year);
    }
}

/// The rules of `more`, each put into `sorted` at its place by span.
fn insert_by_span(sorted: &mut Vec<FerialRule<Date>>, more: &Vec<FerialRule<Date>>, Ghost(done): Ghost<
    Seq<FerialView>,
>)
    requires
        ferial_views(old(sorted)@) == sorted_by_span(done),
    ensures
        ferial_views(final(sorted)@) == sorted_by_span(done + ferial_views(more@)),
{
    let mut i: usize = 0;
    assert(done + ferial_views(more@).subrange(0, 0) =~= done);
    while i < more.len()
        invariant
            i <= more.len(),
            ferial_views(sorted@) == sorted_by_span(done + ferial_views(more@).subrange(0, i as int)),
        decreases more.len() - i,
    {
        let rule = more[i].duplicate();
        let key: i64 = rule.end.days_since(&rule.begin);
        let mut j: usize = sorted.len();
        assert(ferial_views(sorted@).subrange(0, j as int) =~= ferial_views(sorted@));
        while j > 0 && sorted[j - 1].end.days_since(&sorted[j - 1].begin) > key
            invariant
                j <= sorted.len(),
                key == span(rule@),
                span_place(ferial_views(sorted@), rule@) == span_place(
                    ferial_views(sorted@).subrange(0, j as int),
                    rule@,
                ),
            decreases j,
        {
            proof {
                let s = ferial_views(sorted@).subrange(0, j as int);
                assert(s.last() == sorted@[j - 1]@);
                assert(s.drop_last() =~= ferial_views(sorted@).subrange(0, j - 1));
            }
            j = j - 1;
        }
        proof {
            let s = ferial_views(sorted@).subrange(0, j as int);
            if j > 0 {
                assert(s.last() == sorted@[j - 1]@);
            }
            assert(span_place(s, rule@) == j);
            let all = done + ferial_views(more@).subrange(0, i + 1);
            assert(all.drop_last() =~= done + ferial_views(more@).subrange(0, i as int));
            assert(all.last() == more@[i as int]@);
        }
        let ghost before = sorted@;
        sorted.insert(j, rule);
        assert(ferial_views(sorted@) =~= ferial_views(before).insert(j as int, rule@));
        i = i + 1;
    }
    assert(ferial_views(more@).subrange(0, more@.len() as int) =~= ferial_views(more@));
}

impl SeasonRule<DateRule> {
    /// The season in a year, as it is written; a failure where one of its rules names no
    /// day of that year.
    pub open spec fn instantiated(self, year: int) -> Option<SeasonView> {
        match (
            self.core.begin.eval(year),
            self.core.end.eval(year),
            optional_day(self.counting.sundays_from, year),
            optional_day(self.counting.ferias_from, year),
            optional_day(self.display.append_week_of_month, year),
            instantiated_rules(self.core.ferial_rules@, year),
        ) {
            (Some(begin), Some(end), Some(sundays_from), Some(ferias_from), Some(append), Some(rules)) => Some(
                SeasonView {
                    name: self.core.name@,
                    begin,
                    end,
                    color: self.core.color@,
                    sunday_rank: opt_view(self.core.sunday_rank),
                    ferial_rules: rules,
                    sundays_suffix: opt_view(self.counting.sundays_suffix),
                    ferias_suffix: opt_view(self.counting.ferias_suffix),
                    sundays_from,
                    ferias_from,
                    continue_counting_from_season: opt_view(self.counting.continue_counting_from_season),
                    append_week_of_month: append,
                    dont_show_week_of_season: self.display.dont_show_week_of_season,
                    is_octave: self.octave.is_octave,
                    octave_rank: opt_view(self.octave.octave_rank),
                    parent_season: opt_view(self.hierarchy.parent_season),
                },
            ),
            _ => None,
        }
    }

    /// The season in the year `lit_year`, as it is written.
    pub fn instantiate_for_lit_year(&self, lit_year: i32) -> (out: Option<SeasonRule<Date>>)
        ensures
            match self.instantiated(lit_year as int) {
                Some(v) => out matches Some(r) && r@ == v,
                None => out is None,
            },
    {
        let begin = match self.core.begin.to_day(lit_year) {
            Some(d) => d,
            None => {
                return None;
            },
        };
        let end = match self.core.end.to_day(lit_year) {
            Some(d) => d,
            None => {
                return None;
            },
        };
        let count_sundays_from = match optional_to_day(&self.counting.sundays_from, lit_year) {
            Some(d) => d,
            None => {
                return None;
            },
        };
        let count_ferias_from = match optional_to_day(&self.counting.ferias_from, lit_year) {
            Some(d) => d,
            None => {
                return None;
            },
        };
        let append_week_of_month = match optional_to_day(&self.display.append_week_of_month, lit_year) {
            Some(d) => d,
            None => {
                return None;
            },
        };
        let ferial_rules = match instantiate_rules(&self.core.ferial_rules, lit_year) {
            Some(r) => r,
            None => {
                return None;
            },
        };
        Some(
            SeasonRule {
                core: SeasonCore {
                    name: self.core.name.clone(),
                    begin,
                    end,
                    color: self.core.color.clone(),
                    sunday_rank: clone_opt_string(&self.core.sunday_rank),
                    ferial_rules,
                },
                counting: CountingConfig {
                    sundays_suffix: clone_opt_string(&self.counting.sundays_suffix),
                    ferias_suffix: clone_opt_string(&self.counting.ferias_suffix),
                    sundays_from: count_sundays_from,
                    ferias_from: count_ferias_from,
                    continue_counting_from_season: clone_opt_string(
                        &self.counting.continue_counting_from_season,
                    ),
                },
                display: DisplayConfig {
                    append_week_of_month,
                    dont_show_week_of_season: self.display.dont_show_week_of_season,
                },
                octave: OctaveConfig {
                    is_octave: self.octave.is_octave,
                    octave_rank: clone_opt_string(&self.octave.octave_rank),
                },
                hierarchy: HierarchyConfig {
                    parent_season: clone_opt_string(&self.hierarchy.parent_season),
                },
            },
        )
    }

    /// The season in the year `lit_year`, with what it leaves open taken from its parent.
    pub fn instantiate_with_hierarchy(&self, lit_year: i32, parent_season: Option<&SeasonRule<Date>>) -> (out: Option<
        SeasonRule<Date>,
    >)
        ensures
            match self.instantiated(lit_year as int) {
                Some(v) => out matches Some(r) && r@ == inherited(
                    v,
                    match parent_season {
                        Some(p) => Some(p@),
                        None => None,
                    },
                ),
                None => out is None,
            },
    {
        let own = match self.instantiate_for_lit_year(lit_year) {
            Some(s) => s,
            None => {
                return None;
            },
        };
        let ghost v = own@;
        let SeasonRule { core, counting, display, octave, hierarchy: _ } = own;
        let SeasonCore { name, begin, end, color, sunday_rank, ferial_rules } = core;
        let CountingConfig {
            sundays_suffix,
            ferias_suffix,
            sundays_from,
            ferias_from,
            continue_counting_from_season,
        } = counting;
        let mut sorted: Vec<FerialRule<Date>> = Vec::new();
        assert(ferial_views(sorted@) =~= sorted_by_span(Seq::empty()));
        match parent_season {
            None => {
                insert_by_span(&mut sorted, &ferial_rules, Ghost(Seq::empty()));
                assert(Seq::<FerialView>::empty() + ferial_views(ferial_rules@) =~= ferial_views(
                    ferial_rules@,
                ));
                Some(
                    SeasonRule {
                        core: SeasonCore { name, begin, end, color, sunday_rank, ferial_rules: sorted },
                        counting: CountingConfig {
                            sundays_suffix,
                            ferias_suffix,
                            sundays_from,
                            ferias_from,
                            continue_counting_from_season,
                        },
                        display,
                        octave,
                        hierarchy: HierarchyConfig { parent_season: None },
                    },
                )
            },
            Some(parent) => {
                // what the season leaves open comes from the parent
                let resolved_color = if str_eq(color.as_str(), "green") || color.as_str().unicode_len() == 0 {
                    parent.core.color.clone()
                } else {
                    color
                };
                let resolved_sunday_rank = match sunday_rank {
                    Some(r) => Some(r),
                    None => clone_opt_string(&parent.core.sunday_rank),
                };
                let resolved_sundays_suffix = match sundays_suffix {
                    Some(r) => Some(r),
                    None => clone_opt_string(&parent.counting.sundays_suffix),
                };
                let resolved_ferias_suffix = match ferias_suffix {
                    Some(r) => Some(r),
                    None => clone_opt_string(&parent.counting.ferias_suffix),
                };
                let resolved_sundays_from = match sundays_from {
                    Some(d) => Some(d),
                    None => parent.counting.sundays_from,
                };
                let resolved_ferias_from = match ferias_from {
                    Some(d) => Some(d),
                    None => parent.counting.ferias_from,
                };
                // the parent's rules come first, then the season's own
                insert_by_span(&mut sorted, &parent.core.ferial_rules, Ghost(Seq::empty()));
                assert(Seq::<FerialView>::empty() + ferial_views(parent.core.ferial_rules@) =~= ferial_views(
                    parent.core.ferial_rules@,
                ));
                insert_by_span(&mut sorted, &ferial_rules, Ghost(ferial_views(parent.core.ferial_rules@)));
                Some(
                    SeasonRule {
                        core: SeasonCore {
                            name,
                            begin,
                            end,
                            color: resolved_color,
                            sunday_rank: resolved_sunday_rank,
                            ferial_rules: sorted,
                        },
                        counting: CountingConfig {
                            sundays_suffix: resolved_sundays_suffix,
                            ferias_suffix: resolved_ferias_suffix,
                            sundays_from: resolved_sundays_from,
                            ferias_from: resolved_ferias_from,
                            continue_counting_from_season,
                        },
                        display,
                        octave,
                        hierarchy: HierarchyConfig { parent_season: None },
                    },
                )
            },
        }
    }
}

/// Whether day `date` lies within the bounds of a ferial rule.
pub open spec fn rule_covers(rule: FerialView, date: int) -> bool {
    rule.begin <= date <= rule.end
}

/// The rank code of the first of the rules from place `k` on that covers day `date`;
/// `IV` where none does.
pub open spec fn ferial_rank_from(rules: Seq<FerialView>, k: int, date: int) -> Seq<char>
    decreases rules.len() - k,
{
    if k < 0 || k >= rules.len() {
        "IV"@
    } else if rule_covers(rules[k], date) {
        rules[k].rank
    } else {
        ferial_rank_from(rules, k + 1, date)
    }
}

/// Whether a season of this name is of Lent: in lower case the name holds `lent`,
/// `passion` or `holy week`.
pub open spec fn name_of_lent(name: Seq<char>) -> bool {
    let lower = lowercase_of(name);
    has_substring(lower, "lent"@) || has_substring(lower, "passion"@) || has_substring(
        lower,
        "holy week"@,
    )
}

impl SeasonRule<Date> {
    /// A copy of the season.
    pub fn duplicate(&self) -> (out: Self)
        ensures
            out@ == self@,
    {
        let mut rules: Vec<FerialRule<Date>> = Vec::new();
        let mut i: usize = 0;
        while i < self.core.ferial_rules.len()
            invariant
                i <= self.core.ferial_rules.len(),
                ferial_views(rules@) == ferial_views(self.core.ferial_rules@).subrange(0, i as int),
            decreases self.core.ferial_rules.len() - i,
        {
            let ghost before = rules@;
            let copy = self.core.ferial_rules[i].duplicate();
            assert(copy@ == self.core.ferial_rules@[i as int]@);
            rules.push(copy);
            assert(ferial_views(rules@) =~= ferial_views(before).push(copy@));
            i = i + 1;
            assert(ferial_views(rules@) =~= ferial_views(self.core.ferial_rules@).subrange(0, i as int));
        }
        assert(ferial_views(rules@) =~= ferial_views(self.core.ferial_rules@));
        SeasonRule {
            core: SeasonCore {
                name: self.core.name.clone(),
                begin: self.core.begin,
                end: self.core.end,
                color: self.core.color.clone(),
                sunday_rank: clone_opt_string(&self.core.sunday_rank),
                ferial_rules: rules,
            },
            counting: CountingConfig {
                sundays_suffix: clone_opt_string(&self.counting.sundays_suffix),
                ferias_suffix: clone_opt_string(&self.counting.ferias_suffix),
                sundays_from: self.counting.sundays_from,
                ferias_from: self.counting.ferias_from,
                continue_counting_from_season: clone_opt_string(
                    &self.counting.continue_counting_from_season,
                ),
            },
            display: DisplayConfig {
                append_week_of_month: self.display.append_week_of_month,
                dont_show_week_of_season: self.display.dont_show_week_of_season,
            },
            octave: OctaveConfig {
                is_octave: self.octave.is_octave,
                octave_rank: clone_opt_string(&self.octave.octave_rank),
            },
            hierarchy: HierarchyConfig { parent_season: clone_opt_string(&self.hierarchy.parent_season) },
        }
    }

    /// The rank code of a weekday of the season: that of the first ferial rule that
    /// covers the day, `IV` where none does.
    pub fn get_ferial_rank_for_date(&self, date: &Date) -> (out: String)
        requires
            self@.begin <= date@ <= self@.end,
        ensures
            out@ == ferial_rank_from(self@.ferial_rules, 0, date@),
    {
        let mut k: usize = 0;
        while k < self.core.ferial_rules.len()
            invariant
                k <= self.core.ferial_rules.len(),
                ferial_rank_from(self@.ferial_rules, k as int, date@) == ferial_rank_from(
                    self@.ferial_rules,
                    0,
                    date@,
                ),
            decreases self.core.ferial_rules.len() - k,
        {
            let r = &self.core.ferial_rules[k];
            assert(self@.ferial_rules[k as int] == r@);
            if !date.is_before(&r.begin) && !date.is_after(&r.end) {
                return r.rank.clone();
            }
            k = k + 1;
        }
        String::from_str("IV")
    }

    /// The rank code of the season's Sundays; `II` where the season names none.
    pub fn get_sunday_rank(&self) -> (out: String)
        ensures
            out@ == (match self@.sunday_rank {
                Some(r) => r,
                None => "II"@,
            }),
    {
        match &self.core.sunday_rank {
            Some(r) => r.clone(),
            None => String::from_str("II"),
        }
    }

    /// Whether the season is of Lent: Lent itself, Passiontide or Holy Week, by its name.
    pub fn is_of_lent(&self) -> (out: bool)
        ensures
            out == name_of_lent(self@.name),
    {
        let lower = to_lowercase(self.core.name.as_str());
        lowered_name_of_lent(lower.as_str())
    }

    /// The words that follow the number of a Sunday of the season.
    pub fn get_count_sundays_suffix(&self) -> (out: Option<&str>)
        ensures
            match out {
                Some(s) => self@.sundays_suffix == Some(s@),
                None => self@.sundays_suffix is None,
            },
    {
        match &self.counting.sundays_suffix {
            Some(s) => Some(s.as_str()),
            None => None,
        }
    }

    /// The words that follow the number of a week of the season.
    pub fn get_count_ferias_suffix(&self) -> (out: Option<&str>)
        ensures
            match out {
                Some(s) => self@.ferias_suffix == Some(s@),
                None => self@.ferias_suffix is None,
            },
    {
        match &self.counting.ferias_suffix {
            Some(s) => Some(s.as_str()),
            None => None,
        }
    }

    /// The day from which the Sundays of the season are counted.
    pub fn get_count_sundays_from(&self) -> (out: Option<Date>)
        ensures
            day_of(out) == self@.sundays_from,
    {
        self.counting.sundays_from
    }

    /// The day from which the weeks of the season are counted.
    pub fn get_count_ferias_from(&self) -> (out: Option<Date>)
        ensures
            day_of(out) == self@.ferias_from,
    {
        self.counting.ferias_from
    }
}

/// Whether a name in lower case holds `lent`, `passion` or `holy week`.
pub fn lowered_name_of_lent(lower: &str) -> (out: bool)
    ensures
        out == (has_substring(lower@, "lent"@) || has_substring(lower@, "passion"@) || has_substring(
            lower@,
            "holy week"@,
        )),
{
    str_contains(lower, "lent") || str_contains(lower, "passion") || str_contains(lower, "holy week")
}

} // verus!
