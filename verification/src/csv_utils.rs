//! Records of liturgical days as a table holds them, and what can be gathered from a list
//! of them.

use vstd::prelude::*;
use crate::text::str_eq;

verus! {

/// One liturgical day as a table holds it.
#[derive(Debug)]
pub struct LiturgicalDayRecord {
    pub date: String,
    pub day_name: String,
    pub season: String,
    pub color: String,
    pub rank: String,
    pub feast_name: Option<String>,
    pub commemorations: Vec<String>,
}

/// The functions that work on lists of records.
pub struct CsvUtils;

/// How often each of a list of texts occurs: a text with its count, the texts in the
/// order in which they first occur.
pub struct Tally {
    pub entries: Vec<(String, usize)>,
}

/// What a list of records holds in all.
pub struct CalendarStatistics {
    pub total_days: usize,
    pub feast_days: usize,
    pub ferial_days: usize,
    pub season_counts: Tally,
    pub color_counts: Tally,
    pub rank_counts: Tally,
}

/// The text before the first stroke of a text; the whole text where it has no stroke.
pub open spec fn before_stroke(s: Seq<char>, i: int) -> Seq<char>
    decreases s.len() - i,
{
    if i < 0 || i >= s.len() {
        s
    } else if s[i] == '/' {
        s.subrange(0, i)
    } else {
        before_stroke(s, i + 1)
    }
}

impl LiturgicalDayRecord {
    /// Whether the day is of the first rank.
    pub fn is_major_feast(&self) -> (out: bool)
        ensures
            out == (self.rank@ == "I"@),
    {
        str_eq(self.rank.as_str(), "I")
    }

    /// Whether the day has a feast.
    pub fn is_feast(&self) -> (out: bool)
        ensures
            out == self.feast_name is Some,
    {
        self.feast_name.is_some()
    }

    /// Whether the day lies in the season `season`.
    pub fn is_in_season(&self, season: &str) -> (out: bool)
        ensures
            out == (self.season@ == season@),
    {
        str_eq(self.season.as_str(), season)
    }

    /// The first of the colors of the day, where several are given with strokes between
    /// them.
    pub fn primary_color(&self) -> (out: &str)
        ensures
            out@ == before_stroke(self.color@, 0),
    {
        let color = self.color.as_str();
        let n = color.unicode_len();
        let mut i: usize = 0;
        while i < n
            invariant
                i <= n,
                n == color@.len(),
                color@ == self.color@,
                before_stroke(color@, i as int) == before_stroke(color@, 0),
            decreases n - i,
        {
            if color.get_char(i) == '/' {
                return color.substring_char(0, i);
            }
            i = i + 1;
        }
        color
    }
}

/// The ranks, seasons or other texts of a list of records.
pub open spec fn record_ranks(records: Seq<LiturgicalDayRecord>) -> Seq<Seq<char>> {
    records.map_values(|r: LiturgicalDayRecord| r.rank@)
}

/// The seasons of a list of records.
pub open spec fn record_seasons(records: Seq<LiturgicalDayRecord>) -> Seq<Seq<char>> {
    records.map_values(|r: LiturgicalDayRecord| r.season@)
}

/// The colors of a list of records.
pub open spec fn record_colors(records: Seq<LiturgicalDayRecord>) -> Seq<Seq<char>> {
    records.map_values(|r: LiturgicalDayRecord| r.color@)
}

/// The records that references point to.
pub open spec fn pointed(refs: Seq<&LiturgicalDayRecord>) -> Seq<LiturgicalDayRecord> {
    refs.map_values(|r: &LiturgicalDayRecord| *r)
}

/// Whether one text comes before another in the order of the characters, a text coming
/// before every text that it begins.
pub open spec fn comes_before(a: Seq<char>, b: Seq<char>, i: int) -> bool
    decreases a.len() - i,
{
    if i < 0 || i >= b.len() {
        false
    } else if i >= a.len() {
        true
    } else if a[i] != b[i] {
        a[i] < b[i]
    } else {
        comes_before(a, b, i + 1)
    }
}

/// The place of a text in a list of texts in rising order: the first place whose text
/// does not come before it.
pub open spec fn place_in_order(sorted: Seq<Seq<char>>, k: int, x: Seq<char>) -> int
    decreases sorted.len() - k,
{
    if k < 0 || k >= sorted.len() {
        sorted.len() as int
    } else if comes_before(sorted[k], x, 0) {
        place_in_order(sorted, k + 1, x)
    } else {
        k
    }
}

/// A list of texts in rising order with one more text, unless the list has it.
pub open spec fn with_name(sorted: Seq<Seq<char>>, x: Seq<char>) -> Seq<Seq<char>> {
    let place = place_in_order(sorted, 0, x);
    if place < sorted.len() && sorted[place] == x {
        sorted
    } else {
        sorted.insert(place, x)
    }
}

/// The names of the feasts of a list of records, every name once, in rising order.
pub open spec fn feast_names(records: Seq<LiturgicalDayRecord>) -> Seq<Seq<char>>
    decreases records.len(),
{
    if records.len() == 0 {
        Seq::empty()
    } else {
        let before = feast_names(records.drop_last());
        match records.last().feast_name {
            Some(name) => with_name(before, name@),
            None => before,
        }
    }
}

/// The place of the first entry of a tally from place `k` on whose text is `x`.
pub open spec fn entry_of(entries: Seq<(Seq<char>, int)>, k: int, x: Seq<char>) -> Option<int>
    decreases entries.len() - k,
{
    if k < 0 || k >= entries.len() {
        None
    } else if entries[k].0 == x {
        Some(k)
    } else {
        entry_of(entries, k + 1, x)
    }
}

/// How often each text of a list occurs, the texts in the order in which they first
/// occur.
pub open spec fn tally_of(texts: Seq<Seq<char>>) -> Seq<(Seq<char>, int)>
    decreases texts.len(),
{
    if texts.len() == 0 {
        Seq::empty()
    } else {
        let before = tally_of(texts.drop_last());
        match entry_of(before, 0, texts.last()) {
            Some(k) => before.update(k, (before[k].0, before[k].1 + 1)),
            None => before.push((texts.last(), 1int)),
        }
    }
}

/// How many records of a list have a feast.
pub open spec fn feasts_in(records: Seq<LiturgicalDayRecord>) -> int
    decreases records.len(),
{
    if records.len() == 0 {
        0
    } else {
        feasts_in(records.drop_last()) + (if records.last().feast_name is Some {
            1int
        } else {
            0int
        })
    }
}

impl View for Tally {
    type V = Seq<(Seq<char>, int)>;

    open spec fn view(&self) -> Seq<(Seq<char>, int)> {
        self.entries@.map_values(|e: (String, usize)| (e.0@, e.1 as int))
    }
}

/// The texts of a list of strings.
pub open spec fn name_texts(names: Seq<String>) -> Seq<Seq<char>> {
    names.map_values(|s: String| s@)
}

/// Whether one text comes before another in the order of the characters.
pub fn text_comes_before(a: &Vec<char>, b: &Vec<char>) -> (out: bool)
    ensures
        out == comes_before(a@, b@, 0),
{
    let mut i: usize = 0;
    while i < a.len() && i < b.len()
        invariant
            i <= a.len(),
            i <= b.len(),
            comes_before(a@, b@, i as int) == comes_before(a@, b@, 0),
        decreases a.len() - i,
    {
        if a[i] != b[i] {
            return a[i] < b[i];
        }
        i = i + 1;
    }
    i < b.len()
}

impl Tally {
    /// A tally of nothing.
    pub fn new() -> (out: Self)
        ensures
            out@ == tally_of(Seq::empty()),
    {
        let out = Tally { entries: Vec::new() };
        assert(out@ =~= Seq::empty());
        out
    }

    /// How often `text` was counted.
    pub fn count_of(&self, text: &str) -> (out: usize)
        ensures
            out == (match entry_of(self@, 0, text@) {
                Some(k) => self@[k].1,
                None => 0,
            }),
    {
        let mut k: usize = 0;
        while k < self.entries.len()
            invariant
                k <= self.entries.len(),
                entry_of(self@, k as int, text@) == entry_of(self@, 0, text@),
            decreases self.entries.len() - k,
        {
            assert(self@[k as int] == (self.entries@[k as int].0@, self.entries@[k as int].1 as int));
            if str_eq(self.entries[k].0.as_str(), text) {
                return self.entries[k].1;
            }
            k = k + 1;
        }
        0
    }

    /// Counts `text` once more.
    fn add(&mut self, text: &str, Ghost(counted): Ghost<Seq<Seq<char>>>)
        requires
            old(self)@ == tally_of(counted),
            forall|i: int| 0 <= i < old(self)@.len() ==> (#[trigger] old(self)@[i]).1 <= counted.len(),
            counted.len() < usize::MAX,
        ensures
            final(self)@ == tally_of(counted.push(text@)),
            forall|i: int| 0 <= i < final(self)@.len() ==> (#[trigger] final(self)@[i]).1 <= counted.len() + 1,
    {
        let ghost before = self@;
        assert(counted.push(text@).drop_last() =~= counted);
        let mut k: usize = 0;
        while k < self.entries.len()
            invariant
                k <= self.entries.len(),
                self@ == before,
                before == tally_of(counted),
                counted.push(text@).drop_last() == counted,
                counted.push(text@).last() == text@,
                counted.len() < usize::MAX,
                forall|i: int| 0 <= i < before.len() ==> (#[trigger] before[i]).1 <= counted.len(),
                entry_of(before, k as int, text@) == entry_of(before, 0, text@),
            decreases self.entries.len() - k,
        {
            assert(self@[k as int] == (self.entries@[k as int].0@, self.entries@[k as int].1 as int));
            if str_eq(self.entries[k].0.as_str(), text) {
                let count = self.entries[k].1;
                assert(before[k as int].1 == count);
                let name = self.entries[k].0.clone();
                self.entries.set(k, (name, count + 1));
                assert(self@ =~= before.update(k as int, (before[k as int].0, before[k as int].1 + 1)));
                return;
            }
            k = k + 1;
        }
        self.entries.push((String::from_str(text), 1));
        assert(self@ =~= before.push((text@, 1int)));
    }
}

impl CsvUtils {
    /// The records of the rank `rank`, in the order of the list.
    pub fn filter_by_rank<'a>(records: &'a [LiturgicalDayRecord], rank: &str) -> (out: Vec<&'a LiturgicalDayRecord>)
        ensures
            pointed(out@) == records@.filter(|r: LiturgicalDayRecord| r.rank@ == rank@),
    {
        let mut out: Vec<&'a LiturgicalDayRecord> = Vec::new();
        let mut i: usize = 0;
        proof {
            reveal(Seq::filter);
            assert(records@.subrange(0, 0) =~= Seq::empty());
            assert(pointed(out@) =~= Seq::empty());
        }
        while i < records.len()
            invariant
                i <= records.len(),
                pointed(out@) == records@.subrange(0, i as int).filter(
                    |r: LiturgicalDayRecord| r.rank@ == rank@,
                ),
            decreases records.len() - i,
        {
            let record = &records[i];
            proof {
                reveal(Seq::filter);
                let s = records@.subrange(0, i + 1);
                assert(s.drop_last() =~= records@.subrange(0, i as int));
                assert(s.last() == *record);
            }
            if str_eq(record.rank.as_str(), rank) {
                let ghost before = out@;
                out.push(record);
                assert(pointed(out@) =~= pointed(before).push(*record));
            }
            i = i + 1;
        }
        assert(records@.subrange(0, records@.len() as int) =~= records@);
        out
    }

    /// The records of the season `season`, in the order of the list.
    pub fn filter_by_season<'a>(records: &'a [LiturgicalDayRecord], season: &str) -> (out: Vec<
        &'a LiturgicalDayRecord,
    >)
        ensures
            pointed(out@) == records@.filter(|r: LiturgicalDayRecord| r.season@ == season@),
    {
        let mut out: Vec<&'a LiturgicalDayRecord> = Vec::new();
        let mut i: usize = 0;
        proof {
            reveal(Seq::filter);
            assert(records@.subrange(0, 0) =~= Seq::empty());
            assert(pointed(out@) =~= Seq::empty());
        }
        while i < records.len()
            invariant
                i <= records.len(),
                pointed(out@) == records@.subrange(0, i as int).filter(
                    |r: LiturgicalDayRecord| r.season@ == season@,
                ),
            decreases records.len() - i,
        {
            let record = &records[i];
            proof {
                reveal(Seq::filter);
                let s = records@.subrange(0, i + 1);
                assert(s.drop_last() =~= records@.subrange(0, i as int));
                assert(s.last() == *record);
            }
            if str_eq(record.season.as_str(), season) {
                let ghost before = out@;
                out.push(record);
                assert(pointed(out@) =~= pointed(before).push(*record));
            }
            i = i + 1;
        }
        assert(records@.subrange(0, records@.len() as int) =~= records@);
        out
    }

    /// The names of the feasts of the records, every name once, in rising order.
    pub fn extract_feast_names(records: &[LiturgicalDayRecord]) -> (out: Vec<String>)
        ensures
            name_texts(out@) == feast_names(records@),
    {
        let mut names: Vec<String> = Vec::new();
        let mut i: usize = 0;
        proof {
            assert(records@.subrange(0, 0) =~= Seq::empty());
            assert(name_texts(names@) =~= Seq::empty());
        }
        while i < records.len()
            invariant
                i <= records.len(),
                name_texts(names@) == feast_names(records@.subrange(0, i as int)),
            decreases records.len() - i,
        {
            proof {
                let s = records@.subrange(0, i + 1);
                assert(s.drop_last() =~= records@.subrange(0, i as int));
                assert(s.last() == records@[i as int]);
            }
            match &records[i].feast_name {
                Some(name) => {
                    let x = crate::text::to_chars(name.as_str());
                    let ghost sorted = name_texts(names@);
                    let mut k: usize = 0;
                    let mut searching: bool = true;
                    while searching && k < names.len()
                        invariant
                            k <= names.len(),
                            sorted == name_texts(names@),
                            x@ == name@,
                            place_in_order(sorted, k as int, x@) == place_in_order(sorted, 0, x@),
                            !searching ==> k < names.len() && place_in_order(sorted, k as int, x@) == k,
                        decreases names.len() - k, (if searching { 1int } else { 0int }),
                    {
                        assert(sorted[k as int] == names@[k as int]@);
                        let here = crate::text::to_chars(names[k].as_str());
                        if !text_comes_before(&here, &x) {
                            searching = false;
                        } else {
                            k = k + 1;
                        }
                    }
                    assert(place_in_order(sorted, 0, x@) == k);
                    let present = k < names.len() && str_eq(names[k].as_str(), name.as_str());
                    if k < names.len() {
                        assert(sorted[k as int] == names@[k as int]@);
                    }
                    if !present {
                        let ghost before = names@;
                        names.insert(k, name.clone());
                        assert(name_texts(names@) =~= name_texts(before).insert(k as int, name@));
                    }
                },
                None => {},
            }
            i = i + 1;
        }
        assert(records@.subrange(0, records@.len() as int) =~= records@);
        names
    }

    /// What the records hold in all: how many days, how many of them with a feast and how
    /// many without, and how often each season, color and rank occurs.
    pub fn generate_statistics(records: &[LiturgicalDayRecord]) -> (out: CalendarStatistics)
        ensures
            out.total_days == records@.len(),
            out.feast_days == feasts_in(records@),
            out.ferial_days == records@.len() - feasts_in(records@),
            out.season_counts@ == tally_of(record_seasons(records@)),
            out.color_counts@ == tally_of(record_colors(records@)),
            out.rank_counts@ == tally_of(record_ranks(records@)),
    {
        let total_days = records.len();
        let mut feast_days: usize = 0;
        let mut season_counts = Tally::new();
        let mut color_counts = Tally::new();
        let mut rank_counts = Tally::new();
        let mut i: usize = 0;
        proof {
            assert(records@.subrange(0, 0) =~= Seq::empty());
            assert(record_seasons(records@.subrange(0, 0)) =~= Seq::empty());
            assert(record_colors(records@.subrange(0, 0)) =~= Seq::empty());
            assert(record_ranks(records@.subrange(0, 0)) =~= Seq::empty());
        }
        while i < records.len()
            invariant
                i <= records.len(),
                feast_days == feasts_in(records@.subrange(0, i as int)),
                feast_days <= i,
                season_counts@ == tally_of(record_seasons(records@.subrange(0, i as int))),
                color_counts@ == tally_of(record_colors(records@.subrange(0, i as int))),
                rank_counts@ == tally_of(record_ranks(records@.subrange(0, i as int))),
                forall|k: int| 0 <= k < season_counts@.len() ==> (#[trigger] season_counts@[k]).1 <= i,
                forall|k: int| 0 <= k < color_counts@.len() ==> (#[trigger] color_counts@[k]).1 <= i,
                forall|k: int| 0 <= k < rank_counts@.len() ==> (#[trigger] rank_counts@[k]).1 <= i,
            decreases records.len() - i,
        {
            let record = &records[i];
            let ghost before = records@.subrange(0, i as int);
            proof {
                let s = records@.subrange(0, i + 1);
                assert(s.drop_last() =~= before);
                assert(s.last() == *record);
                assert(record_seasons(s) =~= record_seasons(before).push(record.season@));
                assert(record_colors(s) =~= record_colors(before).push(record.color@));
                assert(record_ranks(s) =~= record_ranks(before).push(record.rank@));
            }
            if record.feast_name.is_some() {
                feast_days = feast_days + 1;
            }
            season_counts.add(record.season.as_str(), Ghost(record_seasons(before)));
            color_counts.add(record.color.as_str(), Ghost(record_colors(before)));
            rank_counts.add(record.rank.as_str(), Ghost(record_ranks(before)));
            i = i + 1;
        }
        assert(records@.subrange(0, records@.len() as int) =~= records@);
        let ferial_days = total_days - feast_days;
        CalendarStatistics { total_days, feast_days, ferial_days, season_counts, color_counts, rank_counts }
    }
}

} // verus!
