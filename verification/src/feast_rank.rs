//! What the three rank models share: the context a rank is built from, the steps of a
//! conflict resolution, and the fold that resolves all observances of one day.

use vstd::prelude::*;
use vstd::pervasive::cloned;
use crate::day_type::DayType;
use crate::text::{opt_view, clone_opt_string};

pub mod feast_rank54;
pub mod feast_rank62;
pub mod feast_rank_of;

verus! {

/// The facts about a day that decide, beside its rank code, which rank it gets.
#[derive(Debug)]
pub struct LiturgicalContext {
    /// The season's name, such as "Lent".
    pub season_name: Option<String>,
    /// The feast's name, read for named special cases.
    pub feast_name: Option<String>,
    /// Whether the feast's date depends on Easter.
    pub is_movable: bool,
    /// Whether the feast is of Our Lord.
    pub of_our_lord: bool,
    /// Whether the day belongs to Lent.
    pub of_lent: bool,
    /// The second kind of a day within an octave: a feria or a Sunday.
    pub secondary_day_type: Option<DayType>,
    /// Whether the day is the eighth day of its octave.
    pub is_octave_day: bool,
}

/// A context as a plain value: texts by their characters.
pub struct ContextView {
    pub season_name: Option<Seq<char>>,
    pub feast_name: Option<Seq<char>>,
    pub is_movable: bool,
    pub of_our_lord: bool,
    pub of_lent: bool,
    pub secondary_day_type: Option<DayType>,
    pub is_octave_day: bool,
}

impl View for LiturgicalContext {
    type V = ContextView;

    open spec fn view(&self) -> ContextView {
        ContextView {
            season_name: opt_view(self.season_name),
            feast_name: opt_view(self.feast_name),
            is_movable: self.is_movable,
            of_our_lord: self.of_our_lord,
            of_lent: self.of_lent,
            secondary_day_type: self.secondary_day_type,
            is_octave_day: self.is_octave_day,
        }
    }
}

impl ContextView {
    /// The context that states nothing.
    pub open spec fn blank() -> ContextView {
        ContextView {
            season_name: None,
            feast_name: None,
            is_movable: false,
            of_our_lord: false,
            of_lent: false,
            secondary_day_type: None,
            is_octave_day: false,
        }
    }
}

impl Clone for LiturgicalContext {
    fn clone(&self) -> (out: Self)
        ensures
            out@ == self@,
    {
        LiturgicalContext {
            season_name: clone_opt_string(&self.season_name),
            feast_name: clone_opt_string(&self.feast_name),
            is_movable: self.is_movable,
            of_our_lord: self.of_our_lord,
            of_lent: self.of_lent,
            secondary_day_type: self.secondary_day_type,
            is_octave_day: self.is_octave_day,
        }
    }
}

impl Default for LiturgicalContext {
    fn default() -> (out: Self)
        ensures
            out@ == ContextView::blank(),
    {
        LiturgicalContext {
            season_name: None,
            feast_name: None,
            is_movable: false,
            of_our_lord: false,
            of_lent: false,
            secondary_day_type: None,
            is_octave_day: false,
        }
    }
}

impl LiturgicalContext {
    /// The context that states nothing.
    pub fn new() -> (out: Self)
        ensures
            out@ == ContextView::blank(),
    {
        LiturgicalContext {
            season_name: None,
            feast_name: None,
            is_movable: false,
            of_our_lord: false,
            of_lent: false,
            secondary_day_type: None,
            is_octave_day: false,
        }
    }

    /// The same context with the season's name set.
    pub fn season(self, name: &str) -> (out: Self)
        ensures
            out@ == (ContextView { season_name: Some(name@), ..self@ }),
    {
        let mut out = self;
        out.season_name = Some(String::from_str(name));
        out
    }

    /// The same context with the feast's name set.
    pub fn feast(self, name: &str) -> (out: Self)
        ensures
            out@ == (ContextView { feast_name: Some(name@), ..self@ }),
    {
        let mut out = self;
        out.feast_name = Some(String::from_str(name));
        out
    }

    /// The same context, marked as movable.
    pub fn movable(self) -> (out: Self)
        ensures
            out@ == (ContextView { is_movable: true, ..self@ }),
    {
        let mut out = self;
        out.is_movable = true;
        out
    }

    /// The same context with the octave-day mark set to `is_octave_day`.
    pub fn octave_day(self, is_octave_day: bool) -> (out: Self)
        ensures
            out@ == (ContextView { is_octave_day, ..self@ }),
    {
        let mut out = self;
        out.is_octave_day = is_octave_day;
        out
    }

    /// The same context, marked as of Our Lord.
    pub fn of_our_lord(self) -> (out: Self)
        ensures
            out@ == (ContextView { of_our_lord: true, ..self@ }),
    {
        let mut out = self;
        out.of_our_lord = true;
        out
    }

    /// The same context with the Lent mark set to `v`.
    pub fn of_lent(self, v: bool) -> (out: Self)
        ensures
            out@ == (ContextView { of_lent: v, ..self@ }),
    {
        let mut out = self;
        out.of_lent = v;
        out
    }

    /// The same context, for a day within an octave that is also a feria.
    pub fn also_ferial(self) -> (out: Self)
        ensures
            out@ == (ContextView { secondary_day_type: Some(DayType::Feria), ..self@ }),
    {
        let mut out = self;
        out.secondary_day_type = Some(DayType::Feria);
        out
    }

    /// The same context, for a day within an octave that is also a Sunday.
    pub fn also_sunday(self) -> (out: Self)
        ensures
            out@ == (ContextView { secondary_day_type: Some(DayType::Sunday), ..self@ }),
    {
        let mut out = self;
        out.secondary_day_type = Some(DayType::Sunday);
        out
    }
}

/// Why two observances of one day could not be ordered.
#[derive(Debug, Clone, Copy, PartialEq, Eq, Structural)]
pub enum OccurrenceError {
    /// Two ferias of the same rank, neither or both of them ember days.
    EqualFerias,
    /// Two octaves of the same rank.
    EqualOctaves,
    /// No rule names the pair, and the numeric ranks are equal.
    EqualRank,
}

/// Why a rank could not be built from its code.
#[derive(Debug, Clone, Copy, PartialEq, Eq, Structural)]
pub enum RankError {
    /// The rank code is not one of those known for the kind of day.
    UnknownRank,
    /// A day within an octave is neither a feria nor a Sunday.
    MissingSecondaryDayType,
}

/// What one comparison does to the running state of a conflict resolution.
#[derive(Debug, Clone, Copy, PartialEq, Eq, Structural)]
pub enum FoldStep {
    /// The winner stays; the newcomer leaves no trace.
    KeepFirst,
    /// The newcomer wins; the old winner leaves no trace.
    TakeSecond,
    /// The winner stays; the newcomer is commemorated.
    CommemorateSecond,
    /// The newcomer wins; the old winner is commemorated.
    CommemorateFirst,
    /// The winner stays; the newcomer is transferred.
    TransferSecond,
    /// The newcomer wins; the old winner is transferred.
    TransferFirst,
    /// Both are commemorated and the day has no winner yet.
    CommemorateBoth,
}

/// Whether the Saturday office of the Blessed Virgin has a place beside a winning rank.
#[derive(Debug, Clone, Copy, PartialEq, Eq, Structural)]
pub enum BVMOnSaturdayResult {
    /// The rank leaves it no place.
    NotAdmitted,
    /// It takes the place of the day's description.
    Admitted,
    /// It is added as a commemoration.
    Commemorated,
}

/// Why the observances of one day could not be resolved.
#[derive(Debug, Clone, Copy, PartialEq, Eq, Structural)]
pub enum ResolveError {
    /// The list of competitors is empty.
    NoCompetitors,
    /// Every competitor is a commemoration by its rank, so none can win the day.
    OnlyCommemorations,
    /// The competitors at these two places of the list cannot be ordered.
    Unresolved { first: usize, second: usize },
    /// The last comparison left both competitors as commemorations.
    NoWinner,
}

/// The outcome of a day's conflict resolution.
pub struct ResolveConflictsResult<R, T> {
    /// The name of the observance that wins the day.
    pub winner: T,
    /// Its rank.
    pub winner_rank: R,
    /// The observance that moves to a later day, if one does.
    pub transferred: Option<(R, T)>,
    /// The names of the observances that are commemorated, in order.
    pub commemorations: Vec<T>,
}

/// The outcome of a day's conflict resolution, by places in the list of competitors.
pub struct Resolved {
    /// The place of the winner.
    pub winner: usize,
    /// The place of the observance that moves to a later day, if one does.
    pub transferred: Option<usize>,
    /// The places of the commemorated observances, in order.
    pub commemorations: Vec<usize>,
}

/// A `Resolved` as a plain value.
pub struct ResolvedView {
    pub winner: usize,
    pub transferred: Option<usize>,
    pub commemorations: Seq<usize>,
}

impl View for Resolved {
    type V = ResolvedView;

    open spec fn view(&self) -> ResolvedView {
        ResolvedView {
            winner: self.winner,
            transferred: self.transferred,
            commemorations: self.commemorations@,
        }
    }
}

/// The running state of a conflict resolution.
pub struct FoldState {
    /// The place of the observance that holds the day so far.
    pub winner: Option<usize>,
    /// The place of the observance that moves to a later day.
    pub transferred: Option<usize>,
    /// The places of the observances commemorated so far.
    pub commemorations: Seq<usize>,
}

impl FoldState {
    /// The state before any competitor was looked at.
    pub open spec fn start() -> FoldState {
        FoldState { winner: None, transferred: None, commemorations: Seq::empty() }
    }

    /// The state after the competitor at place `current` met the winner at place `winner`
    /// with the outcome `step`.
    pub open spec fn after(self, winner: usize, current: usize, step: FoldStep) -> FoldState {
        match step {
            FoldStep::KeepFirst => self,
            FoldStep::TakeSecond => FoldState { winner: Some(current), ..self },
            FoldStep::CommemorateSecond => FoldState {
                commemorations: self.commemorations.push(current),
                ..self
            },
            FoldStep::CommemorateFirst => FoldState {
                winner: Some(current),
                commemorations: self.commemorations.push(winner),
                ..self
            },
            FoldStep::TransferSecond => FoldState { transferred: Some(current), ..self },
            FoldStep::TransferFirst => FoldState {
                winner: Some(current),
                transferred: Some(winner),
                ..self
            },
            FoldStep::CommemorateBoth => FoldState {
                winner: None,
                commemorations: self.commemorations.push(winner).push(current),
                ..self
            },
        }
    }
}

/// A rank model: the ranks of one edition of the calendar, how a rank is built from a
/// rank code, and how the observances of one day are ordered.
pub trait FeastRank: Sized + Copy {
    /// Whether the rank is one that the edition knows. Ranks built from rank codes are.
    spec fn well_formed(self) -> bool;

    /// The rank as a number, the lowest number being the highest rank.
    spec fn numeric(self) -> u8;

    /// Whether an observance of this rank is a commemoration whatever else falls on the day.
    spec fn automatic_commemoration(self) -> bool;

    /// Whether the competitors are ordered by `numeric` before they are compared.
    spec fn sorts_by_rank() -> bool;

    /// Whether every competitor is compared with the first one, and not with the one
    /// that holds the day so far.
    spec fn fixed_pivot() -> bool;

    /// What the comparison of `first` with `second` does, if the two can be ordered.
    spec fn step(first: Self, second: Self) -> Option<FoldStep>;

    /// Whether a winner of this rank keeps the commemorations that the comparisons made.
    spec fn keeps_commemorations(self) -> bool;

    /// Whether a winner of this rank keeps the automatic commemorations.
    spec fn keeps_automatic_commemorations(self) -> bool;

    /// Whether the automatic commemorations come before those that the comparisons made.
    spec fn automatic_first() -> bool;

    /// The rank of a day of the given kind with the given rank code, in the given context.
    spec fn built(rank: Seq<char>, day_type: DayType, context: ContextView) -> Result<Self, RankError>;

    /// Whether the rank is that of a feria or of a Sunday.
    spec fn ferial_or_sunday(self) -> bool;

    /// Whether a day of this rank takes no transferred observance.
    spec fn high_festival(self) -> bool;

    /// The rank's name, as it is displayed.
    spec fn rank_text(self) -> Seq<char>;

    /// The rank under which the Saturday office of the Blessed Virgin is commemorated.
    spec fn saturday_rank() -> Option<Self>;

    /// Whether a Saturday won by this rank has a place for the office of the Blessed Virgin.
    spec fn saturday_admission(self) -> BVMOnSaturdayResult;

    /// An edition that takes the Saturday office as a commemoration names the rank under
    /// which it does so.
    proof fn lemma_saturday_rank(self)
        ensures
            self.saturday_admission() == BVMOnSaturdayResult::Commemorated ==> Self::saturday_rank() is Some,
    ;

    /// The rank as a number, the lowest number being the highest rank.
    fn numeric_rank(&self) -> (out: u8)
        ensures
            out == self.numeric(),
    ;

    /// Whether an observance of this rank is a commemoration whatever else falls on the day.
    fn is_automatic_commemoration(&self) -> (out: bool)
        ensures
            out == self.automatic_commemoration(),
    ;

    /// Whether the competitors are ordered by their numeric rank before they are compared.
    fn sorts_competitors() -> (out: bool)
        ensures
            out == Self::sorts_by_rank(),
    ;

    /// Whether every competitor is compared with the first one.
    fn compares_with_first() -> (out: bool)
        ensures
            out == Self::fixed_pivot(),
    ;

    /// What the comparison of `self` with `other` does; `None` where the two cannot be
    /// ordered.
    fn occurrence_step(&self, other: &Self) -> (out: Option<FoldStep>)
        ensures
            out == Self::step(*self, *other),
    ;

    /// Whether a winner of this rank keeps the commemorations that the comparisons made.
    fn admits_commemorations(&self) -> (out: bool)
        ensures
            out == self.keeps_commemorations(),
    ;

    /// Whether a winner of this rank keeps the automatic commemorations.
    fn admits_automatic_commemorations(&self) -> (out: bool)
        ensures
            out == self.keeps_automatic_commemorations(),
    ;

    /// Whether the automatic commemorations come before those that the comparisons made.
    fn lists_automatic_first() -> (out: bool)
        ensures
            out == Self::automatic_first(),
    ;

    /// The rank of a day of the given kind with the given rank code, in the given context.
    fn new_with_context(rank: &str, day_type: &DayType, context: &LiturgicalContext) -> (out: Result<
        Self,
        RankError,
    >)
        ensures
            out == Self::built(rank@, *day_type, context@),
            out matches Ok(r) ==> r.well_formed(),
    ;

    /// Whether the rank is that of a feria or of a Sunday.
    fn is_ferial_or_sunday_rank(&self) -> (out: bool)
        ensures
            out == self.ferial_or_sunday(),
    ;

    /// Whether a day of this rank takes no transferred observance.
    fn is_high_festial(&self) -> (out: bool)
        ensures
            out == self.high_festival(),
    ;

    /// The rank's name, as it is displayed.
    fn get_rank_string(&self) -> (out: String)
        requires
            self.well_formed(),
        ensures
            out@ == self.rank_text(),
    ;

    /// The rank under which the Saturday office of the Blessed Virgin is commemorated.
    fn get_bvm_on_saturday_rank() -> (out: Option<Self>)
        ensures
            out == Self::saturday_rank(),
            out matches Some(r) ==> r.well_formed(),
    ;

    /// Whether a Saturday won by this rank has a place for the office of the Blessed Virgin.
    fn admits_bvm_on_saturday(&self) -> (out: BVMOnSaturdayResult)
        ensures
            out == self.saturday_admission(),
    ;
}

/// Where `x` goes into `order`, which is ordered by numeric rank: behind every place whose
/// rank is not above that of `x`.
pub open spec fn insertion_place<R: FeastRank>(ranks: Seq<R>, order: Seq<usize>, x: usize) -> int
    decreases order.len(),
{
    if order.len() == 0 || ranks[order.last() as int].numeric() <= ranks[x as int].numeric() {
        order.len() as int
    } else {
        insertion_place(ranks, order.drop_last(), x)
    }
}

/// The first `n` places of `ranks`, ordered by numeric rank; places of one rank keep
/// their order.
pub open spec fn rank_order<R: FeastRank>(ranks: Seq<R>, n: nat) -> Seq<usize>
    decreases n,
{
    if n == 0 {
        Seq::empty()
    } else {
        let before = rank_order(ranks, (n - 1) as nat);
        before.insert(insertion_place(ranks, before, (n - 1) as usize), (n - 1) as usize)
    }
}

/// Whether `order` holds each of the first `n` places once, a higher rank before a lower
/// one and, of two places of one rank, the earlier place first.
pub open spec fn ordered_by_rank<R: FeastRank>(ranks: Seq<R>, order: Seq<usize>, n: nat) -> bool {
    &&& order.len() == n
    &&& forall|k: usize| k < n ==> #[trigger] order.contains(k)
    &&& forall|i: int| 0 <= i < order.len() ==> order[i] < n
    &&& forall|i: int, j: int|
        0 <= i < j < order.len() ==> {
            ||| ranks[order[i] as int].numeric() < ranks[order[j] as int].numeric()
            ||| ranks[order[i] as int].numeric() == ranks[order[j] as int].numeric() && order[i]
                < order[j]
        }
}

/// In an order that holds a higher rank before a lower one, a place goes in behind every
/// place whose rank is not below its own, and before every place of lower rank.
pub proof fn lemma_insertion_place<R: FeastRank>(ranks: Seq<R>, order: Seq<usize>, x: usize)
    requires
        forall|i: int, j: int|
            0 <= i < j < order.len() ==> ranks[order[i] as int].numeric() <= ranks[order[j] as int].numeric(),
    ensures
        0 <= insertion_place(ranks, order, x) <= order.len(),
        forall|i: int|
            0 <= i < insertion_place(ranks, order, x) ==> ranks[order[i] as int].numeric()
                <= ranks[x as int].numeric(),
        forall|i: int|
            insertion_place(ranks, order, x) <= i < order.len() ==> ranks[order[i] as int].numeric()
                > ranks[x as int].numeric(),
    decreases order.len(),
{
    if order.len() == 0 || ranks[order.last() as int].numeric() <= ranks[x as int].numeric() {
    } else {
        lemma_insertion_place(ranks, order.drop_last(), x);
        let place = insertion_place(ranks, order.drop_last(), x);
        assert forall|i: int| place <= i < order.len() implies ranks[order[i] as int].numeric()
            > ranks[x as int].numeric() by {
            if i < order.len() - 1 {
                assert(order.drop_last()[i] == order[i]);
            }
        }
        assert forall|i: int| 0 <= i < place implies ranks[order[i] as int].numeric()
            <= ranks[x as int].numeric() by {
            assert(order.drop_last()[i] == order[i]);
        }
    }
}

/// The order by rank is a stable sorting of the places: it holds every place once, no
/// lower rank stands before a higher one, and places of one rank keep their order.
pub proof fn lemma_rank_order<R: FeastRank>(ranks: Seq<R>, n: nat)
    requires
        n <= usize::MAX,
    ensures
        ordered_by_rank(ranks, rank_order(ranks, n), n),
    decreases n,
{
    if n > 0 {
        let before = rank_order(ranks, (n - 1) as nat);
        let x = (n - 1) as usize;
        lemma_rank_order(ranks, (n - 1) as nat);
        lemma_insertion_place(ranks, before, x);
        let place = insertion_place(ranks, before, x);
        let order = before.insert(place, x);
        before.insert_ensures(place, x);
        assert(order == rank_order(ranks, n));
        assert forall|k: usize| k < n implies #[trigger] order.contains(k) by {
            if k == n - 1 {
                assert(order[place] == k);
            } else {
                assert(before.contains(k));
                let i = choose|i: int| 0 <= i < before.len() && before[i] == k;
                if i < place {
                    assert(order[i] == k);
                } else {
                    assert(order[i + 1] == k);
                }
            }
        }
        assert forall|i: int, j: int| 0 <= i < j < order.len() implies {
            ||| ranks[order[i] as int].numeric() < ranks[order[j] as int].numeric()
            ||| ranks[order[i] as int].numeric() == ranks[order[j] as int].numeric() && order[i]
                < order[j]
        } by {
            let a = if i < place { i } else { i - 1 };
            let b = if j < place { j } else { j - 1 };
            if i != place {
                assert(order[i] == before[a]);
            }
            if j != place {
                assert(order[j] == before[b]);
            }
        }
    }
}

/// The order in which the competitors are looked at.
pub open spec fn competitor_order<R: FeastRank>(ranks: Seq<R>) -> Seq<usize> {
    if R::sorts_by_rank() {
        rank_order(ranks, ranks.len())
    } else {
        Seq::new(ranks.len(), |i: int| i as usize)
    }
}

/// The places of `order` whose rank is a commemoration by itself (`automatic`), or the
/// others.
pub open spec fn places_of<R: FeastRank>(ranks: Seq<R>, order: Seq<usize>, automatic: bool) -> Seq<usize> {
    order.filter(|i: usize| ranks[i as int].automatic_commemoration() == automatic)
}

/// The state after the contenders from place `k` of `order` on have been compared, or
/// the pair that could not be ordered.
pub open spec fn fold_from<R: FeastRank>(ranks: Seq<R>, order: Seq<usize>, k: int, st: FoldState) -> Result<
    FoldState,
    ResolveError,
>
    decreases order.len() - k,
{
    if k < 0 || k >= order.len() {
        Ok(st)
    } else {
        let current = order[k];
        match st.winner {
            None => fold_from(ranks, order, k + 1, FoldState { winner: Some(current), ..st }),
            Some(w) => {
                let pivot = if R::fixed_pivot() { order[0] } else { w };
                match R::step(ranks[pivot as int], ranks[current as int]) {
                    None => Err(ResolveError::Unresolved { first: pivot, second: current }),
                    Some(step) => fold_from(ranks, order, k + 1, st.after(w, current, step)),
                }
            },
        }
    }
}

/// The commemorations of a day won by `winner`.
pub open spec fn kept_commemorations<R: FeastRank>(
    winner: R,
    made: Seq<usize>,
    automatic: Seq<usize>,
) -> Seq<usize> {
    let made_kept = if winner.keeps_commemorations() { made } else { Seq::empty() };
    let automatic_kept = if winner.keeps_automatic_commemorations() { automatic } else { Seq::empty() };
    if R::automatic_first() {
        automatic_kept + made_kept
    } else {
        made_kept + automatic_kept
    }
}

/// The outcome of the day on which observances of these ranks fall, by places in `ranks`.
///
/// The competitors are put in order; those that are commemorations by their rank stand
/// aside; the others are compared one after the other, each comparison changing the winner,
/// the commemorations and the transferred observance as its outcome says; at the end the
/// winner's rank decides which commemorations stay.
pub open spec fn resolution<R: FeastRank>(ranks: Seq<R>) -> Result<ResolvedView, ResolveError> {
    if ranks.len() == 0 {
        Err(ResolveError::NoCompetitors)
    } else {
        let order = competitor_order(ranks);
        let contenders = places_of(ranks, order, false);
        if contenders.len() == 0 {
            Err(ResolveError::OnlyCommemorations)
        } else {
            match fold_from(ranks, contenders, 0, FoldState::start()) {
                Err(e) => Err(e),
                Ok(st) => match st.winner {
                    None => Err(ResolveError::NoWinner),
                    Some(w) => Ok(
                        ResolvedView {
                            winner: w,
                            transferred: st.transferred,
                            commemorations: kept_commemorations(
                                ranks[w as int],
                                st.commemorations,
                                places_of(ranks, order, true),
                            ),
                        },
                    ),
                },
            }
        }
    }
}

/// Every place named in `s` is below `n`.
pub open spec fn all_below(s: Seq<usize>, n: int) -> bool {
    forall|i: int| 0 <= i < s.len() ==> s[i] < n
}

/// The order in which the competitors are looked at.
fn order_competitors<R: FeastRank>(ranks: &Vec<R>) -> (order: Vec<usize>)
    ensures
        order@ == competitor_order(ranks@),
        all_below(order@, ranks.len() as int),
{
    let n = ranks.len();
    let sorts = R::sorts_competitors();
    let mut order: Vec<usize> = Vec::new();
    let mut i: usize = 0;
    while i < n
        invariant
            n == ranks.len(),
            i <= n,
            sorts == R::sorts_by_rank(),
            all_below(order@, i as int),
            sorts ==> order@ == rank_order(ranks@, i as nat),
            !sorts ==> order@ == Seq::new(i as nat, |k: int| k as usize),
        decreases n - i,
    {
        if sorts {
            let key = ranks[i].numeric_rank();
            let mut j: usize = order.len();
            assert(order@.subrange(0, j as int) =~= order@);
            while j > 0 && ranks[order[j - 1]].numeric_rank() > key
                invariant
                    j <= order.len(),
                    i < n == ranks.len(),
                    all_below(order@, i as int),
                    key == ranks@[i as int].numeric(),
                    insertion_place(ranks@, order@, i) == insertion_place(
                        ranks@,
                        order@.subrange(0, j as int),
                        i,
                    ),
                decreases j,
            {
                proof {
                    let s = order@.subrange(0, j as int);
                    assert(s.last() == order@[j - 1]);
                    assert(s.drop_last() =~= order@.subrange(0, j - 1));
                }
                j = j - 1;
            }
            proof {
                let s = order@.subrange(0, j as int);
                if j > 0 {
                    assert(s.last() == order@[j - 1]);
                }
                assert(insertion_place(ranks@, s, i) == j);
                assert(order@.subrange(0, order@.len() as int) =~= order@);
            }
            let ghost before = order@;
            order.insert(j, i);
            proof {
                assert(order@ == before.insert(j as int, i));
                assert forall|k: int| 0 <= k < order@.len() implies order@[k] < i + 1 by {
                    if k < j {
                        assert(order@[k] == before[k]);
                    } else if k == j {
                    } else {
                        assert(order@[k] == before[k - 1]);
                    }
                }
            }
        } else {
            order.push(i);
            assert(order@ =~= Seq::new((i + 1) as nat, |k: int| k as usize));
        }
        i = i + 1;
    }
    order
}

/// The places of `order` whose rank is a commemoration by itself (`automatic`), or the
/// others.
fn select_places<R: FeastRank>(ranks: &Vec<R>, order: &Vec<usize>, automatic: bool) -> (out: Vec<usize>)
    requires
        all_below(order@, ranks.len() as int),
    ensures
        out@ == places_of(ranks@, order@, automatic),
        all_below(out@, ranks.len() as int),
{
    let mut out: Vec<usize> = Vec::new();
    let mut k: usize = 0;
    proof {
        assert(order@.subrange(0, 0) =~= Seq::<usize>::empty());
        reveal(Seq::filter);
    }
    while k < order.len()
        invariant
            k <= order.len(),
            all_below(order@, ranks.len() as int),
            all_below(out@, ranks.len() as int),
            out@ == places_of(ranks@, order@.subrange(0, k as int), automatic),
        decreases order.len() - k,
    {
        let place = order[k];
        proof {
            let s = order@.subrange(0, k + 1);
            assert(s.drop_last() =~= order@.subrange(0, k as int));
            assert(s.last() == place);
            reveal(Seq::filter);
        }
        if ranks[place].is_automatic_commemoration() == automatic {
            out.push(place);
        }
        k = k + 1;
    }
    assert(order@.subrange(0, order@.len() as int) =~= order@);
    out
}

/// The outcome of the day on which observances of these ranks fall, by places in `ranks`.
pub fn resolve_places<R: FeastRank>(ranks: &Vec<R>) -> (out: Result<Resolved, ResolveError>)
    ensures
        match resolution(ranks@) {
            Ok(v) => out matches Ok(r) && r@ == v && v.winner < ranks.len()
                && all_below(v.commemorations, ranks.len() as int)
                && (v.transferred matches Some(t) ==> t < ranks.len()),
            Err(e) => out == Err::<Resolved, ResolveError>(e),
        },
{
    if ranks.len() == 0 {
        return Err(ResolveError::NoCompetitors);
    }
    let order = order_competitors(ranks);
    let contenders = select_places(ranks, &order, false);
    if contenders.len() == 0 {
        return Err(ResolveError::OnlyCommemorations);
    }
    let fixed = R::compares_with_first();
    let n = ranks.len();
    let mut winner: Option<usize> = None;
    let mut transferred: Option<usize> = None;
    let mut made: Vec<usize> = Vec::new();
    let mut k: usize = 0;
    while k < contenders.len()
        invariant
            k <= contenders.len(),
            contenders.len() > 0,
            n == ranks.len(),
            n > 0,
            order@ == competitor_order(ranks@),
            contenders@ == places_of(ranks@, order@, false),
            fixed == R::fixed_pivot(),
            all_below(contenders@, n as int),
            all_below(made@, n as int),
            winner matches Some(w) ==> w < n,
            transferred matches Some(t) ==> t < n,
            fold_from(
                ranks@,
                contenders@,
                k as int,
                FoldState { winner, transferred, commemorations: made@ },
            ) == fold_from(ranks@, contenders@, 0, FoldState::start()),
        decreases contenders.len() - k,
    {
        let current = contenders[k];
        match winner {
            None => {
                winner = Some(current);
            },
            Some(w) => {
                let pivot = if fixed { contenders[0] } else { w };
                match ranks[pivot].occurrence_step(&ranks[current]) {
                    None => {
                        assert(fold_from(
                            ranks@,
                            contenders@,
                            k as int,
                            FoldState { winner, transferred, commemorations: made@ },
                        ) == Err::<FoldState, ResolveError>(
                            ResolveError::Unresolved { first: pivot, second: current },
                        ));
                        return Err(ResolveError::Unresolved { first: pivot, second: current });
                    },
                    Some(step) => {
                        match step {
                            FoldStep::KeepFirst => {},
                            FoldStep::TakeSecond => {
                                winner = Some(current);
                            },
                            FoldStep::CommemorateSecond => {
                                made.push(current);
                            },
                            FoldStep::CommemorateFirst => {
                                made.push(w);
                                winner = Some(current);
                            },
                            FoldStep::TransferSecond => {
                                transferred = Some(current);
                            },
                            FoldStep::TransferFirst => {
                                transferred = Some(w);
                                winner = Some(current);
                            },
                            FoldStep::CommemorateBoth => {
                                made.push(w);
                                made.push(current);
                                winner = None;
                            },
                        }
                    },
                }
            },
        }
        k = k + 1;
    }
    match winner {
        None => Err(ResolveError::NoWinner),
        Some(w) => {
            let automatic = select_places(ranks, &order, true);
            let keep_made = ranks[w].admits_commemorations();
            let keep_automatic = ranks[w].admits_automatic_commemorations();
            let mut commemorations: Vec<usize> = Vec::new();
            if R::lists_automatic_first() {
                if keep_automatic {
                    extend_places(&mut commemorations, &automatic, Ghost(n as int));
                }
                if keep_made {
                    extend_places(&mut commemorations, &made, Ghost(n as int));
                }
            } else {
                if keep_made {
                    extend_places(&mut commemorations, &made, Ghost(n as int));
                }
                if keep_automatic {
                    extend_places(&mut commemorations, &automatic, Ghost(n as int));
                }
            }
            proof {
                assert(commemorations@ =~= kept_commemorations(ranks@[w as int], made@, automatic@));
            }
            Ok(Resolved { winner: w, transferred, commemorations })
        },
    }
}

/// Appends the places of `more` to `into`.
fn extend_places(into: &mut Vec<usize>, more: &Vec<usize>, Ghost(n): Ghost<int>)
    requires
        all_below(old(into)@, n),
        all_below(more@, n),
    ensures
        final(into)@ == old(into)@ + more@,
        all_below(final(into)@, n),
{
    let mut i: usize = 0;
    while i < more.len()
        invariant
            i <= more.len(),
            all_below(more@, n),
            all_below(into@, n),
            into@ == old(into)@ + more@.subrange(0, i as int),
        decreases more.len() - i,
    {
        into.push(more[i]);
        i = i + 1;
        assert(into@ =~= old(into)@ + more@.subrange(0, i as int));
    }
    assert(more@.subrange(0, more@.len() as int) =~= more@);
    assert(old(into)@ + more@.subrange(0, 0) =~= old(into)@);
}

/// The ranks of a list of competitors, in order.
pub open spec fn ranks_of<R, T>(competitors: Seq<(R, T)>) -> Seq<R> {
    competitors.map_values(|p: (R, T)| p.0)
}

/// `out` names the competitors at the places that `v` holds: each name is a clone of the
/// competitor's name, each rank the competitor's rank.
pub open spec fn names_places<R: FeastRank, T: Clone>(
    competitors: Seq<(R, T)>,
    v: ResolvedView,
    out: ResolveConflictsResult<R, T>,
) -> bool {
    &&& out.winner_rank == competitors[v.winner as int].0
    &&& cloned(competitors[v.winner as int].1, out.winner)
    &&& match v.transferred {
        Some(t) => out.transferred matches Some(p) && p.0 == competitors[t as int].0 && cloned(
            competitors[t as int].1,
            p.1,
        ),
        None => out.transferred is None,
    }
    &&& out.commemorations@.len() == v.commemorations.len()
    &&& forall|i: int|
        0 <= i < v.commemorations.len() ==> cloned(
            competitors[v.commemorations[i] as int].1,
            #[trigger] out.commemorations@[i],
        )
}

/// The names that `places` holds, each a clone of the name at its place in `competitors`:
/// the winner's, the transferred observance's, and those of the commemorations.
pub fn clone_names<A, T: Clone>(competitors: &[(A, T)], places: &Resolved) -> (out: (T, Option<T>, Vec<T>))
    requires
        places.winner < competitors@.len(),
        places.transferred matches Some(t) ==> t < competitors@.len(),
        all_below(places.commemorations@, competitors@.len() as int),
    ensures
        cloned(competitors@[places.winner as int].1, out.0),
        match places.transferred {
            Some(t) => out.1 matches Some(name) && cloned(competitors@[t as int].1, name),
            None => out.1 is None,
        },
        out.2@.len() == places.commemorations@.len(),
        forall|i: int|
            0 <= i < places.commemorations@.len() ==> cloned(
                competitors@[places.commemorations@[i] as int].1,
                #[trigger] out.2@[i],
            ),
{
    let winner = competitors[places.winner].1.clone();
    let transferred = match places.transferred {
        Some(t) => Some(competitors[t].1.clone()),
        None => None,
    };
    let mut commemorations: Vec<T> = Vec::new();
    let mut k: usize = 0;
    while k < places.commemorations.len()
        invariant
            k <= places.commemorations.len(),
            all_below(places.commemorations@, competitors@.len() as int),
            commemorations@.len() == k,
            forall|j: int|
                0 <= j < k ==> cloned(
                    competitors@[places.commemorations@[j] as int].1,
                    #[trigger] commemorations@[j],
                ),
        decreases places.commemorations.len() - k,
    {
        let name = competitors[places.commemorations[k]].1.clone();
        commemorations.push(name);
        k = k + 1;
    }
    (winner, transferred, commemorations)
}

/// Resolves the observances that fall on one day: who wins, who is commemorated, who is
/// transferred. Each competitor is a rank with a name; the names are handed back as clones.
pub fn resolve_competitors<R: FeastRank, T: Clone>(competitors: &[(R, T)]) -> (out: Result<
    ResolveConflictsResult<R, T>,
    ResolveError,
>)
    ensures
        match resolution(ranks_of(competitors@)) {
            Ok(v) => out matches Ok(r) && names_places(competitors@, v, r),
            Err(e) => out matches Err(x) && x == e,
        },
{
    let mut ranks: Vec<R> = Vec::new();
    let mut i: usize = 0;
    while i < competitors.len()
        invariant
            i <= competitors.len(),
            ranks@ == ranks_of(competitors@.subrange(0, i as int)),
        decreases competitors.len() - i,
    {
        ranks.push(competitors[i].0);
        i = i + 1;
        assert(ranks@ =~= ranks_of(competitors@.subrange(0, i as int)));
    }
    assert(competitors@.subrange(0, competitors@.len() as int) =~= competitors@);
    match resolve_places(&ranks) {
        Err(e) => Err(e),
        Ok(places) => {
            let (winner, transferred_name, commemorations) = clone_names(competitors, &places);
            let winner_rank = competitors[places.winner].0;
            let transferred = match places.transferred {
                Some(t) => match transferred_name {
                    Some(name) => Some((competitors[t].0, name)),
                    None => None,
                },
                None => None,
            };
            Ok(ResolveConflictsResult { winner, winner_rank, transferred, commemorations })
        },
    }
}

} // verus!
