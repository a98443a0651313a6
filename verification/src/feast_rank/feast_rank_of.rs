//! The rank model of the Ordinary Form: solemnities, feasts, memorials and optional
//! memorials, Sundays and ferias. The numeric rank decides between two observances; the
//! table is asked only where the numbers are equal.

use vstd::prelude::*;
use vstd::pervasive::cloned;
use crate::day_type::DayType;
use crate::feast_rank::{
    clone_names, resolution, resolve_places, BVMOnSaturdayResult, ContextView, FeastRank,
    FoldStep, LiturgicalContext, OccurrenceError, RankError, ResolveConflictsResult, ResolveError,
    ResolvedView,
};
use crate::text::{has_substring, opt_view, str_contains, str_eq, to_uppercase, uppercase_of};

verus! {

/// Facts about a feast beside its rank.
#[derive(Debug, Clone, Copy, PartialEq, Eq, Structural)]
pub struct FeastFlags {
    pub of_the_lord: bool,
    pub movable: bool,
    /// Proper to a place or a religious community.
    pub proper: bool,
}

impl FeastFlags {
    /// No fact set.
    pub fn empty() -> (out: Self)
        ensures
            out == (FeastFlags { of_the_lord: false, movable: false, proper: false }),
    {
        FeastFlags { of_the_lord: false, movable: false, proper: false }
    }
}

/// Facts about a feria beside its rank.
#[derive(Debug, Clone, Copy, PartialEq, Eq, Structural)]
pub struct FerialFlags {
    pub lent: bool,
    pub advent: bool,
    pub ash_wednesday: bool,
    pub good_friday: bool,
}

impl FerialFlags {
    /// No fact set.
    pub fn empty() -> (out: Self)
        ensures
            out == (FerialFlags {
                lent: false,
                advent: false,
                ash_wednesday: false,
                good_friday: false,
            }),
    {
        FerialFlags { lent: false, advent: false, ash_wednesday: false, good_friday: false }
    }
}

/// A rank of the Ordinary Form.
#[derive(Debug, Clone, Copy, PartialEq, Eq, Structural)]
pub enum FeastRankOfInner {
    /// A feast: 1 solemnity, 2 feast, 3 memorial, 4 optional memorial.
    Feast { rank: u8, flags: FeastFlags },
    /// A Sunday: 1 the major ones, 2 those of the seasons, 3 those of Ordinary Time.
    Sunday { rank: u8 },
    /// A weekday, ranked by its season.
    Feria { rank: u8, flags: FerialFlags },
}

/// How two observances of one day stand to each other.
#[derive(Debug, Clone, Copy, PartialEq, Eq, Structural)]
pub enum OccurrenceResult {
    FirstWins,
    SecondWins,
    SecondWinsFirstTransferred,
    FirstWinsSecondTransferred,
    FirstWinsSecondCommemoration,
    SecondWinsFirstCommemoration,
    CommemorateBoth,
}

impl OccurrenceResult {
    /// The same outcome, told from the other observance's side.
    pub open spec fn mirrored(self) -> OccurrenceResult {
        match self {
            OccurrenceResult::FirstWins => OccurrenceResult::SecondWins,
            OccurrenceResult::SecondWins => OccurrenceResult::FirstWins,
            OccurrenceResult::SecondWinsFirstTransferred => OccurrenceResult::FirstWinsSecondTransferred,
            OccurrenceResult::FirstWinsSecondTransferred => OccurrenceResult::SecondWinsFirstTransferred,
            OccurrenceResult::FirstWinsSecondCommemoration => OccurrenceResult::SecondWinsFirstCommemoration,
            OccurrenceResult::SecondWinsFirstCommemoration => OccurrenceResult::FirstWinsSecondCommemoration,
            OccurrenceResult::CommemorateBoth => OccurrenceResult::CommemorateBoth,
        }
    }

    /// The same outcome, told from the other observance's side.
    pub fn swap(self) -> (out: OccurrenceResult)
        ensures
            out == self.mirrored(),
    {
        match self {
            OccurrenceResult::FirstWins => OccurrenceResult::SecondWins,
            OccurrenceResult::SecondWins => OccurrenceResult::FirstWins,
            OccurrenceResult::SecondWinsFirstTransferred => {
                OccurrenceResult::FirstWinsSecondTransferred
            },
            OccurrenceResult::FirstWinsSecondTransferred => {
                OccurrenceResult::SecondWinsFirstTransferred
            },
            OccurrenceResult::FirstWinsSecondCommemoration => {
                OccurrenceResult::SecondWinsFirstCommemoration
            },
            OccurrenceResult::SecondWinsFirstCommemoration => {
                OccurrenceResult::FirstWinsSecondCommemoration
            },
            OccurrenceResult::CommemorateBoth => OccurrenceResult::CommemorateBoth,
        }
    }

    /// What the outcome does to the running state of a conflict resolution.
    pub open spec fn step(self) -> FoldStep {
        match self {
            OccurrenceResult::FirstWins => FoldStep::KeepFirst,
            OccurrenceResult::SecondWins => FoldStep::TakeSecond,
            OccurrenceResult::SecondWinsFirstTransferred => FoldStep::TransferFirst,
            OccurrenceResult::FirstWinsSecondTransferred => FoldStep::TransferSecond,
            OccurrenceResult::FirstWinsSecondCommemoration => FoldStep::CommemorateSecond,
            OccurrenceResult::SecondWinsFirstCommemoration => FoldStep::CommemorateFirst,
            OccurrenceResult::CommemorateBoth => FoldStep::CommemorateBoth,
        }
    }
}

/// An outcome, or the error in its place, told from the other observance's side.
pub open spec fn mirrored_result(r: Result<OccurrenceResult, OccurrenceError>) -> Result<
    OccurrenceResult,
    OccurrenceError,
> {
    match r {
        Ok(o) => Ok(o.mirrored()),
        Err(e) => Err(e),
    }
}

/// Any observance against a Sunday of the same numeric rank. A solemnity yields to a
/// major Sunday and is transferred; a feast of the Lord comes before a Sunday of a season;
/// anything else yields to a major Sunday and comes before any other.
pub open spec fn against_sunday(first: FeastRankOfInner, sunday_rank: u8) -> OccurrenceResult {
    match first {
        FeastRankOfInner::Feast { rank, flags } => if rank == 1 && sunday_rank == 1 {
            OccurrenceResult::SecondWinsFirstTransferred
        } else if rank == 2 && sunday_rank == 2 {
            if flags.of_the_lord {
                OccurrenceResult::FirstWins
            } else {
                OccurrenceResult::SecondWins
            }
        } else if rank == 1 {
            OccurrenceResult::FirstWins
        } else if sunday_rank == 1 {
            OccurrenceResult::SecondWins
        } else {
            OccurrenceResult::FirstWins
        },
        _ => if sunday_rank == 1 {
            OccurrenceResult::SecondWins
        } else {
            OccurrenceResult::FirstWins
        },
    }
}

/// Two solemnities: the one of the Lord stays and the other is transferred; where that
/// does not decide, the movable one is transferred.
pub open spec fn solemnities(f1: FeastFlags, f2: FeastFlags) -> Option<OccurrenceResult> {
    if f1.of_the_lord && !f2.of_the_lord {
        Some(OccurrenceResult::FirstWinsSecondTransferred)
    } else if !f1.of_the_lord && f2.of_the_lord {
        Some(OccurrenceResult::SecondWinsFirstTransferred)
    } else if f1.movable && !f2.movable {
        Some(OccurrenceResult::SecondWinsFirstTransferred)
    } else if !f1.movable && f2.movable {
        Some(OccurrenceResult::FirstWinsSecondTransferred)
    } else {
        None
    }
}

/// Two feasts of the second rank: the one of the Lord wins.
pub open spec fn feasts(f1: FeastFlags, f2: FeastFlags) -> Option<OccurrenceResult> {
    if f1.of_the_lord && !f2.of_the_lord {
        Some(OccurrenceResult::FirstWins)
    } else if !f1.of_the_lord && f2.of_the_lord {
        Some(OccurrenceResult::SecondWins)
    } else {
        None
    }
}

impl FeastRankOfInner {
    /// The rank as a number, 1 being the highest. A Sunday of a rank above 2 counts as 3.
    pub open spec fn numeric_rank(self) -> u8 {
        match self {
            FeastRankOfInner::Feast { rank, .. } => rank,
            FeastRankOfInner::Sunday { rank } => if rank == 1 {
                1
            } else if rank == 2 {
                2
            } else {
                3
            },
            FeastRankOfInner::Feria { rank, .. } => rank,
        }
    }

    /// Whether this is a feast of the Lord. No other kind of day is.
    pub open spec fn of_the_lord(self) -> bool {
        self matches FeastRankOfInner::Feast { flags, .. } && flags.of_the_lord
    }

    /// The kind of day.
    pub open spec fn day_type(self) -> DayType {
        match self {
            FeastRankOfInner::Feast { .. } => DayType::Feast,
            FeastRankOfInner::Sunday { .. } => DayType::Sunday,
            FeastRankOfInner::Feria { .. } => DayType::Feria,
        }
    }

    /// The rule of the table for `self` before `other`, two observances of the same
    /// numeric rank, where the table has one for the pair in this order.
    pub open spec fn table_rule(self, other: Self) -> Option<OccurrenceResult> {
        match (self, other) {
            (_, FeastRankOfInner::Sunday { rank: sunday_rank }) => Some(against_sunday(self, sunday_rank)),
            (FeastRankOfInner::Feast { rank: r1, flags: f1 }, FeastRankOfInner::Feast { rank: r2, flags: f2 }) =>
                if r1 == 1 && r2 == 1 {
                    solemnities(f1, f2)
                } else if r1 == 3 && r2 == 3 {
                    Some(OccurrenceResult::CommemorateBoth)
                } else if r1 == 2 && r2 == 2 {
                    feasts(f1, f2)
                } else {
                    None
                },
            (FeastRankOfInner::Feria { flags, .. }, FeastRankOfInner::Feast { rank: feast_rank, .. }) =>
                if flags.lent && feast_rank >= 3 {
                    Some(OccurrenceResult::FirstWinsSecondCommemoration)
                } else {
                    Some(OccurrenceResult::SecondWins)
                },
            _ => None,
        }
    }

    /// How `self` and `other` stand to each other on one day. The lower numeric rank wins.
    /// Of two of the same numeric rank the table decides, asked for the pair as given and,
    /// unless the pair is `swapped` already, for the pair the other way round, whose
    /// outcome is mirrored.
    pub open spec fn occurrence(self, other: Self, swapped: bool) -> Result<
        OccurrenceResult,
        OccurrenceError,
    > {
        if self.numeric_rank() < other.numeric_rank() {
            Ok(OccurrenceResult::FirstWins)
        } else if self.numeric_rank() > other.numeric_rank() {
            Ok(OccurrenceResult::SecondWins)
        } else {
            match self.table_rule(other) {
                Some(o) => Ok(o),
                None => if swapped {
                    Err(OccurrenceError::EqualRank)
                } else {
                    match other.table_rule(self) {
                        Some(o) => Ok(o.mirrored()),
                        None => Err(OccurrenceError::EqualRank),
                    }
                },
            }
        }
    }

    /// The rank that an upper-case rank code stands for; an unknown code stands for a
    /// memorial.
    pub open spec fn rank_number(upper: Seq<char>) -> u8 {
        if upper == "SOLEMNITY"@ || upper == "I"@ {
            1
        } else if upper == "FEAST"@ || upper == "II"@ {
            2
        } else if upper == "MEMORIAL"@ || upper == "III"@ {
            3
        } else if upper == "OPTIONAL"@ || upper == "IV"@ || upper == "COMM."@ || upper
            == "COMMEMORATIO"@ {
            4
        } else {
            3
        }
    }

    /// The rank of a day of kind `day_type` and numeric rank `n` in the given context.
    /// A vigil is a memorial, or an optional one if its rank is below the second; a day
    /// within an octave is the feria or the Sunday that it also is.
    pub open spec fn of_rank(n: u8, day_type: DayType, context: ContextView) -> Result<Self, RankError> {
        match day_type {
            DayType::Feria => Ok(
                FeastRankOfInner::Feria {
                    rank: n,
                    flags: FerialFlags {
                        lent: context.of_lent,
                        advent: context.season_name matches Some(s) && has_substring(s, "Advent"@),
                        ash_wednesday: context.feast_name matches Some(f) && has_substring(
                            f,
                            "Ash Wednesday"@,
                        ),
                        good_friday: context.feast_name matches Some(f) && !has_substring(
                            f,
                            "Ash Wednesday"@,
                        ) && has_substring(f, "Good Friday"@),
                    },
                },
            ),
            DayType::Feast => Ok(
                FeastRankOfInner::Feast {
                    rank: n,
                    flags: FeastFlags {
                        of_the_lord: context.of_our_lord,
                        movable: context.is_movable,
                        proper: false,
                    },
                },
            ),
            DayType::Sunday => Ok(FeastRankOfInner::Sunday { rank: n }),
            DayType::Vigil => Ok(
                FeastRankOfInner::Feast {
                    rank: if n <= 2 {
                        3
                    } else {
                        4
                    },
                    flags: FeastFlags { of_the_lord: context.of_our_lord, movable: false, proper: false },
                },
            ),
            DayType::Octave => match context.secondary_day_type {
                Some(DayType::Feria) => Ok(
                    FeastRankOfInner::Feria {
                        rank: n,
                        flags: FerialFlags {
                            lent: false,
                            advent: false,
                            ash_wednesday: false,
                            good_friday: false,
                        },
                    },
                ),
                Some(DayType::Sunday) => Ok(FeastRankOfInner::Sunday { rank: n }),
                _ => Err(RankError::MissingSecondaryDayType),
            },
        }
    }

    /// The rank of a day of kind `day_type` with the rank code `rank`. Case does not
    /// matter in the code.
    pub open spec fn built(rank: Seq<char>, day_type: DayType, context: ContextView) -> Result<
        Self,
        RankError,
    > {
        Self::of_rank(Self::rank_number(uppercase_of(rank)), day_type, context)
    }

    /// The rank's display name.
    pub open spec fn rank_text(self) -> Seq<char> {
        match self {
            FeastRankOfInner::Feast { rank, .. } => if rank == 1 {
                "Solemnity"@
            } else if rank == 2 {
                "Feast"@
            } else if rank == 3 {
                "Memorial"@
            } else if rank == 4 {
                "Optional Memorial"@
            } else {
                "Feast___"@
            },
            FeastRankOfInner::Sunday { rank } => if rank == 1 {
                "Major Sunday"@
            } else if rank == 2 {
                "Sunday"@
            } else {
                "Sunday___"@
            },
            FeastRankOfInner::Feria { .. } => "Feria"@,
        }
    }

    /// The rank that an upper-case rank code stands for.
    pub fn rank_from_upper(upper: &str) -> (out: u8)
        ensures
            out == Self::rank_number(upper@),
    {
        if str_eq(upper, "SOLEMNITY") || str_eq(upper, "I") {
            1
        } else if str_eq(upper, "FEAST") || str_eq(upper, "II") {
            2
        } else if str_eq(upper, "MEMORIAL") || str_eq(upper, "III") {
            3
        } else if str_eq(upper, "OPTIONAL") || str_eq(upper, "IV") || str_eq(upper, "COMM.") || str_eq(
            upper,
            "COMMEMORATIO",
        ) {
            4
        } else {
            3
        }
    }

    /// The rank that a rank code stands for. Case does not matter in the code.
    pub fn parse_rank_string(rank: &str) -> (out: u8)
        ensures
            out == Self::rank_number(uppercase_of(rank@)),
            1 <= out <= 4,
    {
        let rank_upper = to_uppercase(rank);
        Self::rank_from_upper(rank_upper.as_str())
    }

    /// The rank of a day of kind `day_type` with the rank code `rank`.
    pub fn new_with_context(rank: &str, day_type: &DayType, context: &LiturgicalContext) -> (out: Result<
        Self,
        RankError,
    >)
        ensures
            out == Self::built(rank@, *day_type, context@),
    {
        let numeric_rank = Self::parse_rank_string(rank);
        match day_type {
            DayType::Feria => {
                let mut flags = FerialFlags::empty();
                if context.of_lent {
                    flags.lent = true;
                }
                if let Some(season_name) = &context.season_name {
                    if str_contains(season_name.as_str(), "Advent") {
                        flags.advent = true;
                    }
                }
                if let Some(feast_name) = &context.feast_name {
                    if str_contains(feast_name.as_str(), "Ash Wednesday") {
                        flags.ash_wednesday = true;
                    } else if str_contains(feast_name.as_str(), "Good Friday") {
                        flags.good_friday = true;
                    }
                }
                Ok(FeastRankOfInner::Feria { rank: numeric_rank, flags })
            },
            DayType::Feast => {
                let mut flags = FeastFlags::empty();
                if context.of_our_lord {
                    flags.of_the_lord = true;
                }
                if context.is_movable {
                    flags.movable = true;
                }
                Ok(FeastRankOfInner::Feast { rank: numeric_rank, flags })
            },
            DayType::Sunday => Ok(FeastRankOfInner::Sunday { rank: numeric_rank }),
            DayType::Vigil => {
                let mut flags = FeastFlags::empty();
                if context.of_our_lord {
                    flags.of_the_lord = true;
                }
                if numeric_rank <= 2 {
                    Ok(FeastRankOfInner::Feast { rank: 3, flags })
                } else {
                    Ok(FeastRankOfInner::Feast { rank: 4, flags })
                }
            },
            DayType::Octave => {
                match context.secondary_day_type {
                    Some(DayType::Feria) => Ok(
                        FeastRankOfInner::Feria { rank: numeric_rank, flags: FerialFlags::empty() },
                    ),
                    Some(DayType::Sunday) => Ok(FeastRankOfInner::Sunday { rank: numeric_rank }),
                    _ => Err(RankError::MissingSecondaryDayType),
                }
            },
        }
    }

    /// The rank as a number, 1 being the highest.
    pub fn get_numeric_rank(&self) -> (out: u8)
        ensures
            out == self.numeric_rank(),
    {
        match self {
            FeastRankOfInner::Feast { rank, .. } => *rank,
            FeastRankOfInner::Sunday { rank } => {
                if *rank == 1 {
                    1
                } else if *rank == 2 {
                    2
                } else {
                    3
                }
            },
            FeastRankOfInner::Feria { rank, .. } => *rank,
        }
    }

    /// The rank's display name.
    pub fn get_rank_string(&self) -> (out: String)
        ensures
            out@ == self.rank_text(),
    {
        match self {
            FeastRankOfInner::Feast { rank, .. } => {
                if *rank == 1 {
                    String::from_str("Solemnity")
                } else if *rank == 2 {
                    String::from_str("Feast")
                } else if *rank == 3 {
                    String::from_str("Memorial")
                } else if *rank == 4 {
                    String::from_str("Optional Memorial")
                } else {
                    String::from_str("Feast___")
                }
            },
            FeastRankOfInner::Sunday { rank } => {
                if *rank == 1 {
                    String::from_str("Major Sunday")
                } else if *rank == 2 {
                    String::from_str("Sunday")
                } else {
                    String::from_str("Sunday___")
                }
            },
            FeastRankOfInner::Feria { .. } => String::from_str("Feria"),
        }
    }

    /// Whether this is a feast of the Lord.
    pub fn is_of_our_lord(&self) -> (out: bool)
        ensures
            out == self.of_the_lord(),
    {
        match self {
            FeastRankOfInner::Feast { flags, .. } => flags.of_the_lord,
            _ => false,
        }
    }

    /// How `self` and `other` stand to each other on one day. With `try_swapped` the pair
    /// has been turned round already and is not turned again.
    pub fn resolve_occurrence(&self, other: &Self, try_swapped: bool) -> (out: Result<
        OccurrenceResult,
        OccurrenceError,
    >)
        ensures
            out == self.occurrence(*other, try_swapped),
        decreases (if try_swapped { 0int } else { 1int }), 1int,
    {
        let self_rank = self.get_numeric_rank();
        let other_rank = other.get_numeric_rank();
        // the lower number wins
        if self_rank < other_rank {
            return Ok(OccurrenceResult::FirstWins);
        } else if self_rank > other_rank {
            return Ok(OccurrenceResult::SecondWins);
        }
        // the same number: the table decides
        let result = match (self, other) {
            (feast, FeastRankOfInner::Sunday { rank: sunday_rank }) => {
                match feast {
                    FeastRankOfInner::Feast { rank, flags } => {
                        if *rank == 1 && *sunday_rank == 1 {
                            OccurrenceResult::SecondWinsFirstTransferred
                        } else if *rank == 2 && *sunday_rank == 2 {
                            if flags.of_the_lord {
                                OccurrenceResult::FirstWins
                            } else {
                                OccurrenceResult::SecondWins
                            }
                        } else if *rank == 1 {
                            OccurrenceResult::FirstWins
                        } else if *sunday_rank == 1 {
                            OccurrenceResult::SecondWins
                        } else {
                            OccurrenceResult::FirstWins
                        }
                    },
                    _ => {
                        if *sunday_rank == 1 {
                            OccurrenceResult::SecondWins
                        } else {
                            OccurrenceResult::FirstWins
                        }
                    },
                }
            },
            (
                FeastRankOfInner::Feast { rank: r1, flags: f1 },
                FeastRankOfInner::Feast { rank: r2, flags: f2 },
            ) => {
                if *r1 == 1 && *r2 == 1 {
                    if f1.of_the_lord && !f2.of_the_lord {
                        OccurrenceResult::FirstWinsSecondTransferred
                    } else if !f1.of_the_lord && f2.of_the_lord {
                        OccurrenceResult::SecondWinsFirstTransferred
                    } else {
                        // both or neither of the Lord: the movable one is transferred
                        if f1.movable && !f2.movable {
                            OccurrenceResult::SecondWinsFirstTransferred
                        } else if !f1.movable && f2.movable {
                            OccurrenceResult::FirstWinsSecondTransferred
                        } else {
                            return self.handle_swap_or_error(other, try_swapped);
                        }
                    }
                } else if *r1 == 3 && *r2 == 3 {
                    OccurrenceResult::CommemorateBoth
                } else if *r1 == 2 && *r2 == 2 {
                    if f1.of_the_lord && !f2.of_the_lord {
                        OccurrenceResult::FirstWins
                    } else if !f1.of_the_lord && f2.of_the_lord {
                        OccurrenceResult::SecondWins
                    } else {
                        return self.handle_swap_or_error(other, try_swapped);
                    }
                } else {
                    return self.handle_swap_or_error(other, try_swapped);
                }
            },
            (FeastRankOfInner::Feria { flags, .. }, FeastRankOfInner::Feast { rank: feast_rank, .. }) => {
                if flags.lent && *feast_rank >= 3 {
                    OccurrenceResult::FirstWinsSecondCommemoration
                } else {
                    OccurrenceResult::SecondWins
                }
            },
            _ => return self.handle_swap_or_error(other, try_swapped),
        };
        Ok(result)
    }

    /// The pair turned round, unless it has been turned already; then the two cannot be
    /// ordered.
    fn handle_swap_or_error(&self, other: &Self, try_swapped: bool) -> (out: Result<
        OccurrenceResult,
        OccurrenceError,
    >)
        requires
            self.numeric_rank() == other.numeric_rank(),
            self.table_rule(*other) is None,
        ensures
            out == self.occurrence(*other, try_swapped),
        decreases (if try_swapped { 0int } else { 1int }), 0int,
    {
        if try_swapped {
            return Err(OccurrenceError::EqualRank);
        }
        match other.resolve_occurrence(self, true) {
            Ok(r) => Ok(r.swap()),
            Err(e) => Err(e),
        }
    }
}

/// A rank of the Ordinary Form, as the calendar builder uses it.
#[derive(Debug, Clone, Copy, PartialEq, Eq, Structural)]
pub struct FeastRankOf(pub FeastRankOfInner);

impl FeastRank for FeastRankOf {
    /// Every rank is well formed: each has a text that it is shown with.
    open spec fn well_formed(self) -> bool {
        true
    }

    open spec fn numeric(self) -> u8 {
        self.0.numeric_rank()
    }

    /// An optional memorial is always a commemoration.
    open spec fn automatic_commemoration(self) -> bool {
        self.0 matches FeastRankOfInner::Feast { rank, .. } && rank == 4
    }

    open spec fn sorts_by_rank() -> bool {
        true
    }

    /// Every competitor is compared with the one that holds the day so far.
    open spec fn fixed_pivot() -> bool {
        false
    }

    open spec fn step(first: Self, second: Self) -> Option<FoldStep> {
        match first.0.occurrence(second.0, false) {
            Ok(o) => Some(o.step()),
            Err(_) => None,
        }
    }

    /// Only a feria of the second rank or below has commemorations.
    open spec fn keeps_commemorations(self) -> bool {
        self.0 matches FeastRankOfInner::Feria { rank, .. } && rank >= 2
    }

    open spec fn keeps_automatic_commemorations(self) -> bool {
        self.0 matches FeastRankOfInner::Feria { rank, .. } && rank >= 2
    }

    open spec fn automatic_first() -> bool {
        true
    }

    open spec fn built(rank: Seq<char>, day_type: DayType, context: ContextView) -> Result<Self, RankError> {
        match FeastRankOfInner::built(rank, day_type, context) {
            Ok(r) => Ok(FeastRankOf(r)),
            Err(e) => Err(e),
        }
    }

    open spec fn ferial_or_sunday(self) -> bool {
        self.0 is Feria || self.0 is Sunday
    }

    /// A solemnity or a feast.
    open spec fn high_festival(self) -> bool {
        self.0 matches FeastRankOfInner::Feast { rank, .. } && 1 <= rank <= 2
    }

    open spec fn rank_text(self) -> Seq<char> {
        self.0.rank_text()
    }

    /// An optional memorial.
    open spec fn saturday_rank() -> Option<Self> {
        Some(
            FeastRankOf(
                FeastRankOfInner::Feast {
                    rank: 4,
                    flags: FeastFlags { of_the_lord: false, movable: false, proper: false },
                },
            ),
        )
    }

    /// A feria of the fourth rank takes the Saturday office as a commemoration.
    open spec fn saturday_admission(self) -> BVMOnSaturdayResult {
        if self.0 matches FeastRankOfInner::Feria { rank, .. } && rank == 4 {
            BVMOnSaturdayResult::Commemorated
        } else {
            BVMOnSaturdayResult::NotAdmitted
        }
    }

    proof fn lemma_saturday_rank(self) {
    }

    fn numeric_rank(&self) -> (out: u8) {
        self.0.get_numeric_rank()
    }

    fn is_automatic_commemoration(&self) -> (out: bool) {
        match self.0 {
            FeastRankOfInner::Feast { rank, .. } => rank == 4,
            _ => false,
        }
    }

    fn sorts_competitors() -> (out: bool) {
        true
    }

    fn compares_with_first() -> (out: bool) {
        false
    }

    fn occurrence_step(&self, other: &Self) -> (out: Option<FoldStep>) {
        match self.0.resolve_occurrence(&other.0, false) {
            Ok(result) => Some(
                match result {
                    OccurrenceResult::FirstWins => FoldStep::KeepFirst,
                    OccurrenceResult::SecondWins => FoldStep::TakeSecond,
                    OccurrenceResult::SecondWinsFirstTransferred => FoldStep::TransferFirst,
                    OccurrenceResult::FirstWinsSecondTransferred => FoldStep::TransferSecond,
                    OccurrenceResult::FirstWinsSecondCommemoration => FoldStep::CommemorateSecond,
                    OccurrenceResult::SecondWinsFirstCommemoration => FoldStep::CommemorateFirst,
                    OccurrenceResult::CommemorateBoth => FoldStep::CommemorateBoth,
                },
            ),
            Err(_) => None,
        }
    }

    fn admits_commemorations(&self) -> (out: bool) {
        match self.0 {
            FeastRankOfInner::Feria { rank, .. } => rank >= 2,
            _ => false,
        }
    }

    fn admits_automatic_commemorations(&self) -> (out: bool) {
        match self.0 {
            FeastRankOfInner::Feria { rank, .. } => rank >= 2,
            _ => false,
        }
    }

    fn lists_automatic_first() -> (out: bool) {
        true
    }

    fn new_with_context(rank: &str, day_type: &DayType, context: &LiturgicalContext) -> (out: Result<
        Self,
        RankError,
    >) {
        match FeastRankOfInner::new_with_context(rank, day_type, context) {
            Ok(r) => Ok(FeastRankOf(r)),
            Err(e) => Err(e),
        }
    }

    fn is_ferial_or_sunday_rank(&self) -> (out: bool) {
        match self.0 {
            FeastRankOfInner::Feria { .. } | FeastRankOfInner::Sunday { .. } => true,
            _ => false,
        }
    }

    fn is_high_festial(&self) -> (out: bool) {
        match self.0 {
            FeastRankOfInner::Feast { rank, .. } => 1 <= rank && rank <= 2,
            _ => false,
        }
    }

    fn get_rank_string(&self) -> (out: String) {
        self.0.get_rank_string()
    }

    fn get_bvm_on_saturday_rank() -> (out: Option<Self>) {
        Some(FeastRankOf(FeastRankOfInner::Feast { rank: 4, flags: FeastFlags::empty() }))
    }

    fn admits_bvm_on_saturday(&self) -> (out: BVMOnSaturdayResult) {
        match self.0 {
            FeastRankOfInner::Feria { rank, .. } => if rank == 4 {
                BVMOnSaturdayResult::Commemorated
            } else {
                BVMOnSaturdayResult::NotAdmitted
            },
            _ => BVMOnSaturdayResult::NotAdmitted,
        }
    }
}

impl FeastRankOf {
    /// Resolves the observances that fall on one day: who wins, who is commemorated, who
    /// is transferred.
    pub fn resolve_conflicts<T: Clone>(competitors: &[(Self, T)]) -> (out: Result<
        ResolveConflictsResult<Self, T>,
        ResolveError,
    >)
        ensures
            match resolution(crate::feast_rank::ranks_of(competitors@)) {
                Ok(v) => out matches Ok(r) && crate::feast_rank::names_places(competitors@, v, r),
                Err(e) => out matches Err(x) && x == e,
            },
    {
        crate::feast_rank::resolve_competitors(competitors)
    }
}

/// The ranks of a list of competitors, each as the calendar builder uses it.
pub open spec fn wrapped_ranks<T>(competitors: Seq<(FeastRankOfInner, T)>) -> Seq<FeastRankOf> {
    competitors.map_values(|p: (FeastRankOfInner, T)| FeastRankOf(p.0))
}

/// `out` names the competitors at the places that `v` holds.
pub open spec fn names_competitors<T: Clone>(
    competitors: Seq<(FeastRankOfInner, T)>,
    v: ResolvedView,
    out: ResolveConflictsResult<FeastRankOf, T>,
) -> bool {
    &&& out.winner_rank.0 == competitors[v.winner as int].0
    &&& cloned(competitors[v.winner as int].1, out.winner)
    &&& match v.transferred {
        Some(t) => out.transferred matches Some(p) && p.0.0 == competitors[t as int].0 && cloned(
            competitors[t as int].1,
            p.1,
        ),
        None => out.transferred is None,
    }
    &&& out.commemorations@.len() == v.commemorations.len()
    &&& forall|i: int|
        0 <= i < v.commemorations.len() ==> cloned(
            competitors[v.commemorations[i] as int].1,
            #[trigger] out.commemorations@[i],
        )
}

impl FeastRankOfInner {
    /// Resolves the observances that fall on one day. The competitors are ordered by
    /// numeric rank, optional memorials stand aside as commemorations, and every other
    /// competitor is compared with the one that holds the day so far. Only where a feria
    /// of the second rank or below wins do the commemorations stay.
    pub fn resolve_conflicts<T: Clone>(competitors: &[(Self, T)]) -> (out: Result<
        ResolveConflictsResult<FeastRankOf, T>,
        ResolveError,
    >)
        ensures
            match resolution(wrapped_ranks(competitors@)) {
                Ok(v) => out matches Ok(r) && names_competitors(competitors@, v, r),
                Err(e) => out matches Err(x) && x == e,
            },
    {
        let mut ranks: Vec<FeastRankOf> = Vec::new();
        let mut i: usize = 0;
        while i < competitors.len()
            invariant
                i <= competitors.len(),
                ranks@ == wrapped_ranks(competitors@.subrange(0, i as int)),
            decreases competitors.len() - i,
        {
            ranks.push(FeastRankOf(competitors[i].0));
            i = i + 1;
            assert(ranks@ =~= wrapped_ranks(competitors@.subrange(0, i as int)));
        }
        assert(competitors@.subrange(0, competitors@.len() as int) =~= competitors@);
        match resolve_places(&ranks) {
            Err(e) => Err(e),
            Ok(places) => {
                let (winner, transferred_name, commemorations) = clone_names(competitors, &places);
                let winner_rank = FeastRankOf(competitors[places.winner].0);
                let transferred = match places.transferred {
                    Some(t) => match transferred_name {
                        Some(name) => Some((FeastRankOf(competitors[t].0), name)),
                        None => None,
                    },
                    None => None,
                };
                Ok(ResolveConflictsResult { winner, winner_rank, transferred, commemorations })
            },
        }
    }

    /// Whether the two are of the same numeric rank, the table holds a rule for each
    /// order of the pair, and the two rules disagree, as they do for two Sundays.
    pub open spec fn order_decides(self, other: Self) -> bool {
        &&& self.numeric_rank() == other.numeric_rank()
        &&& self.table_rule(other) matches Some(r1)
        &&& other.table_rule(self) matches Some(r2)
        &&& r2 != r1.mirrored()
    }

    /// Whether the table orders the pair although kind and numeric rank are the same: two
    /// Sundays; two memorials; two solemnities of which one only is of the Lord or one
    /// only is movable; two feasts of which one only is of the Lord.
    pub open spec fn equals_decided(self, other: Self) -> bool {
        match (self, other) {
            (FeastRankOfInner::Sunday { .. }, FeastRankOfInner::Sunday { .. }) => true,
            (FeastRankOfInner::Feast { rank, flags: f1 }, FeastRankOfInner::Feast { flags: f2, .. }) =>
                rank == 3 || (rank == 1 && (f1.of_the_lord != f2.of_the_lord || f1.movable
                    != f2.movable)) || (rank == 2 && f1.of_the_lord != f2.of_the_lord),
            _ => false,
        }
    }

    /// The two orders of a pair mirror each other: who wins, who is commemorated and who
    /// is transferred are the same observances whichever is named first, and a pair that
    /// cannot be ordered one way cannot be ordered the other way. This holds of every pair
    /// but those of `order_decides`.
    pub proof fn lemma_occurrence_mirrors(self, other: Self)
        requires
            !self.order_decides(other),
        ensures
            other.occurrence(self, false) == mirrored_result(self.occurrence(other, false)),
    {
    }

    /// On a pair of `order_decides` each order follows its own rule, so the two orders do
    /// not mirror each other.
    pub proof fn lemma_order_decides(self, other: Self)
        requires
            self.order_decides(other),
        ensures
            other.occurrence(self, false) != mirrored_result(self.occurrence(other, false)),
    {
    }

    /// Two Sundays of the same numeric rank are a pair of `order_decides`: of two major
    /// Sundays the second named wins, of two others the first.
    pub proof fn lemma_sundays(r1: u8, r2: u8)
        requires
            (FeastRankOfInner::Sunday { rank: r1 }).numeric_rank() == (FeastRankOfInner::Sunday {
                rank: r2,
            }).numeric_rank(),
        ensures
            (FeastRankOfInner::Sunday { rank: r1 }).order_decides(FeastRankOfInner::Sunday { rank: r2 }),
            (FeastRankOfInner::Sunday { rank: r1 }).occurrence(FeastRankOfInner::Sunday { rank: r2 }, false)
                == Ok::<OccurrenceResult, OccurrenceError>(
                if r2 == 1 {
                    OccurrenceResult::SecondWins
                } else {
                    OccurrenceResult::FirstWins
                },
            ),
    {
    }

    /// Two observances of the same kind and numeric rank cannot be ordered, except the
    /// pairs of `equals_decided`, which the table orders.
    pub proof fn lemma_same_rank_is_error(self, other: Self)
        requires
            self.day_type() == other.day_type(),
            self.numeric_rank() == other.numeric_rank(),
        ensures
            self.occurrence(other, false) is Err <==> !self.equals_decided(other),
    {
    }
}

} // verus!
