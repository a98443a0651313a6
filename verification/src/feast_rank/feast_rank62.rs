//! The rank model of the 1962 calendar: four classes of feasts, three of ferias, Sundays,
//! vigils and octaves, and the table that orders any two of them.

use vstd::prelude::*;
use crate::day_type::DayType;
use vstd::pervasive::cloned;
use crate::feast_rank::{
    all_below, clone_names, resolution, resolve_places, BVMOnSaturdayResult, ContextView, FeastRank,
    FoldStep, LiturgicalContext, OccurrenceError, RankError, ResolveConflictsResult, ResolveError,
    ResolvedView,
};
use crate::text::{has_substring, uppercase_of, to_uppercase, str_eq, str_contains};

verus! {

/// Facts about a feria beside its class.
#[derive(Debug, Clone, Copy, PartialEq, Eq, Structural)]
pub struct FeriaFlags {
    pub of_lent: bool,
    pub ember_day: bool,
}

impl FeriaFlags {
    /// No fact set.
    pub fn empty() -> (out: Self)
        ensures
            out == (FeriaFlags { of_lent: false, ember_day: false }),
    {
        FeriaFlags { of_lent: false, ember_day: false }
    }
}

/// Facts about a feast beside its class.
#[derive(Debug, Clone, Copy, PartialEq, Eq, Structural)]
pub struct FeastFlags {
    pub of_our_lord: bool,
    pub immaculate_conception: bool,
    pub movable: bool,
    pub all_souls: bool,
}

impl FeastFlags {
    /// No fact set.
    pub fn empty() -> (out: Self)
        ensures
            out == (FeastFlags {
                of_our_lord: false,
                immaculate_conception: false,
                movable: false,
                all_souls: false,
            }),
    {
        FeastFlags {
            of_our_lord: false,
            immaculate_conception: false,
            movable: false,
            all_souls: false,
        }
    }
}

/// A rank of the 1962 calendar. The class is a number, 1 being the highest.
#[derive(Debug, Clone, Copy, PartialEq, Eq, Structural)]
pub enum FeastRank62Inner {
    /// A weekday, of class 1 to 3.
    Feria { rank: u8, flags: FeriaFlags },
    /// A feast, of class 1 to 3, or 4 for a commemoration.
    Feast { rank: u8, flags: FeastFlags },
    /// A vigil, of class 1 to 3.
    Vigil { rank: u8 },
    /// A Sunday, of class 1 to 3.
    Sunday { rank: u8 },
    /// A day within an octave, of class 1 to 3.
    Octave { rank: u8 },
}

/// How two observances of one day stand to each other.
#[derive(Debug, Clone, Copy, PartialEq, Eq, Structural)]
pub enum OccurrenceResult {
    FirstNothingOfSecond,
    SecondNothingOfFirst,
    FirstCommemorationOfSecondAtLaudsAndVespers,
    FirstCommemorationOfSecondAtLauds,
    SecondCommemorationOfFirstAtLaudsAndVespers,
    SecondCommemorationOfFirstAtLauds,
    FirstTransferOfSecond,
    SecondTransferOfFirst,
}

impl OccurrenceResult {
    /// The same outcome, told from the other observance's side.
    pub open spec fn mirrored(self) -> OccurrenceResult {
        match self {
            OccurrenceResult::FirstNothingOfSecond => OccurrenceResult::SecondNothingOfFirst,
            OccurrenceResult::SecondNothingOfFirst => OccurrenceResult::FirstNothingOfSecond,
            OccurrenceResult::FirstCommemorationOfSecondAtLaudsAndVespers =>
                OccurrenceResult::SecondCommemorationOfFirstAtLaudsAndVespers,
            OccurrenceResult::FirstCommemorationOfSecondAtLauds =>
                OccurrenceResult::SecondCommemorationOfFirstAtLauds,
            OccurrenceResult::SecondCommemorationOfFirstAtLaudsAndVespers =>
                OccurrenceResult::FirstCommemorationOfSecondAtLaudsAndVespers,
            OccurrenceResult::SecondCommemorationOfFirstAtLauds =>
                OccurrenceResult::FirstCommemorationOfSecondAtLauds,
            OccurrenceResult::FirstTransferOfSecond => OccurrenceResult::SecondTransferOfFirst,
            OccurrenceResult::SecondTransferOfFirst => OccurrenceResult::FirstTransferOfSecond,
        }
    }

    /// The same outcome, told from the other observance's side.
    pub fn reverse(&self) -> (out: OccurrenceResult)
        ensures
            out == self.mirrored(),
    {
        match self {
            OccurrenceResult::FirstNothingOfSecond => OccurrenceResult::SecondNothingOfFirst,
            OccurrenceResult::SecondNothingOfFirst => OccurrenceResult::FirstNothingOfSecond,
            OccurrenceResult::FirstCommemorationOfSecondAtLaudsAndVespers => {
                OccurrenceResult::SecondCommemorationOfFirstAtLaudsAndVespers
            },
            OccurrenceResult::FirstCommemorationOfSecondAtLauds => {
                OccurrenceResult::SecondCommemorationOfFirstAtLauds
            },
            OccurrenceResult::SecondCommemorationOfFirstAtLaudsAndVespers => {
                OccurrenceResult::FirstCommemorationOfSecondAtLaudsAndVespers
            },
            OccurrenceResult::SecondCommemorationOfFirstAtLauds => {
                OccurrenceResult::FirstCommemorationOfSecondAtLauds
            },
            OccurrenceResult::FirstTransferOfSecond => OccurrenceResult::SecondTransferOfFirst,
            OccurrenceResult::SecondTransferOfFirst => OccurrenceResult::FirstTransferOfSecond,
        }
    }

    /// What the outcome does to the running state of a conflict resolution.
    pub open spec fn step(self) -> FoldStep {
        match self {
            OccurrenceResult::FirstNothingOfSecond => FoldStep::KeepFirst,
            OccurrenceResult::SecondNothingOfFirst => FoldStep::TakeSecond,
            OccurrenceResult::FirstCommemorationOfSecondAtLaudsAndVespers => FoldStep::CommemorateSecond,
            OccurrenceResult::FirstCommemorationOfSecondAtLauds => FoldStep::CommemorateSecond,
            OccurrenceResult::SecondCommemorationOfFirstAtLaudsAndVespers => FoldStep::CommemorateFirst,
            OccurrenceResult::SecondCommemorationOfFirstAtLauds => FoldStep::CommemorateFirst,
            OccurrenceResult::FirstTransferOfSecond => FoldStep::TransferSecond,
            OccurrenceResult::SecondTransferOfFirst => FoldStep::TransferFirst,
        }
    }
}

/// A feast against a day within an octave: every pair has a rule.
pub open spec fn feast_vs_octave(r1: u8, r2: u8) -> OccurrenceResult {
    if r1 == 1 {
        OccurrenceResult::FirstNothingOfSecond
    } else if r1 == 2 && r2 == 1 {
        OccurrenceResult::SecondNothingOfFirst
    } else if r1 == 2 && r2 == 2 {
        OccurrenceResult::FirstCommemorationOfSecondAtLaudsAndVespers
    } else if r1 == 2 && r2 == 3 {
        OccurrenceResult::FirstNothingOfSecond
    } else if r1 == 3 && r2 == 1 {
        OccurrenceResult::SecondNothingOfFirst
    } else if r1 == 3 && r2 == 3 {
        OccurrenceResult::FirstCommemorationOfSecondAtLauds
    } else {
        OccurrenceResult::SecondCommemorationOfFirstAtLauds
    }
}

/// A feast against a feast. Two feasts of class 2 have a rule only where the first is movable.
pub open spec fn feast_vs_feast(r1: u8, movable1: bool, r2: u8) -> Option<OccurrenceResult> {
    if r1 == 1 {
        Some(OccurrenceResult::FirstNothingOfSecond)
    } else if r2 == 1 {
        Some(OccurrenceResult::SecondNothingOfFirst)
    } else if r1 == 2 && r2 == 3 {
        Some(OccurrenceResult::FirstCommemorationOfSecondAtLauds)
    } else if r1 == 3 && r2 == 2 {
        Some(OccurrenceResult::SecondCommemorationOfFirstAtLauds)
    } else if r2 == 4 {
        Some(OccurrenceResult::FirstCommemorationOfSecondAtLauds)
    } else if r1 == 4 {
        Some(OccurrenceResult::SecondCommemorationOfFirstAtLauds)
    } else if r1 == 2 && r2 == 2 && movable1 {
        Some(OccurrenceResult::FirstNothingOfSecond)
    } else {
        None
    }
}

/// A feast against a vigil.
pub open spec fn feast_vs_vigil(r1: u8, r2: u8) -> Option<OccurrenceResult> {
    if r1 == 1 && r2 == 1 {
        Some(OccurrenceResult::SecondTransferOfFirst)
    } else if r1 == 1 && r2 == 2 {
        Some(OccurrenceResult::FirstNothingOfSecond)
    } else if (r1 == 2 || r1 == 3) && r2 == 1 {
        Some(OccurrenceResult::SecondNothingOfFirst)
    } else if r1 == 2 && r2 == 2 {
        Some(OccurrenceResult::FirstCommemorationOfSecondAtLauds)
    } else if r1 == 3 && r2 == 2 {
        Some(OccurrenceResult::SecondCommemorationOfFirstAtLauds)
    } else {
        None
    }
}

/// A feast against a feria. Only a feast of class 3 against a feria of class 3 asks
/// whether the feria is of Lent.
pub open spec fn feast_vs_feria(r1: u8, r2: u8, of_lent: bool) -> Option<OccurrenceResult> {
    if r1 == 1 && r2 == 1 {
        Some(OccurrenceResult::SecondTransferOfFirst)
    } else if r1 == 1 && (r2 == 2 || r2 == 3) {
        Some(OccurrenceResult::FirstCommemorationOfSecondAtLaudsAndVespers)
    } else if (r1 == 2 || r1 == 3) && r2 == 1 {
        Some(OccurrenceResult::SecondNothingOfFirst)
    } else if r1 == 2 && r2 == 2 {
        Some(OccurrenceResult::FirstCommemorationOfSecondAtLauds)
    } else if r1 == 2 && r2 == 3 {
        Some(OccurrenceResult::FirstCommemorationOfSecondAtLaudsAndVespers)
    } else if r1 == 3 && r2 == 2 {
        Some(OccurrenceResult::SecondCommemorationOfFirstAtLauds)
    } else if r1 == 3 && r2 == 3 {
        if of_lent {
            Some(OccurrenceResult::SecondCommemorationOfFirstAtLauds)
        } else {
            Some(OccurrenceResult::FirstCommemorationOfSecondAtLaudsAndVespers)
        }
    } else {
        None
    }
}

/// A feast against a Sunday. The feast's flags are asked before its class.
pub open spec fn feast_vs_sunday(r1: u8, flags: FeastFlags, r2: u8) -> Option<OccurrenceResult> {
    if flags.of_our_lord && (r1 == 1 || r1 == 2) {
        Some(OccurrenceResult::FirstNothingOfSecond)
    } else if flags.immaculate_conception {
        Some(OccurrenceResult::FirstCommemorationOfSecondAtLauds)
    } else if flags.all_souls {
        Some(OccurrenceResult::SecondTransferOfFirst)
    } else if r1 == 1 && r2 == 1 {
        Some(OccurrenceResult::SecondTransferOfFirst)
    } else if r1 == 1 && r2 == 2 {
        Some(OccurrenceResult::FirstCommemorationOfSecondAtLaudsAndVespers)
    } else if r1 == 2 && r2 == 1 {
        Some(OccurrenceResult::SecondNothingOfFirst)
    } else if r1 == 2 && r2 == 2 {
        Some(OccurrenceResult::SecondCommemorationOfFirstAtLauds)
    } else if r1 == 3 && (r2 == 1 || r2 == 2) {
        Some(OccurrenceResult::SecondNothingOfFirst)
    } else {
        None
    }
}

/// A vigil against a day within an octave: every pair has a rule.
pub open spec fn vigil_vs_octave(r1: u8, r2: u8) -> OccurrenceResult {
    if r1 == 1 {
        OccurrenceResult::FirstNothingOfSecond
    } else if r1 == 2 && r2 == 3 {
        OccurrenceResult::FirstCommemorationOfSecondAtLauds
    } else {
        OccurrenceResult::SecondNothingOfFirst
    }
}

/// A vigil against a feast.
pub open spec fn vigil_vs_feast(r1: u8, r2: u8) -> Option<OccurrenceResult> {
    if r1 == 2 && r2 == 1 {
        Some(OccurrenceResult::SecondNothingOfFirst)
    } else if r1 == 2 && r2 == 2 {
        Some(OccurrenceResult::SecondCommemorationOfFirstAtLauds)
    } else if r1 == 2 && r2 == 3 {
        Some(OccurrenceResult::FirstCommemorationOfSecondAtLauds)
    } else {
        None
    }
}

/// A vigil against a feria.
pub open spec fn vigil_vs_feria(r1: u8) -> Option<OccurrenceResult> {
    if r1 == 1 || r1 == 2 {
        Some(OccurrenceResult::FirstNothingOfSecond)
    } else {
        None
    }
}

/// A vigil against a Sunday.
pub open spec fn vigil_vs_sunday(r1: u8, r2: u8) -> Option<OccurrenceResult> {
    if r1 == 1 {
        Some(OccurrenceResult::FirstNothingOfSecond)
    } else if (r1 == 2 || r1 == 3) && r2 == 2 {
        Some(OccurrenceResult::SecondNothingOfFirst)
    } else {
        None
    }
}

/// A day within an octave against a feria: every pair has a rule.
pub open spec fn octave_vs_feria(r1: u8, r2: u8) -> OccurrenceResult {
    if r1 == 3 && r2 == 1 {
        OccurrenceResult::SecondNothingOfFirst
    } else {
        OccurrenceResult::FirstNothingOfSecond
    }
}

/// A day within an octave against a Sunday: every pair has a rule.
pub open spec fn octave_vs_sunday(r1: u8, r2: u8) -> OccurrenceResult {
    if r1 == 1 && r2 != 1 {
        OccurrenceResult::FirstNothingOfSecond
    } else if r1 == 2 && r2 == 3 {
        OccurrenceResult::FirstNothingOfSecond
    } else {
        OccurrenceResult::SecondNothingOfFirst
    }
}

/// Two ferias: the lower class wins; of two of one class, an ember day wins over a feria
/// that is none.
pub open spec fn feria_vs_feria(r1: u8, f1: FeriaFlags, r2: u8, f2: FeriaFlags) -> Result<
    OccurrenceResult,
    OccurrenceError,
> {
    if r1 < r2 {
        Ok(OccurrenceResult::FirstNothingOfSecond)
    } else if r1 > r2 {
        Ok(OccurrenceResult::SecondNothingOfFirst)
    } else if f1.ember_day && !f2.ember_day {
        Ok(OccurrenceResult::FirstNothingOfSecond)
    } else if !f1.ember_day && f2.ember_day {
        Ok(OccurrenceResult::SecondNothingOfFirst)
    } else {
        Err(OccurrenceError::EqualFerias)
    }
}

/// Two days within octaves: the lower class wins, and equal classes cannot be ordered.
pub open spec fn octave_vs_octave(r1: u8, r2: u8) -> Result<OccurrenceResult, OccurrenceError> {
    if r1 < r2 {
        Ok(OccurrenceResult::FirstNothingOfSecond)
    } else if r1 > r2 {
        Ok(OccurrenceResult::SecondNothingOfFirst)
    } else {
        Err(OccurrenceError::EqualOctaves)
    }
}

/// The lower number wins, and equal numbers cannot be ordered.
pub open spec fn by_numeric_rank(r1: u8, r2: u8) -> Result<OccurrenceResult, OccurrenceError> {
    if r1 < r2 {
        Ok(OccurrenceResult::FirstNothingOfSecond)
    } else if r1 > r2 {
        Ok(OccurrenceResult::SecondNothingOfFirst)
    } else {
        Err(OccurrenceError::EqualRank)
    }
}

/// An outcome, or the error in its place, told from the other observance's side.
pub open spec fn mirrored_result(r: Result<OccurrenceResult, OccurrenceError>) -> Result<
    OccurrenceResult,
    OccurrenceError,
> {
    match r {
        Ok(o) => Ok(o.mirrored()),
        Err(e) => Err(e),
    }
}

impl FeastRank62Inner {
    /// The class as a number, 1 being the highest.
    pub open spec fn numeric_rank(self) -> u8 {
        match self {
            FeastRank62Inner::Feria { rank, .. } => rank,
            FeastRank62Inner::Feast { rank, .. } => rank,
            FeastRank62Inner::Vigil { rank } => rank,
            FeastRank62Inner::Sunday { rank } => rank,
            FeastRank62Inner::Octave { rank } => rank,
        }
    }

    /// The kind of day.
    pub open spec fn day_type(self) -> DayType {
        match self {
            FeastRank62Inner::Feria { .. } => DayType::Feria,
            FeastRank62Inner::Feast { .. } => DayType::Feast,
            FeastRank62Inner::Vigil { .. } => DayType::Vigil,
            FeastRank62Inner::Sunday { .. } => DayType::Sunday,
            FeastRank62Inner::Octave { .. } => DayType::Octave,
        }
    }

    /// The rule of the table for `self` before `other`, where the table has one for the
    /// pair in this order.
    pub open spec fn table_rule(self, other: Self) -> Option<Result<OccurrenceResult, OccurrenceError>> {
        match (self, other) {
            (FeastRank62Inner::Feria { rank: r1, flags: f1 }, FeastRank62Inner::Feria { rank: r2, flags: f2 }) =>
                Some(feria_vs_feria(r1, f1, r2, f2)),
            (FeastRank62Inner::Feast { rank: r1, .. }, FeastRank62Inner::Octave { rank: r2 }) =>
                Some(Ok(feast_vs_octave(r1, r2))),
            (FeastRank62Inner::Feast { rank: r1, flags }, FeastRank62Inner::Feast { rank: r2, .. }) =>
                match feast_vs_feast(r1, flags.movable, r2) {
                    Some(o) => Some(Ok(o)),
                    None => None,
                },
            (FeastRank62Inner::Feast { rank: r1, .. }, FeastRank62Inner::Vigil { rank: r2 }) =>
                match feast_vs_vigil(r1, r2) {
                    Some(o) => Some(Ok(o)),
                    None => None,
                },
            (FeastRank62Inner::Feast { rank: r1, .. }, FeastRank62Inner::Feria { rank: r2, flags: f2 }) =>
                match feast_vs_feria(r1, r2, f2.of_lent) {
                    Some(o) => Some(Ok(o)),
                    None => None,
                },
            (FeastRank62Inner::Feast { rank: r1, flags }, FeastRank62Inner::Sunday { rank: r2 }) =>
                match feast_vs_sunday(r1, flags, r2) {
                    Some(o) => Some(Ok(o)),
                    None => None,
                },
            (FeastRank62Inner::Vigil { rank: r1 }, FeastRank62Inner::Octave { rank: r2 }) =>
                Some(Ok(vigil_vs_octave(r1, r2))),
            (FeastRank62Inner::Vigil { rank: r1 }, FeastRank62Inner::Feast { rank: r2, .. }) =>
                match vigil_vs_feast(r1, r2) {
                    Some(o) => Some(Ok(o)),
                    None => None,
                },
            (FeastRank62Inner::Vigil { rank: r1 }, FeastRank62Inner::Feria { .. }) =>
                match vigil_vs_feria(r1) {
                    Some(o) => Some(Ok(o)),
                    None => None,
                },
            (FeastRank62Inner::Vigil { rank: r1 }, FeastRank62Inner::Sunday { rank: r2 }) =>
                match vigil_vs_sunday(r1, r2) {
                    Some(o) => Some(Ok(o)),
                    None => None,
                },
            (FeastRank62Inner::Octave { rank: r1 }, FeastRank62Inner::Feria { rank: r2, .. }) =>
                Some(Ok(octave_vs_feria(r1, r2))),
            (FeastRank62Inner::Octave { rank: r1 }, FeastRank62Inner::Sunday { rank: r2 }) =>
                Some(Ok(octave_vs_sunday(r1, r2))),
            (FeastRank62Inner::Octave { rank: r1 }, FeastRank62Inner::Octave { rank: r2 }) =>
                Some(octave_vs_octave(r1, r2)),
            _ => None,
        }
    }

    /// How `self` and `other` stand to each other on one day. The table is asked for the
    /// pair as given; with `try_swapped`, then for the pair the other way round, whose
    /// outcome is mirrored; last, the numeric ranks decide.
    pub open spec fn occurrence(self, other: Self, try_swapped: bool) -> Result<
        OccurrenceResult,
        OccurrenceError,
    > {
        match self.table_rule(other) {
            Some(r) => r,
            None => if try_swapped {
                match other.table_rule(self) {
                    Some(r) => mirrored_result(r),
                    None => mirrored_result(by_numeric_rank(other.numeric_rank(), self.numeric_rank())),
                }
            } else {
                by_numeric_rank(self.numeric_rank(), other.numeric_rank())
            },
        }
    }
}

impl FeastRank62Inner {
    /// The class as a number, 1 being the highest.
    pub fn get_numeric_rank(&self) -> (out: u8)
        ensures
            out == self.numeric_rank(),
    {
        match self {
            FeastRank62Inner::Feria { rank, .. } => *rank,
            FeastRank62Inner::Feast { rank, .. } => *rank,
            FeastRank62Inner::Sunday { rank } => *rank,
            FeastRank62Inner::Vigil { rank } => *rank,
            FeastRank62Inner::Octave { rank } => *rank,
        }
    }

    /// The kind of day.
    pub fn get_day_type(&self) -> (out: DayType)
        ensures
            out == self.day_type(),
    {
        match self {
            FeastRank62Inner::Feria { .. } => DayType::Feria,
            FeastRank62Inner::Feast { .. } => DayType::Feast,
            FeastRank62Inner::Sunday { .. } => DayType::Sunday,
            FeastRank62Inner::Vigil { .. } => DayType::Vigil,
            FeastRank62Inner::Octave { .. } => DayType::Octave,
        }
    }

    /// Whether this is a feast of Our Lord. No other kind of day is.
    pub fn is_of_our_lord(&self) -> (out: bool)
        ensures
            out == (self matches FeastRank62Inner::Feast { flags, .. } && flags.of_our_lord),
    {
        match self {
            FeastRank62Inner::Feast { flags, .. } => flags.of_our_lord,
            _ => false,
        }
    }

    /// How `self` and `other` stand to each other on one day.
    pub fn resolve_occurrence(&self, other: &Self, try_swapped: bool) -> (out: Result<
        OccurrenceResult,
        OccurrenceError,
    >)
        ensures
            out == self.occurrence(*other, try_swapped),
        decreases (if try_swapped { 1int } else { 0int }),
    {
        // both ferias
        if let FeastRank62Inner::Feria { rank: rank1, flags: flags1 } = self {
            if let FeastRank62Inner::Feria { rank: rank2, flags: flags2 } = other {
                if *rank1 == *rank2 {
                    let is_ember_day1 = flags1.ember_day;
                    let is_ember_day2 = flags2.ember_day;
                    if is_ember_day1 && !is_ember_day2 {
                        return Ok(OccurrenceResult::FirstNothingOfSecond);
                    } else if !is_ember_day1 && is_ember_day2 {
                        return Ok(OccurrenceResult::SecondNothingOfFirst);
                    } else {
                        return Err(OccurrenceError::EqualFerias);
                    }
                }
                if *rank1 < *rank2 {
                    return Ok(OccurrenceResult::FirstNothingOfSecond);
                } else {
                    return Ok(OccurrenceResult::SecondNothingOfFirst);
                }
            }
        }
        // self is a feast
        if let FeastRank62Inner::Feast { rank: rank1, flags: flags1 } = self {
            if let FeastRank62Inner::Octave { rank: rank2 } = other {
                match (*rank1, *rank2) {
                    (1, _) => return Ok(OccurrenceResult::FirstNothingOfSecond),
                    (2, 1) => return Ok(OccurrenceResult::SecondNothingOfFirst),
                    (2, 2) => {
                        return Ok(OccurrenceResult::FirstCommemorationOfSecondAtLaudsAndVespers)
                    },
                    (2, 3) => return Ok(OccurrenceResult::FirstNothingOfSecond),
                    (3, 1) => return Ok(OccurrenceResult::SecondNothingOfFirst),
                    (3, 2) => return Ok(OccurrenceResult::SecondCommemorationOfFirstAtLauds),
                    (3, 3) => return Ok(OccurrenceResult::FirstCommemorationOfSecondAtLauds),
                    _ => return Ok(OccurrenceResult::SecondCommemorationOfFirstAtLauds),
                }
            }
            if let FeastRank62Inner::Feast { rank: rank2, flags: _flags2 } = other {
                match (*rank1, *rank2) {
                    (1, _) => return Ok(OccurrenceResult::FirstNothingOfSecond),
                    (_, 1) => return Ok(OccurrenceResult::SecondNothingOfFirst),
                    (2, 3) => return Ok(OccurrenceResult::FirstCommemorationOfSecondAtLauds),
                    (3, 2) => return Ok(OccurrenceResult::SecondCommemorationOfFirstAtLauds),
                    (_, 4) => return Ok(OccurrenceResult::FirstCommemorationOfSecondAtLauds),
                    (4, _) => return Ok(OccurrenceResult::SecondCommemorationOfFirstAtLauds),
                    (2, 2) => {
                        if flags1.movable {
                            return Ok(OccurrenceResult::FirstNothingOfSecond);
                        }
                    },
                    _ => {},
                }
            }
            if let FeastRank62Inner::Vigil { rank: rank2 } = other {
                match (*rank1, *rank2) {
                    (1, 1) => return Ok(OccurrenceResult::SecondTransferOfFirst),
                    (1, 2) => return Ok(OccurrenceResult::FirstNothingOfSecond),
                    (2, 1) => return Ok(OccurrenceResult::SecondNothingOfFirst),
                    (2, 2) => return Ok(OccurrenceResult::FirstCommemorationOfSecondAtLauds),
                    (3, 1) => return Ok(OccurrenceResult::SecondNothingOfFirst),
                    (3, 2) => return Ok(OccurrenceResult::SecondCommemorationOfFirstAtLauds),
                    _ => {},
                }
            }
            if let FeastRank62Inner::Feria { rank: rank2, flags: flags2 } = other {
                let of_lent = flags2.of_lent;
                match (*rank1, *rank2, of_lent) {
                    (1, 1, _) => return Ok(OccurrenceResult::SecondTransferOfFirst),
                    (1, 2, _) => {
                        return Ok(OccurrenceResult::FirstCommemorationOfSecondAtLaudsAndVespers)
                    },
                    (1, 3, _) => {
                        return Ok(OccurrenceResult::FirstCommemorationOfSecondAtLaudsAndVespers)
                    },
                    (2, 1, _) => return Ok(OccurrenceResult::SecondNothingOfFirst),
                    (2, 2, _) => return Ok(OccurrenceResult::FirstCommemorationOfSecondAtLauds),
                    (2, 3, _) => {
                        return Ok(OccurrenceResult::FirstCommemorationOfSecondAtLaudsAndVespers)
                    },
                    (3, 1, _) => return Ok(OccurrenceResult::SecondNothingOfFirst),
                    (3, 2, _) => return Ok(OccurrenceResult::SecondCommemorationOfFirstAtLauds),
                    (3, 3, true) => return Ok(OccurrenceResult::SecondCommemorationOfFirstAtLauds),
                    (3, 3, false) => {
                        return Ok(OccurrenceResult::FirstCommemorationOfSecondAtLaudsAndVespers)
                    },
                    _ => {},
                }
            }
            if let FeastRank62Inner::Sunday { rank: rank2 } = other {
                // a feast of Our Lord of the first or second class comes before any Sunday
                if flags1.of_our_lord && (*rank1 == 1 || *rank1 == 2) {
                    return Ok(OccurrenceResult::FirstNothingOfSecond);
                }
                if flags1.immaculate_conception {
                    return Ok(OccurrenceResult::FirstCommemorationOfSecondAtLauds);
                }
                if flags1.all_souls {
                    return Ok(OccurrenceResult::SecondTransferOfFirst);
                }
                match (*rank1, *rank2) {
                    (1, 1) => return Ok(OccurrenceResult::SecondTransferOfFirst),
                    (1, 2) => {
                        return Ok(OccurrenceResult::FirstCommemorationOfSecondAtLaudsAndVespers)
                    },
                    (2, 1) => return Ok(OccurrenceResult::SecondNothingOfFirst),
                    (2, 2) => return Ok(OccurrenceResult::SecondCommemorationOfFirstAtLauds),
                    (3, 1) => return Ok(OccurrenceResult::SecondNothingOfFirst),
                    (3, 2) => return Ok(OccurrenceResult::SecondNothingOfFirst),
                    _ => {},
                }
            }
        }
        // self is a vigil
        if let FeastRank62Inner::Vigil { rank: rank1 } = self {
            if let FeastRank62Inner::Octave { rank: rank2 } = other {
                match (*rank1, *rank2) {
                    (1, _) => return Ok(OccurrenceResult::FirstNothingOfSecond),
                    (2, 1) => return Ok(OccurrenceResult::SecondNothingOfFirst),
                    (2, 2) => return Ok(OccurrenceResult::SecondNothingOfFirst),
                    (2, 3) => return Ok(OccurrenceResult::FirstCommemorationOfSecondAtLauds),
                    _ => return Ok(OccurrenceResult::SecondNothingOfFirst),
                }
            }
            if let FeastRank62Inner::Feast { rank: rank2, flags: _flags2 } = other {
                match (*rank1, *rank2) {
                    (2, 1) => return Ok(OccurrenceResult::SecondNothingOfFirst),
                    (2, 2) => return Ok(OccurrenceResult::SecondCommemorationOfFirstAtLauds),
                    (2, 3) => return Ok(OccurrenceResult::FirstCommemorationOfSecondAtLauds),
                    _ => {},
                }
            }
            if let FeastRank62Inner::Feria { rank: rank2, flags: _flags2 } = other {
                match (*rank1, *rank2) {
                    (1, _) => return Ok(OccurrenceResult::FirstNothingOfSecond),
                    (2, _) => return Ok(OccurrenceResult::FirstNothingOfSecond),
                    _ => {},
                }
            }
            if let FeastRank62Inner::Sunday { rank: rank2 } = other {
                match (*rank1, *rank2) {
                    (1, _) => return Ok(OccurrenceResult::FirstNothingOfSecond),
                    (2, 2) => return Ok(OccurrenceResult::SecondNothingOfFirst),
                    (3, 2) => return Ok(OccurrenceResult::SecondNothingOfFirst),
                    _ => {},
                }
            }
        }
        // self is a day within an octave
        if let FeastRank62Inner::Octave { rank: rank1 } = self {
            if let FeastRank62Inner::Feria { rank: rank2, flags: _flags2 } = other {
                match (*rank1, *rank2) {
                    (3, 1) => return Ok(OccurrenceResult::SecondNothingOfFirst),
                    _ => return Ok(OccurrenceResult::FirstNothingOfSecond),
                }
            }
            if let FeastRank62Inner::Sunday { rank: rank2 } = other {
                match (*rank1, *rank2) {
                    (1, 1) => return Ok(OccurrenceResult::SecondNothingOfFirst),
                    (1, _) => return Ok(OccurrenceResult::FirstNothingOfSecond),
                    (2, 3) => return Ok(OccurrenceResult::FirstNothingOfSecond),
                    _ => return Ok(OccurrenceResult::SecondNothingOfFirst),
                }
            }
            if let FeastRank62Inner::Octave { rank: rank2 } = other {
                if *rank1 < *rank2 {
                    return Ok(OccurrenceResult::FirstNothingOfSecond);
                } else if *rank1 > *rank2 {
                    return Ok(OccurrenceResult::SecondNothingOfFirst);
                } else {
                    return Err(OccurrenceError::EqualOctaves);
                }
            }
        }
        // the pair the other way round
        if try_swapped {
            return match other.resolve_occurrence(self, false) {
                Ok(r) => Ok(r.reverse()),
                Err(e) => Err(e),
            };
        }
        // the lower number wins
        let rank1 = self.get_numeric_rank();
        let rank2 = other.get_numeric_rank();
        if rank1 < rank2 {
            Ok(OccurrenceResult::FirstNothingOfSecond)
        } else if rank1 > rank2 {
            Ok(OccurrenceResult::SecondNothingOfFirst)
        } else {
            Err(OccurrenceError::EqualRank)
        }
    }
}

/// The class that an upper-case rank code stands for.
pub open spec fn rank_number(upper: Seq<char>) -> Option<u8> {
    if upper == "COMM."@ || upper == "COMMEMORATIO"@ {
        Some(4u8)
    } else if upper == "I"@ {
        Some(1u8)
    } else if upper == "II"@ {
        Some(2u8)
    } else if upper == "III"@ {
        Some(3u8)
    } else if upper == "IV"@ {
        Some(4u8)
    } else {
        None
    }
}

/// Whether a name is given and its upper-case form holds `what`.
pub open spec fn name_mentions(name: Option<Seq<char>>, what: Seq<char>) -> bool {
    name matches Some(n) && has_substring(uppercase_of(n), what)
}

/// The display name of a class that is no commemoration.
pub open spec fn class_text(rank: u8) -> Seq<char> {
    if rank == 1 {
        "I"@
    } else if rank == 2 {
        "II"@
    } else {
        "III"@
    }
}

/// The class that an upper-case rank code stands for.
pub fn rank_from_upper(upper: &str) -> (out: Option<u8>)
    ensures
        out == rank_number(upper@),
{
    if str_eq(upper, "COMM.") || str_eq(upper, "COMMEMORATIO") {
        Some(4)
    } else if str_eq(upper, "I") {
        Some(1)
    } else if str_eq(upper, "II") {
        Some(2)
    } else if str_eq(upper, "III") {
        Some(3)
    } else if str_eq(upper, "IV") {
        Some(4)
    } else {
        None
    }
}

/// Whether a name is given and holds `what`, the name being already in upper case.
fn upper_name_holds(upper_name: &Option<String>, what: &str) -> (out: bool)
    ensures
        out == (upper_name matches Some(n) && has_substring(n@, what@)),
{
    match upper_name {
        Some(n) => str_contains(n.as_str(), what),
        None => false,
    }
}

impl FeastRank62Inner {
    /// The rank of a day of kind `day_type` and class `numeric_rank` in the given context.
    pub open spec fn of_class(numeric_rank: u8, day_type: DayType, context: ContextView) -> Self {
        match day_type {
            DayType::Feria => FeastRank62Inner::Feria {
                rank: numeric_rank,
                flags: FeriaFlags { of_lent: context.of_lent, ember_day: false },
            },
            DayType::Feast => FeastRank62Inner::Feast {
                rank: numeric_rank,
                flags: FeastFlags {
                    of_our_lord: context.of_our_lord,
                    immaculate_conception: name_mentions(context.feast_name, "IMMACULATE CONCEPTION"@),
                    movable: context.is_movable,
                    all_souls: name_mentions(context.feast_name, "ALL SOULS"@),
                },
            },
            DayType::Sunday => FeastRank62Inner::Sunday { rank: numeric_rank },
            DayType::Vigil => FeastRank62Inner::Vigil { rank: numeric_rank },
            DayType::Octave => FeastRank62Inner::Octave { rank: numeric_rank },
        }
    }

    /// The rank of a day of kind `day_type` with the rank code `rank`, or the error where
    /// the code is unknown. Case does not matter in the code.
    pub open spec fn built(rank: Seq<char>, day_type: DayType, context: ContextView) -> Result<
        Self,
        RankError,
    > {
        match rank_number(uppercase_of(rank)) {
            Some(n) => Ok(Self::of_class(n, day_type, context)),
            None => Err(RankError::UnknownRank),
        }
    }

    /// The rank's display name: the class in Roman numerals, `Comm.` for a commemoration.
    pub open spec fn rank_text(self) -> Seq<char> {
        match self {
            FeastRank62Inner::Feast { rank, .. } => if rank == 4 {
                "Comm."@
            } else {
                class_text(rank)
            },
            _ => class_text(self.numeric_rank()),
        }
    }

    /// Whether a day won by this rank keeps the commemorations of fourth-class feasts.
    /// A movable feast of the first or second class, a Sunday, a feria and a day within an
    /// octave of the first class keep none.
    pub open spec fn keeps_fourth_class(self) -> bool {
        match self {
            FeastRank62Inner::Feast { rank, flags } => !(rank < 3 && flags.movable),
            FeastRank62Inner::Sunday { .. } => false,
            FeastRank62Inner::Feria { rank, .. } => rank != 1,
            FeastRank62Inner::Octave { rank } => rank != 1,
            FeastRank62Inner::Vigil { .. } => true,
        }
    }

    /// The class that a rank code stands for. Case does not matter in the code.
    pub fn parse_rank_string(rank: &str) -> (out: Result<u8, RankError>)
        ensures
            out == match rank_number(uppercase_of(rank@)) {
                Some(n) => Ok::<u8, RankError>(n),
                None => Err(RankError::UnknownRank),
            },
    {
        let rank_upper = to_uppercase(rank);
        match rank_from_upper(rank_upper.as_str()) {
            Some(n) => Ok(n),
            None => Err(RankError::UnknownRank),
        }
    }

    /// The rank of a day of kind `day_type` with the rank code `rank`.
    pub fn new_with_context(rank: &str, day_type: &DayType, context: &LiturgicalContext) -> (out: Result<
        Self,
        RankError,
    >)
        ensures
            out == Self::built(rank@, *day_type, context@),
    {
        let numeric_rank = match Self::parse_rank_string(rank) {
            Ok(n) => n,
            Err(e) => {
                return Err(e);
            },
        };
        Ok(
            match day_type {
                DayType::Feria => {
                    let mut flags = FeriaFlags::empty();
                    if context.of_lent {
                        flags.of_lent = true;
                    }
                    FeastRank62Inner::Feria { rank: numeric_rank, flags }
                },
                DayType::Feast => {
                    let upper_name = match &context.feast_name {
                        Some(name) => Some(to_uppercase(name.as_str())),
                        None => None,
                    };
                    let is_immaculate_conception = upper_name_holds(&upper_name, "IMMACULATE CONCEPTION");
                    let is_all_souls = upper_name_holds(&upper_name, "ALL SOULS");
                    let mut flags = FeastFlags::empty();
                    if context.of_our_lord {
                        flags.of_our_lord = true;
                    }
                    if is_immaculate_conception {
                        flags.immaculate_conception = true;
                    }
                    if context.is_movable {
                        flags.movable = true;
                    }
                    if is_all_souls {
                        flags.all_souls = true;
                    }
                    FeastRank62Inner::Feast { rank: numeric_rank, flags }
                },
                DayType::Sunday => FeastRank62Inner::Sunday { rank: numeric_rank },
                DayType::Vigil => FeastRank62Inner::Vigil { rank: numeric_rank },
                DayType::Octave => FeastRank62Inner::Octave { rank: numeric_rank },
            },
        )
    }

    /// The rank's display name.
    pub fn get_rank_string(&self) -> (out: String)
        ensures
            out@ == self.rank_text(),
    {
        match self {
            FeastRank62Inner::Feria { rank, .. }
            | FeastRank62Inner::Sunday { rank }
            | FeastRank62Inner::Vigil { rank }
            | FeastRank62Inner::Octave { rank } => {
                if *rank == 1 {
                    String::from_str("I")
                } else if *rank == 2 {
                    String::from_str("II")
                } else {
                    String::from_str("III")
                }
            },
            FeastRank62Inner::Feast { rank, .. } => {
                if *rank == 4 {
                    String::from_str("Comm.")
                } else if *rank == 1 {
                    String::from_str("I")
                } else if *rank == 2 {
                    String::from_str("II")
                } else {
                    String::from_str("III")
                }
            },
        }
    }
}

/// A rank of the 1962 calendar, as the calendar builder uses it.
#[derive(Debug, Clone, Copy, PartialEq, Eq, Structural)]
pub struct FeastRank62(pub FeastRank62Inner);

impl FeastRank for FeastRank62 {
    /// Every rank is well formed: a class that has no name of its own is shown as the
    /// third.
    open spec fn well_formed(self) -> bool {
        true
    }

    open spec fn numeric(self) -> u8 {
        self.0.numeric_rank()
    }

    /// A feast of the fourth class is always a commemoration.
    open spec fn automatic_commemoration(self) -> bool {
        self.0 matches FeastRank62Inner::Feast { rank, .. } && rank == 4
    }

    open spec fn sorts_by_rank() -> bool {
        true
    }

    open spec fn fixed_pivot() -> bool {
        true
    }

    open spec fn step(first: Self, second: Self) -> Option<FoldStep> {
        match first.0.occurrence(second.0, true) {
            Ok(o) => Some(o.step()),
            Err(_) => None,
        }
    }

    open spec fn keeps_commemorations(self) -> bool {
        true
    }

    open spec fn keeps_automatic_commemorations(self) -> bool {
        self.0.keeps_fourth_class()
    }

    open spec fn automatic_first() -> bool {
        false
    }

    open spec fn built(rank: Seq<char>, day_type: DayType, context: ContextView) -> Result<Self, RankError> {
        match FeastRank62Inner::built(rank, day_type, context) {
            Ok(r) => Ok(FeastRank62(r)),
            Err(e) => Err(e),
        }
    }

    open spec fn ferial_or_sunday(self) -> bool {
        self.0 is Feria || self.0 is Sunday
    }

    /// A feast of the first or second class.
    open spec fn high_festival(self) -> bool {
        self.0 matches FeastRank62Inner::Feast { rank, .. } && (rank == 1 || rank == 2)
    }

    open spec fn rank_text(self) -> Seq<char> {
        self.0.rank_text()
    }

    /// A feria of the fourth class.
    open spec fn saturday_rank() -> Option<Self> {
        Some(
            FeastRank62(
                FeastRank62Inner::Feria { rank: 4, flags: FeriaFlags { of_lent: false, ember_day: false } },
            ),
        )
    }

    /// Only a feria of the fourth class gives the day to the Saturday office.
    open spec fn saturday_admission(self) -> BVMOnSaturdayResult {
        if self.0 matches FeastRank62Inner::Feria { rank, .. } && rank == 4 {
            BVMOnSaturdayResult::Admitted
        } else {
            BVMOnSaturdayResult::NotAdmitted
        }
    }

    proof fn lemma_saturday_rank(self) {
    }

    fn numeric_rank(&self) -> (out: u8) {
        self.0.get_numeric_rank()
    }

    fn is_automatic_commemoration(&self) -> (out: bool) {
        match self.0 {
            FeastRank62Inner::Feast { rank, .. } => rank == 4,
            _ => false,
        }
    }

    fn sorts_competitors() -> (out: bool) {
        true
    }

    fn compares_with_first() -> (out: bool) {
        true
    }

    fn occurrence_step(&self, other: &Self) -> (out: Option<FoldStep>) {
        match self.0.resolve_occurrence(&other.0, true) {
            Ok(occurrence) => Some(
                match occurrence {
                    OccurrenceResult::FirstNothingOfSecond => FoldStep::KeepFirst,
                    OccurrenceResult::SecondNothingOfFirst => FoldStep::TakeSecond,
                    OccurrenceResult::FirstCommemorationOfSecondAtLaudsAndVespers
                    | OccurrenceResult::FirstCommemorationOfSecondAtLauds => FoldStep::CommemorateSecond,
                    OccurrenceResult::SecondCommemorationOfFirstAtLaudsAndVespers
                    | OccurrenceResult::SecondCommemorationOfFirstAtLauds => FoldStep::CommemorateFirst,
                    OccurrenceResult::FirstTransferOfSecond => FoldStep::TransferSecond,
                    OccurrenceResult::SecondTransferOfFirst => FoldStep::TransferFirst,
                },
            ),
            Err(_) => None,
        }
    }

    fn admits_commemorations(&self) -> (out: bool) {
        true
    }

    fn admits_automatic_commemorations(&self) -> (out: bool) {
        match self.0 {
            FeastRank62Inner::Feast { rank, flags } => !(rank < 3 && flags.movable),
            FeastRank62Inner::Sunday { .. } => false,
            FeastRank62Inner::Feria { rank, .. } => rank != 1,
            FeastRank62Inner::Octave { rank } => rank != 1,
            FeastRank62Inner::Vigil { .. } => true,
        }
    }

    fn lists_automatic_first() -> (out: bool) {
        false
    }

    fn new_with_context(rank: &str, day_type: &DayType, context: &LiturgicalContext) -> (out: Result<
        Self,
        RankError,
    >) {
        match FeastRank62Inner::new_with_context(rank, day_type, context) {
            Ok(r) => Ok(FeastRank62(r)),
            Err(e) => Err(e),
        }
    }

    fn is_ferial_or_sunday_rank(&self) -> (out: bool) {
        match self.0 {
            FeastRank62Inner::Feria { .. } | FeastRank62Inner::Sunday { .. } => true,
            _ => false,
        }
    }

    fn is_high_festial(&self) -> (out: bool) {
        match self.0 {
            FeastRank62Inner::Feast { rank, .. } => rank == 1 || rank == 2,
            _ => false,
        }
    }

    fn get_rank_string(&self) -> (out: String) {
        self.0.get_rank_string()
    }

    fn get_bvm_on_saturday_rank() -> (out: Option<Self>) {
        Some(FeastRank62(FeastRank62Inner::Feria { rank: 4, flags: FeriaFlags::empty() }))
    }

    fn admits_bvm_on_saturday(&self) -> (out: BVMOnSaturdayResult) {
        match self.0 {
            FeastRank62Inner::Feria { rank, .. } => if rank == 4 {
                BVMOnSaturdayResult::Admitted
            } else {
                BVMOnSaturdayResult::NotAdmitted
            },
            _ => BVMOnSaturdayResult::NotAdmitted,
        }
    }
}

impl FeastRank62 {
    /// Resolves the observances that fall on one day: who wins, who is commemorated, who
    /// is transferred.
    pub fn resolve_conflicts<T: Clone>(competitors: &[(Self, T)]) -> (out: Result<
        ResolveConflictsResult<Self, T>,
        ResolveError,
    >)
        ensures
            match resolution(crate::feast_rank::ranks_of(competitors@)) {
                Ok(v) => out matches Ok(r) && crate::feast_rank::names_places(competitors@, v, r),
                Err(e) => out matches Err(x) && x == e,
            },
    {
        crate::feast_rank::resolve_competitors(competitors)
    }
}

/// The ranks of a list of competitors, each as the calendar builder uses it.
pub open spec fn wrapped_ranks<T>(competitors: Seq<(FeastRank62Inner, T)>) -> Seq<FeastRank62> {
    competitors.map_values(|p: (FeastRank62Inner, T)| FeastRank62(p.0))
}

/// `out` names the competitors at the places that `v` holds.
pub open spec fn names_competitors<T: Clone>(
    competitors: Seq<(FeastRank62Inner, T)>,
    v: ResolvedView,
    out: ResolveConflictsResult<FeastRank62, T>,
) -> bool {
    &&& out.winner_rank.0 == competitors[v.winner as int].0
    &&& cloned(competitors[v.winner as int].1, out.winner)
    &&& match v.transferred {
        Some(t) => out.transferred matches Some(p) && p.0.0 == competitors[t as int].0 && cloned(
            competitors[t as int].1,
            p.1,
        ),
        None => out.transferred is None,
    }
    &&& out.commemorations@.len() == v.commemorations.len()
    &&& forall|i: int|
        0 <= i < v.commemorations.len() ==> cloned(
            competitors[v.commemorations[i] as int].1,
            #[trigger] out.commemorations@[i],
        )
}

impl FeastRank62Inner {
    /// Resolves the observances that fall on one day. The competitors are ordered by
    /// class, feasts of the fourth class stand aside as commemorations, and every other
    /// competitor is compared with the first of them.
    pub fn resolve_conflicts<T: Clone>(competitors: &[(Self, T)]) -> (out: Result<
        ResolveConflictsResult<FeastRank62, T>,
        ResolveError,
    >)
        ensures
            match resolution(wrapped_ranks(competitors@)) {
                Ok(v) => out matches Ok(r) && names_competitors(competitors@, v, r),
                Err(e) => out matches Err(x) && x == e,
            },
    {
        let mut ranks: Vec<FeastRank62> = Vec::new();
        let mut i: usize = 0;
        while i < competitors.len()
            invariant
                i <= competitors.len(),
                ranks@ == wrapped_ranks(competitors@.subrange(0, i as int)),
            decreases competitors.len() - i,
        {
            ranks.push(FeastRank62(competitors[i].0));
            i = i + 1;
            assert(ranks@ =~= wrapped_ranks(competitors@.subrange(0, i as int)));
        }
        assert(competitors@.subrange(0, competitors@.len() as int) =~= competitors@);
        match resolve_places(&ranks) {
            Err(e) => Err(e),
            Ok(places) => {
                let (winner, transferred_name, commemorations) = clone_names(competitors, &places);
                let winner_rank = FeastRank62(competitors[places.winner].0);
                let transferred = match places.transferred {
                    Some(t) => match transferred_name {
                        Some(name) => Some((FeastRank62(competitors[t].0), name)),
                        None => None,
                    },
                    None => None,
                };
                Ok(ResolveConflictsResult { winner, winner_rank, transferred, commemorations })
            },
        }
    }

    /// Whether both orders of the pair have a rule of their own and the two rules
    /// disagree: two feasts of the first class, two of the fourth, or two movable feasts
    /// of the second.
    pub open spec fn order_decides(self, other: Self) -> bool {
        match (self, other) {
            (FeastRank62Inner::Feast { rank: r1, flags: f1 }, FeastRank62Inner::Feast { rank: r2, flags: f2 }) =>
                r1 == r2 && (r1 == 1 || r1 == 4 || (r1 == 2 && f1.movable && f2.movable)),
            _ => false,
        }
    }

    /// Whether the table orders the pair although kind and class are the same: a feria
    /// that is an ember day against one that is none, two feasts of the first or of the
    /// fourth class, two feasts of the second class of which one is movable.
    pub open spec fn equals_decided(self, other: Self) -> bool {
        match (self, other) {
            (FeastRank62Inner::Feria { flags: f1, .. }, FeastRank62Inner::Feria { flags: f2, .. }) =>
                f1.ember_day != f2.ember_day,
            (FeastRank62Inner::Feast { rank, flags: f1 }, FeastRank62Inner::Feast { flags: f2, .. }) =>
                rank == 1 || rank == 4 || (rank == 2 && (f1.movable || f2.movable)),
            _ => false,
        }
    }

    /// The two orders of a pair mirror each other: who wins, who is commemorated and who
    /// is transferred are the same observances whichever is named first, and a pair that
    /// cannot be ordered one way cannot be ordered the other way. This holds of every pair
    /// but those of `order_decides`.
    pub proof fn lemma_occurrence_mirrors(self, other: Self)
        requires
            !self.order_decides(other),
        ensures
            other.occurrence(self, true) == mirrored_result(self.occurrence(other, true)),
    {
    }

    /// On a pair of `order_decides` the first named wins both ways, so the two orders do
    /// not mirror each other.
    pub proof fn lemma_order_decides(self, other: Self)
        requires
            self.order_decides(other),
        ensures
            self.occurrence(other, true) is Ok,
            other.occurrence(self, true) == self.occurrence(other, true),
            other.occurrence(self, true) != mirrored_result(self.occurrence(other, true)),
    {
    }

    /// Two observances of the same kind and class cannot be ordered, except the pairs of
    /// `equals_decided`, which the table orders.
    pub proof fn lemma_same_rank_is_error(self, other: Self)
        requires
            self.day_type() == other.day_type(),
            self.numeric_rank() == other.numeric_rank(),
        ensures
            self.occurrence(other, true) is Err <==> !self.equals_decided(other),
    {
    }
}

} // verus!
