//! The rank model of the 1954 calendar: seven classes of feasts, three of ferias, greater
//! and lesser Sundays, major and minor vigils, five kinds of octaves, and the table that
//! orders any two of them.

use vstd::prelude::*;
use vstd::pervasive::cloned;
use crate::day_type::DayType;
use crate::feast_rank::feast_rank62::{FeastFlags, FeriaFlags};
use crate::feast_rank::{
    clone_names, resolution, resolve_places, BVMOnSaturdayResult, ContextView, FeastRank,
    FoldStep, LiturgicalContext, OccurrenceError, RankError, ResolveConflictsResult, ResolveError,
    ResolvedView,
};
use crate::text::{concat2, has_substring, str_contains, str_eq};

verus! {

/// The kind of an octave.
#[derive(Debug, Clone, Copy, PartialEq, Eq, Structural)]
pub enum OctaveType {
    Privileged1,
    Privileged2,
    Privileged3,
    Common,
    Simple,
}

/// The class of a feast, from the highest to the lowest.
#[derive(Debug, Clone, Copy, PartialEq, Eq, Structural)]
pub enum FeastClass {
    /// Double of the first class.
    FirstClassDouble,
    /// Double of the second class.
    SecondClassDouble,
    /// Greater double.
    MajorDouble,
    /// Double.
    Double,
    /// Semidouble.
    Semidouble,
    /// Simple.
    Simple,
    /// Commemoration: kept beside the day's office, never the office of the day.
    Commemoration,
}

impl FeastClass {
    /// The class as a number, 1 for a double of the first class up to 7 for a
    /// commemoration.
    pub open spec fn number(self) -> u8 {
        match self {
            FeastClass::FirstClassDouble => 1,
            FeastClass::SecondClassDouble => 2,
            FeastClass::MajorDouble => 3,
            FeastClass::Double => 4,
            FeastClass::Semidouble => 5,
            FeastClass::Simple => 6,
            FeastClass::Commemoration => 7,
        }
    }

    /// The class as a number.
    pub fn to_number(&self) -> (out: u8)
        ensures
            out == self.number(),
    {
        match self {
            FeastClass::FirstClassDouble => 1,
            FeastClass::SecondClassDouble => 2,
            FeastClass::MajorDouble => 3,
            FeastClass::Double => 4,
            FeastClass::Semidouble => 5,
            FeastClass::Simple => 6,
            FeastClass::Commemoration => 7,
        }
    }

    /// The class's display name.
    pub open spec fn text(self) -> Seq<char> {
        match self {
            FeastClass::FirstClassDouble => "First Class Double"@,
            FeastClass::SecondClassDouble => "Second Class Double"@,
            FeastClass::MajorDouble => "Major Double"@,
            FeastClass::Double => "Double"@,
            FeastClass::Semidouble => "Semidouble"@,
            FeastClass::Simple => "Simple"@,
            FeastClass::Commemoration => "Commemoration"@,
        }
    }
}

impl OctaveType {
    /// The kind as a number, 1 for the highest.
    pub open spec fn number(self) -> u8 {
        match self {
            OctaveType::Privileged1 => 1,
            OctaveType::Privileged2 => 2,
            OctaveType::Privileged3 => 3,
            OctaveType::Common => 4,
            OctaveType::Simple => 5,
        }
    }
}

/// A rank of the 1954 calendar.
#[derive(Debug, Clone, Copy, PartialEq, Eq, Structural)]
pub enum FeastRank54Inner {
    /// A weekday: 1 greater privileged, 2 greater non-privileged, 3 ordinary.
    Feria { rank: u8, flags: FeriaFlags },
    /// A feast of one of the seven classes.
    Feast { rank: FeastClass, flags: FeastFlags },
    /// A vigil, major or minor.
    Vigil { major: bool },
    /// A Sunday: 1 and 2 the greater Sundays of the first and second class, 3 a lesser one.
    Sunday { rank: u8 },
    /// A day within an octave, or its eighth day.
    Octave { rank: OctaveType, is_octave_day: bool },
}

/// How two observances of one day stand to each other.
#[derive(Debug, Clone, Copy, PartialEq, Eq, Structural)]
pub enum OccurrenceResult {
    FirstNothingOfSecond,
    SecondNothingOfFirst,
    FirstCommemorationOfSecond,
    FirstCommemorationOfSecondAtLauds,
    SecondCommemorationOfFirst,
    SecondCommemorationOfFirstAtLauds,
    FirstTransferOfSecond,
    SecondTransferOfFirst,
}

impl OccurrenceResult {
    /// The same outcome, told from the other observance's side.
    pub open spec fn mirrored(self) -> OccurrenceResult {
        match self {
            OccurrenceResult::FirstNothingOfSecond => OccurrenceResult::SecondNothingOfFirst,
            OccurrenceResult::SecondNothingOfFirst => OccurrenceResult::FirstNothingOfSecond,
            OccurrenceResult::FirstCommemorationOfSecond => OccurrenceResult::SecondCommemorationOfFirst,
            OccurrenceResult::FirstCommemorationOfSecondAtLauds =>
                OccurrenceResult::SecondCommemorationOfFirstAtLauds,
            OccurrenceResult::SecondCommemorationOfFirst => OccurrenceResult::FirstCommemorationOfSecond,
            OccurrenceResult::SecondCommemorationOfFirstAtLauds =>
                OccurrenceResult::FirstCommemorationOfSecondAtLauds,
            OccurrenceResult::FirstTransferOfSecond => OccurrenceResult::SecondTransferOfFirst,
            OccurrenceResult::SecondTransferOfFirst => OccurrenceResult::FirstTransferOfSecond,
        }
    }

    /// The same outcome, told from the other observance's side.
    pub fn reverse(self) -> (out: OccurrenceResult)
        ensures
            out == self.mirrored(),
    {
        match self {
            OccurrenceResult::FirstNothingOfSecond => OccurrenceResult::SecondNothingOfFirst,
            OccurrenceResult::SecondNothingOfFirst => OccurrenceResult::FirstNothingOfSecond,
            OccurrenceResult::FirstCommemorationOfSecond => OccurrenceResult::SecondCommemorationOfFirst,
            OccurrenceResult::FirstCommemorationOfSecondAtLauds => {
                OccurrenceResult::SecondCommemorationOfFirstAtLauds
            },
            OccurrenceResult::SecondCommemorationOfFirst => OccurrenceResult::FirstCommemorationOfSecond,
            OccurrenceResult::SecondCommemorationOfFirstAtLauds => {
                OccurrenceResult::FirstCommemorationOfSecondAtLauds
            },
            OccurrenceResult::FirstTransferOfSecond => OccurrenceResult::SecondTransferOfFirst,
            OccurrenceResult::SecondTransferOfFirst => OccurrenceResult::FirstTransferOfSecond,
        }
    }

    /// What the outcome does to the running state of a conflict resolution.
    pub open spec fn step(self) -> FoldStep {
        match self {
            OccurrenceResult::FirstNothingOfSecond => FoldStep::KeepFirst,
            OccurrenceResult::SecondNothingOfFirst => FoldStep::TakeSecond,
            OccurrenceResult::FirstCommemorationOfSecond => FoldStep::CommemorateSecond,
            OccurrenceResult::FirstCommemorationOfSecondAtLauds => FoldStep::CommemorateSecond,
            OccurrenceResult::SecondCommemorationOfFirst => FoldStep::CommemorateFirst,
            OccurrenceResult::SecondCommemorationOfFirstAtLauds => FoldStep::CommemorateFirst,
            OccurrenceResult::FirstTransferOfSecond => FoldStep::TransferSecond,
            OccurrenceResult::SecondTransferOfFirst => FoldStep::TransferFirst,
        }
    }
}

/// A feast against a feria. A double or higher is commemorated on a greater privileged
/// feria; a lesser feast leaves no trace there.
pub open spec fn feast_vs_feria(c1: FeastClass, r2: u8) -> Option<OccurrenceResult> {
    if r2 == 1 {
        if c1.number() <= 4 {
            Some(OccurrenceResult::SecondCommemorationOfFirst)
        } else {
            Some(OccurrenceResult::SecondNothingOfFirst)
        }
    } else if r2 == 2 {
        if c1 == FeastClass::Simple {
            Some(OccurrenceResult::SecondNothingOfFirst)
        } else {
            Some(OccurrenceResult::FirstCommemorationOfSecond)
        }
    } else if r2 == 3 {
        Some(OccurrenceResult::FirstNothingOfSecond)
    } else {
        None
    }
}

/// A feast against a day within an octave: every pair has a rule.
pub open spec fn feast_vs_octave(c1: FeastClass, of_our_lord: bool, t2: OctaveType, octave_day: bool) -> OccurrenceResult {
    match t2 {
        OctaveType::Privileged1 => if c1 == FeastClass::FirstClassDouble {
            OccurrenceResult::FirstNothingOfSecond
        } else if c1 == FeastClass::SecondClassDouble {
            OccurrenceResult::SecondTransferOfFirst
        } else if octave_day {
            OccurrenceResult::SecondCommemorationOfFirst
        } else {
            OccurrenceResult::SecondNothingOfFirst
        },
        OctaveType::Privileged2 => if c1 == FeastClass::FirstClassDouble {
            if octave_day {
                OccurrenceResult::SecondTransferOfFirst
            } else {
                OccurrenceResult::SecondCommemorationOfFirst
            }
        } else if c1 == FeastClass::MajorDouble && of_our_lord {
            OccurrenceResult::FirstCommemorationOfSecond
        } else {
            OccurrenceResult::FirstNothingOfSecond
        },
        OctaveType::Privileged3 | OctaveType::Common => if c1.number() <= 5 && !octave_day {
            OccurrenceResult::FirstCommemorationOfSecond
        } else if c1 == FeastClass::Simple {
            OccurrenceResult::SecondCommemorationOfFirst
        } else {
            OccurrenceResult::FirstNothingOfSecond
        },
        OctaveType::Simple => if octave_day {
            OccurrenceResult::SecondCommemorationOfFirst
        } else {
            OccurrenceResult::FirstNothingOfSecond
        },
    }
}

/// A feast against a feast.
pub open spec fn feast_vs_feast(c1: FeastClass, c2: FeastClass, second_of_our_lord: bool) -> Option<
    OccurrenceResult,
> {
    if c1 == FeastClass::SecondClassDouble && c2 == FeastClass::Double {
        Some(OccurrenceResult::FirstCommemorationOfSecond)
    } else if c1 == FeastClass::Simple {
        if c2 == FeastClass::FirstClassDouble {
            Some(OccurrenceResult::SecondNothingOfFirst)
        } else {
            Some(OccurrenceResult::SecondCommemorationOfFirst)
        }
    } else if c1 == FeastClass::Semidouble {
        Some(OccurrenceResult::SecondCommemorationOfFirst)
    } else if c1 == FeastClass::FirstClassDouble {
        if c2 == FeastClass::FirstClassDouble || c2 == FeastClass::SecondClassDouble {
            Some(OccurrenceResult::SecondTransferOfFirst)
        } else if c2 == FeastClass::MajorDouble || c2 == FeastClass::Double {
            Some(OccurrenceResult::FirstCommemorationOfSecond)
        } else {
            Some(OccurrenceResult::FirstNothingOfSecond)
        }
    } else if c1 == FeastClass::MajorDouble && c2 == FeastClass::Double {
        Some(OccurrenceResult::FirstCommemorationOfSecond)
    } else if (c1 == FeastClass::MajorDouble || c1 == FeastClass::Double) && c1 == c2
        && second_of_our_lord {
        Some(OccurrenceResult::SecondCommemorationOfFirst)
    } else {
        None
    }
}

/// A feast against a vigil: every pair has a rule.
pub open spec fn feast_vs_vigil(c1: FeastClass, major: bool) -> OccurrenceResult {
    match c1 {
        FeastClass::FirstClassDouble => OccurrenceResult::FirstNothingOfSecond,
        FeastClass::SecondClassDouble => if major {
            OccurrenceResult::FirstCommemorationOfSecond
        } else {
            OccurrenceResult::FirstNothingOfSecond
        },
        FeastClass::MajorDouble => OccurrenceResult::FirstNothingOfSecond,
        FeastClass::Double => OccurrenceResult::FirstNothingOfSecond,
        FeastClass::Semidouble => OccurrenceResult::SecondCommemorationOfFirst,
        FeastClass::Simple => OccurrenceResult::SecondCommemorationOfFirst,
        FeastClass::Commemoration => OccurrenceResult::SecondNothingOfFirst,
    }
}

/// A feast against a Sunday. On a greater Sunday of the first class every feast is
/// commemorated; on one of the second class a double of the first class is kept, and a
/// double of the second class or a greater double of Our Lord; on a lesser Sunday a double
/// of the first or second class is kept with a commemoration of the Sunday, and any other
/// feast of Our Lord without one.
pub open spec fn feast_vs_sunday(c1: FeastClass, of_our_lord: bool, r2: u8) -> Option<OccurrenceResult> {
    if r2 == 1 {
        Some(OccurrenceResult::SecondCommemorationOfFirst)
    } else if r2 == 2 {
        if c1 == FeastClass::FirstClassDouble {
            Some(OccurrenceResult::FirstNothingOfSecond)
        } else if (c1 == FeastClass::SecondClassDouble || c1 == FeastClass::MajorDouble) && of_our_lord {
            Some(OccurrenceResult::FirstNothingOfSecond)
        } else {
            Some(OccurrenceResult::SecondCommemorationOfFirst)
        }
    } else if r2 == 3 {
        if c1 == FeastClass::FirstClassDouble || c1 == FeastClass::SecondClassDouble {
            Some(OccurrenceResult::FirstCommemorationOfSecond)
        } else if of_our_lord {
            Some(OccurrenceResult::FirstNothingOfSecond)
        } else {
            Some(OccurrenceResult::SecondCommemorationOfFirst)
        }
    } else {
        None
    }
}

/// A vigil against a feast: only a double of the first class comes before a vigil.
pub open spec fn vigil_vs_feast(c2: FeastClass) -> OccurrenceResult {
    if c2 == FeastClass::FirstClassDouble {
        OccurrenceResult::SecondNothingOfFirst
    } else {
        OccurrenceResult::FirstNothingOfSecond
    }
}

/// A vigil against a feria.
pub open spec fn vigil_vs_feria(major: bool, r2: u8) -> Option<OccurrenceResult> {
    if r2 == 2 {
        if major {
            Some(OccurrenceResult::FirstNothingOfSecond)
        } else {
            Some(OccurrenceResult::SecondCommemorationOfFirst)
        }
    } else if r2 == 3 {
        Some(OccurrenceResult::FirstNothingOfSecond)
    } else {
        None
    }
}

/// A day within an octave against a feria: every pair has a rule.
pub open spec fn octave_vs_feria(t1: OctaveType, octave_day: bool, r2: u8) -> OccurrenceResult {
    if t1 == OctaveType::Simple {
        if octave_day {
            OccurrenceResult::FirstNothingOfSecond
        } else {
            OccurrenceResult::SecondNothingOfFirst
        }
    } else if t1 == OctaveType::Common && r2 == 2 {
        OccurrenceResult::FirstCommemorationOfSecond
    } else {
        OccurrenceResult::FirstNothingOfSecond
    }
}

/// A day within an octave against a Sunday.
pub open spec fn octave_vs_sunday(t1: OctaveType, octave_day: bool, r2: u8) -> Option<OccurrenceResult> {
    if r2 == 1 {
        Some(OccurrenceResult::SecondNothingOfFirst)
    } else if octave_day && t1 == OctaveType::Common && r2 == 2 {
        Some(OccurrenceResult::SecondCommemorationOfFirst)
    } else if !octave_day && (t1 == OctaveType::Privileged1 || t1 == OctaveType::Privileged2) {
        Some(OccurrenceResult::FirstNothingOfSecond)
    } else if t1 == OctaveType::Privileged3 {
        Some(OccurrenceResult::SecondNothingOfFirst)
    } else if !octave_day {
        Some(OccurrenceResult::SecondNothingOfFirst)
    } else {
        None
    }
}

/// A Sunday against a feria.
pub open spec fn sunday_vs_feria(r1: u8, r2: u8) -> Option<OccurrenceResult> {
    if r1 == 1 {
        Some(OccurrenceResult::FirstNothingOfSecond)
    } else if r1 == 2 {
        if r2 == 1 {
            Some(OccurrenceResult::FirstNothingOfSecond)
        } else {
            Some(OccurrenceResult::SecondCommemorationOfFirst)
        }
    } else if r1 == 3 {
        if r2 == 1 || r2 == 2 {
            Some(OccurrenceResult::FirstNothingOfSecond)
        } else {
            Some(OccurrenceResult::SecondCommemorationOfFirst)
        }
    } else {
        None
    }
}

/// Two ferias: the lower class wins; of two of one class, an ember day wins over a feria
/// that is none.
pub open spec fn feria_vs_feria(r1: u8, f1: FeriaFlags, r2: u8, f2: FeriaFlags) -> Result<
    OccurrenceResult,
    OccurrenceError,
> {
    if r1 < r2 {
        Ok(OccurrenceResult::FirstNothingOfSecond)
    } else if r1 > r2 {
        Ok(OccurrenceResult::SecondNothingOfFirst)
    } else if f1.ember_day && !f2.ember_day {
        Ok(OccurrenceResult::FirstNothingOfSecond)
    } else if !f1.ember_day && f2.ember_day {
        Ok(OccurrenceResult::SecondNothingOfFirst)
    } else {
        Err(OccurrenceError::EqualFerias)
    }
}

/// The lower number wins, and equal numbers cannot be ordered.
pub open spec fn by_numeric_rank(r1: u8, r2: u8) -> Result<OccurrenceResult, OccurrenceError> {
    if r1 < r2 {
        Ok(OccurrenceResult::FirstNothingOfSecond)
    } else if r1 > r2 {
        Ok(OccurrenceResult::SecondNothingOfFirst)
    } else {
        Err(OccurrenceError::EqualRank)
    }
}

/// An outcome, or the error in its place, told from the other observance's side.
pub open spec fn mirrored_result(r: Result<OccurrenceResult, OccurrenceError>) -> Result<
    OccurrenceResult,
    OccurrenceError,
> {
    match r {
        Ok(o) => Ok(o.mirrored()),
        Err(e) => Err(e),
    }
}

/// A rule of the table, if there is one, as a result.
pub open spec fn as_rule(o: Option<OccurrenceResult>) -> Option<Result<OccurrenceResult, OccurrenceError>> {
    match o {
        Some(r) => Some(Ok(r)),
        None => None,
    }
}

impl FeastRank54Inner {
    /// Whether the rank is one that the calendar knows: a feria is of class 1, 2 or 3.
    pub open spec fn well_formed(self) -> bool {
        self matches FeastRank54Inner::Feria { rank, .. } ==> 1 <= rank <= 3
    }

    /// The rank as a number, 1 being the highest.
    pub open spec fn numeric_rank(self) -> u8 {
        match self {
            FeastRank54Inner::Feria { rank, .. } => rank,
            FeastRank54Inner::Feast { rank, .. } => rank.number(),
            FeastRank54Inner::Vigil { major } => if major {
                1
            } else {
                2
            },
            FeastRank54Inner::Sunday { rank } => rank,
            FeastRank54Inner::Octave { rank, .. } => rank.number(),
        }
    }

    /// The kind of day.
    pub open spec fn day_type(self) -> DayType {
        match self {
            FeastRank54Inner::Feria { .. } => DayType::Feria,
            FeastRank54Inner::Feast { .. } => DayType::Feast,
            FeastRank54Inner::Vigil { .. } => DayType::Vigil,
            FeastRank54Inner::Sunday { .. } => DayType::Sunday,
            FeastRank54Inner::Octave { .. } => DayType::Octave,
        }
    }

    /// The rule of the table for `self` before `other`, where the table has one for the
    /// pair in this order.
    pub open spec fn table_rule(self, other: Self) -> Option<Result<OccurrenceResult, OccurrenceError>> {
        match (self, other) {
            (FeastRank54Inner::Feria { rank: r1, flags: f1 }, FeastRank54Inner::Feria { rank: r2, flags: f2 }) =>
                Some(feria_vs_feria(r1, f1, r2, f2)),
            (FeastRank54Inner::Feast { rank: c1, .. }, FeastRank54Inner::Feria { rank: r2, .. }) =>
                as_rule(feast_vs_feria(c1, r2)),
            (FeastRank54Inner::Feast { rank: c1, flags }, FeastRank54Inner::Octave { rank: t2, is_octave_day }) =>
                Some(Ok(feast_vs_octave(c1, flags.of_our_lord, t2, is_octave_day))),
            (FeastRank54Inner::Feast { rank: c1, .. }, FeastRank54Inner::Feast { rank: c2, flags: f2 }) =>
                as_rule(feast_vs_feast(c1, c2, f2.of_our_lord)),
            (FeastRank54Inner::Feast { rank: c1, .. }, FeastRank54Inner::Vigil { major }) =>
                Some(Ok(feast_vs_vigil(c1, major))),
            (FeastRank54Inner::Feast { rank: c1, flags }, FeastRank54Inner::Sunday { rank: r2 }) =>
                as_rule(feast_vs_sunday(c1, flags.of_our_lord, r2)),
            (FeastRank54Inner::Vigil { .. }, FeastRank54Inner::Feast { rank: c2, .. }) =>
                Some(Ok(vigil_vs_feast(c2))),
            (FeastRank54Inner::Vigil { major }, FeastRank54Inner::Feria { rank: r2, .. }) =>
                as_rule(vigil_vs_feria(major, r2)),
            (FeastRank54Inner::Vigil { .. }, FeastRank54Inner::Sunday { .. }) =>
                Some(Ok(OccurrenceResult::SecondCommemorationOfFirst)),
            (FeastRank54Inner::Octave { rank: t1, is_octave_day }, FeastRank54Inner::Feria { rank: r2, .. }) =>
                Some(Ok(octave_vs_feria(t1, is_octave_day, r2))),
            (FeastRank54Inner::Octave { rank: t1, is_octave_day }, FeastRank54Inner::Sunday { rank: r2 }) =>
                as_rule(octave_vs_sunday(t1, is_octave_day, r2)),
            (FeastRank54Inner::Sunday { rank: r1 }, FeastRank54Inner::Feria { rank: r2, .. }) =>
                as_rule(sunday_vs_feria(r1, r2)),
            _ => None,
        }
    }

    /// How `self` and `other` stand to each other on one day. The table is asked for the
    /// pair as given; with `try_swapped`, then for the pair the other way round, whose
    /// outcome is mirrored; last, the numeric ranks decide.
    pub open spec fn occurrence(self, other: Self, try_swapped: bool) -> Result<
        OccurrenceResult,
        OccurrenceError,
    > {
        match self.table_rule(other) {
            Some(r) => r,
            None => if try_swapped {
                match other.table_rule(self) {
                    Some(r) => mirrored_result(r),
                    None => mirrored_result(by_numeric_rank(other.numeric_rank(), self.numeric_rank())),
                }
            } else {
                by_numeric_rank(self.numeric_rank(), other.numeric_rank())
            },
        }
    }

    /// The rank as a number, 1 being the highest.
    pub fn get_numeric_rank(&self) -> (out: u8)
        ensures
            out == self.numeric_rank(),
    {
        match self {
            FeastRank54Inner::Feria { rank, .. } => *rank,
            FeastRank54Inner::Feast { rank, .. } => rank.to_number(),
            FeastRank54Inner::Vigil { major } => {
                if *major {
                    1
                } else {
                    2
                }
            },
            FeastRank54Inner::Sunday { rank } => *rank,
            FeastRank54Inner::Octave { rank, .. } => match rank {
                OctaveType::Privileged1 => 1,
                OctaveType::Privileged2 => 2,
                OctaveType::Privileged3 => 3,
                OctaveType::Common => 4,
                OctaveType::Simple => 5,
            },
        }
    }

    /// How `self` and `other` stand to each other on one day.
    pub fn resolve_occurrence(&self, other: &Self, try_swapped: bool) -> (out: Result<
        OccurrenceResult,
        OccurrenceError,
    >)
        ensures
            out == self.occurrence(*other, try_swapped),
        decreases (if try_swapped { 1int } else { 0int }),
    {
        if let FeastRank54Inner::Feria { rank: rank1, flags: flags1 } = self {
            // both ferias
            if let FeastRank54Inner::Feria { rank: rank2, flags: flags2 } = other {
                if *rank1 == *rank2 {
                    let is_ember_day1 = flags1.ember_day;
                    let is_ember_day2 = flags2.ember_day;
                    if is_ember_day1 && !is_ember_day2 {
                        return Ok(OccurrenceResult::FirstNothingOfSecond);
                    } else if !is_ember_day1 && is_ember_day2 {
                        return Ok(OccurrenceResult::SecondNothingOfFirst);
                    } else {
                        return Err(OccurrenceError::EqualFerias);
                    }
                }
                if *rank1 < *rank2 {
                    return Ok(OccurrenceResult::FirstNothingOfSecond);
                } else {
                    return Ok(OccurrenceResult::SecondNothingOfFirst);
                }
            }
        }
        // self is a feast
        if let FeastRank54Inner::Feast { rank: rank1, flags: flags1 } = self {
            // other is a feria
            if let FeastRank54Inner::Feria { rank: rank2, flags: _flags2 } = other {
                if *rank2 == 1 {
                    if rank1.to_number() <= 4 {
                        return Ok(OccurrenceResult::SecondCommemorationOfFirst);
                    }
                    return Ok(OccurrenceResult::SecondNothingOfFirst);
                } else if *rank2 == 2 {
                    match rank1 {
                        FeastClass::Simple => return Ok(OccurrenceResult::SecondNothingOfFirst),
                        _ => return Ok(OccurrenceResult::FirstCommemorationOfSecond),
                    }
                } else if *rank2 == 3 {
                    return Ok(OccurrenceResult::FirstNothingOfSecond);
                }
            }
            // other is a day within an octave
            if let FeastRank54Inner::Octave { rank: rank2, is_octave_day } = other {
                match rank2 {
                    OctaveType::Privileged1 => {
                        match rank1 {
                            FeastClass::FirstClassDouble => {
                                return Ok(OccurrenceResult::FirstNothingOfSecond)
                            },
                            FeastClass::SecondClassDouble => {
                                return Ok(OccurrenceResult::SecondTransferOfFirst)
                            },
                            _ => {
                                if *is_octave_day {
                                    return Ok(OccurrenceResult::SecondCommemorationOfFirst);
                                } else {
                                    return Ok(OccurrenceResult::SecondNothingOfFirst);
                                }
                            },
                        }
                    },
                    OctaveType::Privileged2 => {
                        match rank1 {
                            FeastClass::FirstClassDouble => {
                                if *is_octave_day {
                                    return Ok(OccurrenceResult::SecondTransferOfFirst);
                                } else {
                                    return Ok(OccurrenceResult::SecondCommemorationOfFirst);
                                }
                            },
                            FeastClass::MajorDouble => {
                                if flags1.of_our_lord {
                                    return Ok(OccurrenceResult::FirstCommemorationOfSecond);
                                } else {
                                    return Ok(OccurrenceResult::FirstNothingOfSecond);
                                }
                            },
                            _ => return Ok(OccurrenceResult::FirstNothingOfSecond),
                        }
                    },
                    // a semidouble or higher wins over these octaves, and the octave is
                    // commemorated
                    OctaveType::Privileged3 | OctaveType::Common => {
                        match rank1 {
                            FeastClass::Simple => {
                                return Ok(OccurrenceResult::SecondCommemorationOfFirst)
                            },
                            FeastClass::Commemoration => {
                                return Ok(OccurrenceResult::FirstNothingOfSecond)
                            },
                            _ => {
                                if !*is_octave_day {
                                    return Ok(OccurrenceResult::FirstCommemorationOfSecond);
                                } else {
                                    return Ok(OccurrenceResult::FirstNothingOfSecond);
                                }
                            },
                        }
                    },
                    OctaveType::Simple => {
                        if *is_octave_day {
                            return Ok(OccurrenceResult::SecondCommemorationOfFirst);
                        } else {
                            return Ok(OccurrenceResult::FirstNothingOfSecond);
                        }
                    },
                }
            }
            // other is a feast
            if let FeastRank54Inner::Feast { rank: rank2, flags: flags2 } = other {
                match (rank1, rank2) {
                    (FeastClass::SecondClassDouble, FeastClass::Double) => {
                        return Ok(OccurrenceResult::FirstCommemorationOfSecond);
                    },
                    (FeastClass::Simple, FeastClass::FirstClassDouble) => {
                        return Ok(OccurrenceResult::SecondNothingOfFirst);
                    },
                    (FeastClass::Simple, _) => {
                        return Ok(OccurrenceResult::SecondCommemorationOfFirst);
                    },
                    (FeastClass::Semidouble, _) => {
                        return Ok(OccurrenceResult::SecondCommemorationOfFirst);
                    },
                    (FeastClass::FirstClassDouble, FeastClass::FirstClassDouble)
                    | (FeastClass::FirstClassDouble, FeastClass::SecondClassDouble) => {
                        return Ok(OccurrenceResult::SecondTransferOfFirst);
                    },
                    (FeastClass::FirstClassDouble, FeastClass::MajorDouble)
                    | (FeastClass::FirstClassDouble, FeastClass::Double) => {
                        return Ok(OccurrenceResult::FirstCommemorationOfSecond);
                    },
                    (FeastClass::FirstClassDouble, _) => {
                        return Ok(OccurrenceResult::FirstNothingOfSecond);
                    },
                    (FeastClass::MajorDouble, FeastClass::Double) => {
                        return Ok(OccurrenceResult::FirstCommemorationOfSecond)
                    },
                    (FeastClass::MajorDouble, FeastClass::MajorDouble)
                    | (FeastClass::Double, FeastClass::Double) => {
                        if flags2.of_our_lord {
                            return Ok(OccurrenceResult::SecondCommemorationOfFirst);
                        }
                    },
                    _ => {},
                }
            }
            // other is a vigil
            if let FeastRank54Inner::Vigil { major: rank2 } = other {
                match rank1 {
                    FeastClass::FirstClassDouble => {
                        return Ok(OccurrenceResult::FirstNothingOfSecond);
                    },
                    FeastClass::SecondClassDouble => {
                        if *rank2 {
                            return Ok(OccurrenceResult::FirstCommemorationOfSecond);
                        }
                        return Ok(OccurrenceResult::FirstNothingOfSecond);
                    },
                    FeastClass::MajorDouble => {
                        return Ok(OccurrenceResult::FirstNothingOfSecond);
                    },
                    FeastClass::Double => {
                        return Ok(OccurrenceResult::FirstNothingOfSecond);
                    },
                    FeastClass::Semidouble => {
                        return Ok(OccurrenceResult::SecondCommemorationOfFirst);
                    },
                    FeastClass::Simple => {
                        return Ok(OccurrenceResult::SecondCommemorationOfFirst);
                    },
                    FeastClass::Commemoration => {
                        return Ok(OccurrenceResult::SecondNothingOfFirst);
                    },
                }
            }
            // other is a Sunday
            if let FeastRank54Inner::Sunday { rank: rank2 } = other {
                if *rank2 == 1 {
                    // a greater Sunday of the first class: the feast is commemorated
                    return Ok(OccurrenceResult::SecondCommemorationOfFirst);
                } else if *rank2 == 2 {
                    // a greater Sunday of the second class
                    match rank1 {
                        FeastClass::FirstClassDouble => {
                            return Ok(OccurrenceResult::FirstNothingOfSecond);
                        },
                        FeastClass::SecondClassDouble | FeastClass::MajorDouble => {
                            if flags1.of_our_lord {
                                return Ok(OccurrenceResult::FirstNothingOfSecond);
                            }
                            return Ok(OccurrenceResult::SecondCommemorationOfFirst);
                        },
                        _ => {
                            return Ok(OccurrenceResult::SecondCommemorationOfFirst);
                        },
                    }
                } else if *rank2 == 3 {
                    // a lesser Sunday
                    match rank1 {
                        FeastClass::FirstClassDouble | FeastClass::SecondClassDouble => {
                            return Ok(OccurrenceResult::FirstCommemorationOfSecond);
                        },
                        _ => {
                            if flags1.of_our_lord {
                                return Ok(OccurrenceResult::FirstNothingOfSecond);
                            } else {
                                return Ok(OccurrenceResult::SecondCommemorationOfFirst);
                            }
                        },
                    }
                }
            }
        }
        // self is a vigil
        if let FeastRank54Inner::Vigil { major: rank1 } = self {
            if let FeastRank54Inner::Feast { rank: rank2, flags: _flags2 } = other {
                match rank2 {
                    FeastClass::FirstClassDouble => {
                        return Ok(OccurrenceResult::SecondNothingOfFirst);
                    },
                    _ => return Ok(OccurrenceResult::FirstNothingOfSecond),
                }
            }
            if let FeastRank54Inner::Feria { rank: rank2, flags: _flags2 } = other {
                if *rank2 == 2 {
                    if *rank1 {
                        return Ok(OccurrenceResult::FirstNothingOfSecond);
                    }
                    return Ok(OccurrenceResult::SecondCommemorationOfFirst);
                } else if *rank2 == 3 {
                    return Ok(OccurrenceResult::FirstNothingOfSecond);
                }
            }
            if let FeastRank54Inner::Sunday { rank: _rank2 } = other {
                return Ok(OccurrenceResult::SecondCommemorationOfFirst);
            }
        }
        // self is a day within an octave
        if let FeastRank54Inner::Octave { rank: rank1, is_octave_day: is_octave_day1 } = self {
            if let FeastRank54Inner::Feria { rank: rank2, flags: _flags2 } = other {
                match rank1 {
                    OctaveType::Simple => {
                        if *is_octave_day1 {
                            return Ok(OccurrenceResult::FirstNothingOfSecond);
                        }
                        return Ok(OccurrenceResult::SecondNothingOfFirst);
                    },
                    OctaveType::Common => {
                        if *rank2 == 2 {
                            return Ok(OccurrenceResult::FirstCommemorationOfSecond);
                        }
                        return Ok(OccurrenceResult::FirstNothingOfSecond);
                    },
                    _ => return Ok(OccurrenceResult::FirstNothingOfSecond),
                }
            }
            if let FeastRank54Inner::Sunday { rank: rank2 } = other {
                if *rank2 == 1 {
                    return Ok(OccurrenceResult::SecondNothingOfFirst);
                }
                match (*is_octave_day1, rank1) {
                    (true, OctaveType::Common) => {
                        if *rank2 == 2 {
                            return Ok(OccurrenceResult::SecondCommemorationOfFirst);
                        }
                    },
                    (false, OctaveType::Privileged1) => {
                        return Ok(OccurrenceResult::FirstNothingOfSecond)
                    },
                    (false, OctaveType::Privileged2) => {
                        return Ok(OccurrenceResult::FirstNothingOfSecond);
                    },
                    (_, OctaveType::Privileged3) => {
                        return Ok(OccurrenceResult::SecondNothingOfFirst);
                    },
                    (false, _) => {
                        return Ok(OccurrenceResult::SecondNothingOfFirst);
                    },
                    _ => {},
                }
            }
        }
        // self is a Sunday
        if let FeastRank54Inner::Sunday { rank: rank1 } = self {
            if let FeastRank54Inner::Feria { rank: rank2, flags: _flags2 } = other {
                match (*rank1, *rank2) {
                    (1, _) => return Ok(OccurrenceResult::FirstNothingOfSecond),
                    (2, 1) => return Ok(OccurrenceResult::FirstNothingOfSecond),
                    (2, _) => return Ok(OccurrenceResult::SecondCommemorationOfFirst),
                    (3, 1) => return Ok(OccurrenceResult::FirstNothingOfSecond),
                    (3, 2) => return Ok(OccurrenceResult::FirstNothingOfSecond),
                    (3, _) => return Ok(OccurrenceResult::SecondCommemorationOfFirst),
                    _ => {},
                }
            }
        }
        // the pair the other way round
        if try_swapped {
            return match other.resolve_occurrence(self, false) {
                Ok(r) => Ok(r.reverse()),
                Err(e) => Err(e),
            };
        }
        // the lower number wins
        let rank1 = self.get_numeric_rank();
        let rank2 = other.get_numeric_rank();
        if rank1 < rank2 {
            Ok(OccurrenceResult::FirstNothingOfSecond)
        } else if rank1 > rank2 {
            Ok(OccurrenceResult::SecondNothingOfFirst)
        } else {
            Err(OccurrenceError::EqualRank)
        }
    }
}

/// The class of feria that a rank code stands for.
pub open spec fn feria_class(code: Seq<char>) -> Option<u8> {
    if code == "greater privileged"@ || code == "I"@ {
        Some(1u8)
    } else if code == "greater non-privileged"@ || code == "II"@ {
        Some(2u8)
    } else if code == "ordinary"@ || code == "III"@ || code == "IV"@ {
        Some(3u8)
    } else {
        None
    }
}

/// The class of feast that a rank code stands for.
pub open spec fn feast_class(code: Seq<char>) -> Option<FeastClass> {
    if code == "totum_duplex"@ || code == "first_class_duplex"@ || code == "first class double"@
        || code == "I"@ {
        Some(FeastClass::FirstClassDouble)
    } else if code == "second_class_duplex"@ || code == "second class double"@ || code == "II"@ {
        Some(FeastClass::SecondClassDouble)
    } else if code == "major_duplex"@ || code == "greater_duplex"@ || code == "major double"@ {
        Some(FeastClass::MajorDouble)
    } else if code == "duplex"@ || code == "double"@ || code == "III"@ {
        Some(FeastClass::Double)
    } else if code == "semiduplex"@ || code == "semidouble"@ || code == "IV"@ {
        Some(FeastClass::Semidouble)
    } else if code == "simplex"@ || code == "simple"@ || code == "V"@ {
        Some(FeastClass::Simple)
    } else if code == "commemoratio"@ || code == "commemoration"@ || code == "com"@ || code == "VI"@ {
        Some(FeastClass::Commemoration)
    } else {
        None
    }
}

/// The class of Sunday that a rank code stands for.
pub open spec fn sunday_class(code: Seq<char>) -> Option<u8> {
    if code == "I"@ {
        Some(1u8)
    } else if code == "II"@ {
        Some(2u8)
    } else if code == "III"@ {
        Some(3u8)
    } else {
        None
    }
}

/// Whether the vigil that a rank code stands for is a major one.
pub open spec fn vigil_class(code: Seq<char>) -> Option<bool> {
    if code == "major"@ || code == "I"@ {
        Some(true)
    } else if code == "minor"@ || code == "II"@ {
        Some(false)
    } else {
        None
    }
}

/// The kind of octave that a rank code stands for.
pub open spec fn octave_class(code: Seq<char>) -> Option<OctaveType> {
    if code == "privileged1"@ || code == "I"@ {
        Some(OctaveType::Privileged1)
    } else if code == "privileged2"@ || code == "II"@ {
        Some(OctaveType::Privileged2)
    } else if code == "privileged3"@ || code == "III"@ {
        Some(OctaveType::Privileged3)
    } else if code == "common"@ || code == "IV"@ {
        Some(OctaveType::Common)
    } else if code == "simple"@ || code == "V"@ {
        Some(OctaveType::Simple)
    } else {
        None
    }
}

/// Whether a name is given and holds `what`, letter for letter.
pub open spec fn name_holds(name: Option<Seq<char>>, what: Seq<char>) -> bool {
    name matches Some(n) && has_substring(n, what)
}

/// The display name of a feria's class.
pub open spec fn feria_text(rank: u8) -> Seq<char> {
    if rank == 1 {
        "Greater Privileged Feria"@
    } else if rank == 2 {
        "Greater Non-Privileged Feria"@
    } else {
        "Ordinary Feria"@
    }
}

/// The display name of a day within an octave.
pub open spec fn octave_text(kind: OctaveType, octave_day: bool) -> Seq<char> {
    match kind {
        OctaveType::Privileged1 => if octave_day {
            "Octave Day of a Privileged 1st Class Octave"@
        } else {
            "Day within a Privileged 1st Class Octave"@
        },
        OctaveType::Privileged2 => if octave_day {
            "Octave Day of a Privileged 2nd Class Octave"@
        } else {
            "Day within a Privileged 2nd Class Octave"@
        },
        OctaveType::Privileged3 => if octave_day {
            "Octave Day of a Privileged 3rd Class Octave"@
        } else {
            "Day within a Privileged 3rd Class Octave"@
        },
        OctaveType::Common => if octave_day {
            "Major Double"@
        } else {
            "Day within a Common Octave"@
        },
        OctaveType::Simple => if octave_day {
            "Simple"@
        } else {
            "Day within a Simple Octave"@
        },
    }
}

/// Whether a name is given and holds `what`, letter for letter.
fn name_contains(name: &Option<String>, what: &str) -> (out: bool)
    ensures
        out == name_holds(crate::text::opt_view(*name), what@),
{
    match name {
        Some(n) => str_contains(n.as_str(), what),
        None => false,
    }
}

impl FeastRank54Inner {
    /// The rank of a day of kind `day_type` with the rank code `rank`, or the error where
    /// the code is unknown for that kind. An ember day is known by the season's name, the
    /// Immaculate Conception and All Souls by the feast's name.
    pub open spec fn built(rank: Seq<char>, day_type: DayType, context: ContextView) -> Result<
        Self,
        RankError,
    > {
        match day_type {
            DayType::Feria => match feria_class(rank) {
                Some(r) => Ok(
                    FeastRank54Inner::Feria {
                        rank: r,
                        flags: FeriaFlags {
                            of_lent: context.of_lent,
                            ember_day: name_holds(context.season_name, "Ember"@),
                        },
                    },
                ),
                None => Err(RankError::UnknownRank),
            },
            DayType::Feast => match feast_class(rank) {
                Some(c) => Ok(
                    FeastRank54Inner::Feast {
                        rank: c,
                        flags: FeastFlags {
                            of_our_lord: context.of_our_lord,
                            immaculate_conception: name_holds(context.feast_name, "Immaculate Conception"@),
                            movable: context.is_movable,
                            all_souls: name_holds(context.feast_name, "All Souls"@),
                        },
                    },
                ),
                None => Err(RankError::UnknownRank),
            },
            DayType::Sunday => match sunday_class(rank) {
                Some(r) => Ok(FeastRank54Inner::Sunday { rank: r }),
                None => Err(RankError::UnknownRank),
            },
            DayType::Vigil => match vigil_class(rank) {
                Some(major) => Ok(FeastRank54Inner::Vigil { major }),
                None => Err(RankError::UnknownRank),
            },
            DayType::Octave => match octave_class(rank) {
                Some(kind) => Ok(
                    FeastRank54Inner::Octave { rank: kind, is_octave_day: context.is_octave_day },
                ),
                None => Err(RankError::UnknownRank),
            },
        }
    }

    /// The rank's display name. A feria's name says whether it is of Lent and whether it
    /// is an ember day.
    pub open spec fn rank_text(self) -> Seq<char> {
        match self {
            FeastRank54Inner::Feria { rank, flags } => feria_text(rank) + (if flags.of_lent {
                " of Lent"@
            } else {
                ""@
            }) + (if flags.ember_day {
                " Ember Day"@
            } else {
                ""@
            }),
            FeastRank54Inner::Feast { rank, .. } => rank.text(),
            FeastRank54Inner::Vigil { major } => if major {
                "Major Vigil"@
            } else {
                "Minor Vigil"@
            },
            FeastRank54Inner::Sunday { rank } => if rank == 1 {
                "Greater Sunday of the First Class"@
            } else if rank == 2 {
                "Greater Sunday of the Second Class"@
            } else if rank == 3 {
                "Lesser Sunday"@
            } else {
                "Unknown Sunday"@
            },
            FeastRank54Inner::Octave { rank, is_octave_day } => octave_text(rank, is_octave_day),
        }
    }

    /// The rank of a day of kind `day_type` with the rank code `rank`.
    pub fn new_with_context(rank: &str, day_type: &DayType, context: &LiturgicalContext) -> (out: Result<
        Self,
        RankError,
    >)
        ensures
            out == Self::built(rank@, *day_type, context@),
            out matches Ok(r) ==> r.well_formed(),
    {
        let mut feast_flags = FeastFlags::empty();
        let mut feria_flags = FeriaFlags::empty();
        if context.of_our_lord {
            feast_flags.of_our_lord = true;
        }
        if context.is_movable {
            feast_flags.movable = true;
        }
        if context.of_lent {
            feria_flags.of_lent = true;
        }
        // named special cases
        if name_contains(&context.feast_name, "Immaculate Conception") {
            feast_flags.immaculate_conception = true;
        }
        if name_contains(&context.feast_name, "All Souls") {
            feast_flags.all_souls = true;
        }
        match day_type {
            DayType::Feria => {
                let rank = if str_eq(rank, "greater privileged") || str_eq(rank, "I") {
                    1
                } else if str_eq(rank, "greater non-privileged") || str_eq(rank, "II") {
                    2
                } else if str_eq(rank, "ordinary") || str_eq(rank, "III") || str_eq(rank, "IV") {
                    3
                } else {
                    return Err(RankError::UnknownRank);
                };
                if name_contains(&context.season_name, "Ember") {
                    feria_flags.ember_day = true;
                }
                Ok(FeastRank54Inner::Feria { rank, flags: feria_flags })
            },
            DayType::Feast => {
                let feast_rank = if str_eq(rank, "totum_duplex") || str_eq(rank, "first_class_duplex")
                    || str_eq(rank, "first class double") || str_eq(rank, "I") {
                    FeastClass::FirstClassDouble
                } else if str_eq(rank, "second_class_duplex") || str_eq(rank, "second class double")
                    || str_eq(rank, "II") {
                    FeastClass::SecondClassDouble
                } else if str_eq(rank, "major_duplex") || str_eq(rank, "greater_duplex") || str_eq(
                    rank,
                    "major double",
                ) {
                    FeastClass::MajorDouble
                } else if str_eq(rank, "duplex") || str_eq(rank, "double") || str_eq(rank, "III") {
                    FeastClass::Double
                } else if str_eq(rank, "semiduplex") || str_eq(rank, "semidouble") || str_eq(rank, "IV") {
                    FeastClass::Semidouble
                } else if str_eq(rank, "simplex") || str_eq(rank, "simple") || str_eq(rank, "V") {
                    FeastClass::Simple
                } else if str_eq(rank, "commemoratio") || str_eq(rank, "commemoration") || str_eq(
                    rank,
                    "com",
                ) || str_eq(rank, "VI") {
                    FeastClass::Commemoration
                } else {
                    return Err(RankError::UnknownRank);
                };
                Ok(FeastRank54Inner::Feast { rank: feast_rank, flags: feast_flags })
            },
            DayType::Sunday => {
                let rank = if str_eq(rank, "I") {
                    1
                } else if str_eq(rank, "II") {
                    2
                } else if str_eq(rank, "III") {
                    3
                } else {
                    return Err(RankError::UnknownRank);
                };
                Ok(FeastRank54Inner::Sunday { rank })
            },
            DayType::Vigil => {
                let major = if str_eq(rank, "major") || str_eq(rank, "I") {
                    true
                } else if str_eq(rank, "minor") || str_eq(rank, "II") {
                    false
                } else {
                    return Err(RankError::UnknownRank);
                };
                Ok(FeastRank54Inner::Vigil { major })
            },
            DayType::Octave => {
                let kind = if str_eq(rank, "privileged1") || str_eq(rank, "I") {
                    OctaveType::Privileged1
                } else if str_eq(rank, "privileged2") || str_eq(rank, "II") {
                    OctaveType::Privileged2
                } else if str_eq(rank, "privileged3") || str_eq(rank, "III") {
                    OctaveType::Privileged3
                } else if str_eq(rank, "common") || str_eq(rank, "IV") {
                    OctaveType::Common
                } else if str_eq(rank, "simple") || str_eq(rank, "V") {
                    OctaveType::Simple
                } else {
                    return Err(RankError::UnknownRank);
                };
                Ok(FeastRank54Inner::Octave { rank: kind, is_octave_day: context.is_octave_day })
            },
        }
    }

    /// The rank's display name.
    pub fn get_rank_string(&self) -> (out: String)
        requires
            self.well_formed(),
        ensures
            out@ == self.rank_text(),
    {
        match self {
            FeastRank54Inner::Feria { rank, flags } => {
                let base = if *rank == 1 {
                    "Greater Privileged Feria"
                } else if *rank == 2 {
                    "Greater Non-Privileged Feria"
                } else {
                    "Ordinary Feria"
                };
                let lent = if flags.of_lent {
                    " of Lent"
                } else {
                    ""
                };
                let ember = if flags.ember_day {
                    " Ember Day"
                } else {
                    ""
                };
                crate::text::concat3(base, lent, ember)
            },
            FeastRank54Inner::Feast { rank, flags: _ } => {
                let base_name = match rank {
                    FeastClass::FirstClassDouble => "First Class Double",
                    FeastClass::SecondClassDouble => "Second Class Double",
                    FeastClass::MajorDouble => "Major Double",
                    FeastClass::Double => "Double",
                    FeastClass::Semidouble => "Semidouble",
                    FeastClass::Simple => "Simple",
                    FeastClass::Commemoration => "Commemoration",
                };
                String::from_str(base_name)
            },
            FeastRank54Inner::Vigil { major } => {
                if *major {
                    String::from_str("Major Vigil")
                } else {
                    String::from_str("Minor Vigil")
                }
            },
            FeastRank54Inner::Sunday { rank } => {
                if *rank == 1 {
                    String::from_str("Greater Sunday of the First Class")
                } else if *rank == 2 {
                    String::from_str("Greater Sunday of the Second Class")
                } else if *rank == 3 {
                    String::from_str("Lesser Sunday")
                } else {
                    String::from_str("Unknown Sunday")
                }
            },
            FeastRank54Inner::Octave { rank, is_octave_day } => {
                let text = match (rank, *is_octave_day) {
                    (OctaveType::Privileged1, true) => "Octave Day of a Privileged 1st Class Octave",
                    (OctaveType::Privileged1, false) => "Day within a Privileged 1st Class Octave",
                    (OctaveType::Privileged2, true) => "Octave Day of a Privileged 2nd Class Octave",
                    (OctaveType::Privileged2, false) => "Day within a Privileged 2nd Class Octave",
                    (OctaveType::Privileged3, true) => "Octave Day of a Privileged 3rd Class Octave",
                    (OctaveType::Privileged3, false) => "Day within a Privileged 3rd Class Octave",
                    (OctaveType::Common, true) => "Major Double",
                    (OctaveType::Common, false) => "Day within a Common Octave",
                    (OctaveType::Simple, true) => "Simple",
                    (OctaveType::Simple, false) => "Day within a Simple Octave",
                };
                String::from_str(text)
            },
        }
    }
}

/// Whether a day won by this rank has room for commemorations: not a double or higher,
/// not a greater Sunday, not a day within an octave, not a greater privileged feria.
pub open spec fn admits_commemoration_1954(winning_rank: FeastRank54Inner) -> bool {
    match winning_rank {
        FeastRank54Inner::Feast { rank, .. } => rank.number() > 4,
        FeastRank54Inner::Sunday { rank } => rank > 2,
        FeastRank54Inner::Octave { .. } => false,
        FeastRank54Inner::Feria { rank, .. } => rank != 1,
        FeastRank54Inner::Vigil { .. } => true,
    }
}

/// Whether a day won by this rank has room for commemorations.
pub fn can_commemorate_1954(winning_rank: &FeastRank54Inner) -> (out: bool)
    ensures
        out == admits_commemoration_1954(*winning_rank),
{
    match winning_rank {
        FeastRank54Inner::Feast { rank: FeastClass::FirstClassDouble, .. } => false,
        FeastRank54Inner::Feast { rank: FeastClass::SecondClassDouble, .. } => false,
        FeastRank54Inner::Feast { rank: FeastClass::MajorDouble, .. } => false,
        FeastRank54Inner::Feast { rank: FeastClass::Double, .. } => false,
        FeastRank54Inner::Feast { .. } => true,
        FeastRank54Inner::Sunday { rank } => *rank > 2,
        FeastRank54Inner::Octave { .. } => false,
        FeastRank54Inner::Feria { rank, .. } => *rank != 1,
        FeastRank54Inner::Vigil { .. } => true,
    }
}

/// A rank of the 1954 calendar, as the calendar builder uses it.
#[derive(Debug, Clone, Copy, PartialEq, Eq, Structural)]
pub struct FeastRank54(pub FeastRank54Inner);

impl FeastRank for FeastRank54 {
    open spec fn well_formed(self) -> bool {
        self.0.well_formed()
    }

    open spec fn numeric(self) -> u8 {
        self.0.numeric_rank()
    }

    /// A feast of the lowest class is always a commemoration.
    open spec fn automatic_commemoration(self) -> bool {
        self.0 matches FeastRank54Inner::Feast { rank, .. } && rank == FeastClass::Commemoration
    }

    /// The competitors keep the order in which they were given.
    open spec fn sorts_by_rank() -> bool {
        false
    }

    open spec fn fixed_pivot() -> bool {
        true
    }

    open spec fn step(first: Self, second: Self) -> Option<FoldStep> {
        match first.0.occurrence(second.0, true) {
            Ok(o) => Some(o.step()),
            Err(_) => None,
        }
    }

    open spec fn keeps_commemorations(self) -> bool {
        true
    }

    open spec fn keeps_automatic_commemorations(self) -> bool {
        true
    }

    open spec fn automatic_first() -> bool {
        false
    }

    open spec fn built(rank: Seq<char>, day_type: DayType, context: ContextView) -> Result<Self, RankError> {
        match FeastRank54Inner::built(rank, day_type, context) {
            Ok(r) => Ok(FeastRank54(r)),
            Err(e) => Err(e),
        }
    }

    open spec fn ferial_or_sunday(self) -> bool {
        self.0 is Feria || self.0 is Sunday
    }

    /// A double of the first or second class, or a day within a privileged octave of
    /// the first order.
    open spec fn high_festival(self) -> bool {
        match self.0 {
            FeastRank54Inner::Feast { rank, .. } => rank == FeastClass::FirstClassDouble || rank
                == FeastClass::SecondClassDouble,
            FeastRank54Inner::Octave { rank, .. } => rank == OctaveType::Privileged1,
            _ => false,
        }
    }

    open spec fn rank_text(self) -> Seq<char> {
        self.0.rank_text()
    }

    /// An ordinary feria.
    open spec fn saturday_rank() -> Option<Self> {
        Some(
            FeastRank54(
                FeastRank54Inner::Feria { rank: 3, flags: FeriaFlags { of_lent: false, ember_day: false } },
            ),
        )
    }

    /// An ordinary feria gives the day to the Saturday office; a simple feast takes it as
    /// a commemoration.
    open spec fn saturday_admission(self) -> BVMOnSaturdayResult {
        match self.0 {
            FeastRank54Inner::Feria { rank, .. } => if rank == 3 {
                BVMOnSaturdayResult::Admitted
            } else {
                BVMOnSaturdayResult::NotAdmitted
            },
            FeastRank54Inner::Feast { rank, .. } => if rank == FeastClass::Simple {
                BVMOnSaturdayResult::Commemorated
            } else {
                BVMOnSaturdayResult::NotAdmitted
            },
            _ => BVMOnSaturdayResult::NotAdmitted,
        }
    }

    proof fn lemma_saturday_rank(self) {
    }

    fn numeric_rank(&self) -> (out: u8) {
        self.0.get_numeric_rank()
    }

    fn is_automatic_commemoration(&self) -> (out: bool) {
        match self.0 {
            FeastRank54Inner::Feast { rank: FeastClass::Commemoration, .. } => true,
            _ => false,
        }
    }

    fn sorts_competitors() -> (out: bool) {
        false
    }

    fn compares_with_first() -> (out: bool) {
        true
    }

    fn occurrence_step(&self, other: &Self) -> (out: Option<FoldStep>) {
        match self.0.resolve_occurrence(&other.0, true) {
            Ok(occurrence) => Some(
                match occurrence {
                    OccurrenceResult::FirstNothingOfSecond => FoldStep::KeepFirst,
                    OccurrenceResult::SecondNothingOfFirst => FoldStep::TakeSecond,
                    OccurrenceResult::FirstCommemorationOfSecond
                    | OccurrenceResult::FirstCommemorationOfSecondAtLauds => FoldStep::CommemorateSecond,
                    OccurrenceResult::SecondCommemorationOfFirst
                    | OccurrenceResult::SecondCommemorationOfFirstAtLauds => FoldStep::CommemorateFirst,
                    OccurrenceResult::FirstTransferOfSecond => FoldStep::TransferSecond,
                    OccurrenceResult::SecondTransferOfFirst => FoldStep::TransferFirst,
                },
            ),
            Err(_) => None,
        }
    }

    fn admits_commemorations(&self) -> (out: bool) {
        true
    }

    fn admits_automatic_commemorations(&self) -> (out: bool) {
        true
    }

    fn lists_automatic_first() -> (out: bool) {
        false
    }

    fn new_with_context(rank: &str, day_type: &DayType, context: &LiturgicalContext) -> (out: Result<
        Self,
        RankError,
    >) {
        match FeastRank54Inner::new_with_context(rank, day_type, context) {
            Ok(r) => Ok(FeastRank54(r)),
            Err(e) => Err(e),
        }
    }

    fn is_ferial_or_sunday_rank(&self) -> (out: bool) {
        match self.0 {
            FeastRank54Inner::Feria { .. } | FeastRank54Inner::Sunday { .. } => true,
            _ => false,
        }
    }

    fn is_high_festial(&self) -> (out: bool) {
        match self.0 {
            FeastRank54Inner::Feast { rank: FeastClass::FirstClassDouble, .. } => true,
            FeastRank54Inner::Feast { rank: FeastClass::SecondClassDouble, .. } => true,
            FeastRank54Inner::Octave { rank: OctaveType::Privileged1, .. } => true,
            _ => false,
        }
    }

    fn get_rank_string(&self) -> (out: String) {
        self.0.get_rank_string()
    }

    fn get_bvm_on_saturday_rank() -> (out: Option<Self>) {
        Some(FeastRank54(FeastRank54Inner::Feria { rank: 3, flags: FeriaFlags::empty() }))
    }

    fn admits_bvm_on_saturday(&self) -> (out: BVMOnSaturdayResult) {
        match self.0 {
            FeastRank54Inner::Feria { rank, .. } => if rank == 3 {
                BVMOnSaturdayResult::Admitted
            } else {
                BVMOnSaturdayResult::NotAdmitted
            },
            FeastRank54Inner::Feast { rank: FeastClass::Simple, .. } => BVMOnSaturdayResult::Commemorated,
            _ => BVMOnSaturdayResult::NotAdmitted,
        }
    }
}

impl FeastRank54 {
    /// Resolves the observances that fall on one day: who wins, who is commemorated, who
    /// is transferred.
    pub fn resolve_conflicts<T: Clone>(competitors: &[(Self, T)]) -> (out: Result<
        ResolveConflictsResult<Self, T>,
        ResolveError,
    >)
        ensures
            match resolution(crate::feast_rank::ranks_of(competitors@)) {
                Ok(v) => out matches Ok(r) && crate::feast_rank::names_places(competitors@, v, r),
                Err(e) => out matches Err(x) && x == e,
            },
    {
        crate::feast_rank::resolve_competitors(competitors)
    }
}

/// The ranks of a list of competitors, each as the calendar builder uses it.
pub open spec fn wrapped_ranks<T>(competitors: Seq<(FeastRank54Inner, T)>) -> Seq<FeastRank54> {
    competitors.map_values(|p: (FeastRank54Inner, T)| FeastRank54(p.0))
}

/// `out` names the competitors at the places that `v` holds.
pub open spec fn names_competitors<T: Clone>(
    competitors: Seq<(FeastRank54Inner, T)>,
    v: ResolvedView,
    out: ResolveConflictsResult<FeastRank54, T>,
) -> bool {
    &&& out.winner_rank.0 == competitors[v.winner as int].0
    &&& cloned(competitors[v.winner as int].1, out.winner)
    &&& match v.transferred {
        Some(t) => out.transferred matches Some(p) && p.0.0 == competitors[t as int].0 && cloned(
            competitors[t as int].1,
            p.1,
        ),
        None => out.transferred is None,
    }
    &&& out.commemorations@.len() == v.commemorations.len()
    &&& forall|i: int|
        0 <= i < v.commemorations.len() ==> cloned(
            competitors[v.commemorations[i] as int].1,
            #[trigger] out.commemorations@[i],
        )
}

impl FeastRank54Inner {
    /// Resolves the observances that fall on one day. The competitors keep their order,
    /// feasts of the lowest class stand aside as commemorations, and every other
    /// competitor is compared with the first of them.
    pub fn resolve_conflicts<T: Clone>(competitors: &[(Self, T)]) -> (out: Result<
        ResolveConflictsResult<FeastRank54, T>,
        ResolveError,
    >)
        ensures
            match resolution(wrapped_ranks(competitors@)) {
                Ok(v) => out matches Ok(r) && names_competitors(competitors@, v, r),
                Err(e) => out matches Err(x) && x == e,
            },
    {
        let mut ranks: Vec<FeastRank54> = Vec::new();
        let mut i: usize = 0;
        while i < competitors.len()
            invariant
                i <= competitors.len(),
                ranks@ == wrapped_ranks(competitors@.subrange(0, i as int)),
            decreases competitors.len() - i,
        {
            ranks.push(FeastRank54(competitors[i].0));
            i = i + 1;
            assert(ranks@ =~= wrapped_ranks(competitors@.subrange(0, i as int)));
        }
        assert(competitors@.subrange(0, competitors@.len() as int) =~= competitors@);
        match resolve_places(&ranks) {
            Err(e) => Err(e),
            Ok(places) => {
                let (winner, transferred_name, commemorations) = clone_names(competitors, &places);
                let winner_rank = FeastRank54(competitors[places.winner].0);
                let transferred = match places.transferred {
                    Some(t) => match transferred_name {
                        Some(name) => Some((FeastRank54(competitors[t].0), name)),
                        None => None,
                    },
                    None => None,
                };
                Ok(ResolveConflictsResult { winner, winner_rank, transferred, commemorations })
            },
        }
    }

    /// Whether the table holds a rule for each order of the pair and the two rules
    /// disagree, as they do for two doubles of the first class.
    pub open spec fn order_decides(self, other: Self) -> bool {
        &&& self.table_rule(other) matches Some(r1)
        &&& other.table_rule(self) matches Some(r2)
        &&& r2 != mirrored_result(r1)
    }

    /// Whether the table orders the pair although kind and numeric rank are the same: a
    /// feria that is an ember day against one that is none; two doubles of the first
    /// class, two semidoubles or two simples; two greater doubles or two doubles of which
    /// one is of Our Lord.
    pub open spec fn equals_decided(self, other: Self) -> bool {
        match (self, other) {
            (FeastRank54Inner::Feria { flags: f1, .. }, FeastRank54Inner::Feria { flags: f2, .. }) =>
                f1.ember_day != f2.ember_day,
            (FeastRank54Inner::Feast { rank, flags: f1 }, FeastRank54Inner::Feast { flags: f2, .. }) =>
                rank == FeastClass::FirstClassDouble || rank == FeastClass::Semidouble || rank
                    == FeastClass::Simple || ((rank == FeastClass::MajorDouble || rank
                    == FeastClass::Double) && (f1.of_our_lord || f2.of_our_lord)),
            _ => false,
        }
    }

    /// The two orders of a pair mirror each other: who wins, who is commemorated and who
    /// is transferred are the same observances whichever is named first, and a pair that
    /// cannot be ordered one way cannot be ordered the other way. This holds of every pair
    /// but those of `order_decides`.
    pub proof fn lemma_occurrence_mirrors(self, other: Self)
        requires
            !self.order_decides(other),
        ensures
            other.occurrence(self, true) == mirrored_result(self.occurrence(other, true)),
    {
    }

    /// On a pair of `order_decides` each order follows its own rule, so the two orders do
    /// not mirror each other.
    pub proof fn lemma_order_decides(self, other: Self)
        requires
            self.order_decides(other),
        ensures
            other.occurrence(self, true) != mirrored_result(self.occurrence(other, true)),
    {
    }

    /// Two doubles of the first class are a pair of `order_decides`: whichever is named
    /// first is transferred.
    pub proof fn lemma_first_class_doubles(f1: FeastFlags, f2: FeastFlags)
        ensures
            ({
                let a = FeastRank54Inner::Feast { rank: FeastClass::FirstClassDouble, flags: f1 };
                let b = FeastRank54Inner::Feast { rank: FeastClass::FirstClassDouble, flags: f2 };
                a.order_decides(b) && a.occurrence(b, true) == Ok::<OccurrenceResult, OccurrenceError>(
                    OccurrenceResult::SecondTransferOfFirst,
                ) && b.occurrence(a, true) == a.occurrence(b, true)
            }),
    {
    }

    /// Two observances of the same kind and numeric rank cannot be ordered, except the
    /// pairs of `equals_decided`, which the table orders.
    pub proof fn lemma_same_rank_is_error(self, other: Self)
        requires
            self.day_type() == other.day_type(),
            self.numeric_rank() == other.numeric_rank(),
        ensures
            self.occurrence(other, true) is Err <==> !self.equals_decided(other),
    {
    }
}

} // verus!
