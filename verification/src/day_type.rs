//! The kinds of liturgical day that a rank code can belong to.

use vstd::prelude::*;

verus! {

/// The kind of day that a rank code is read for.
#[derive(Debug, Clone, Copy, PartialEq, Eq, Structural)]
pub enum DayType {
    Octave,
    Feria,
    Feast,
    Sunday,
    Vigil,
}

} // verus!
