//! The description of one observance on one day, as a calendar shows it.

use vstd::prelude::*;
use crate::date::Date;
use crate::feast_rank::FeastRank;
use crate::text::concat2;

verus! {

/// One observance on one day.
#[derive(Debug)]
pub struct LiturgicalUnit {
    /// What is kept.
    pub desc: String,
    /// The rank's name.
    pub rank: String,
    /// The day.
    pub date: Date,
    /// The liturgical color.
    pub color: String,
}

/// A `LiturgicalUnit` as a plain value: texts by their characters, the day by its number.
pub struct UnitView {
    pub desc: Seq<char>,
    pub rank: Seq<char>,
    pub date: int,
    pub color: Seq<char>,
}

impl View for LiturgicalUnit {
    type V = UnitView;

    open spec fn view(&self) -> UnitView {
        UnitView { desc: self.desc@, rank: self.rank@, date: self.date@, color: self.color@ }
    }
}

impl Clone for LiturgicalUnit {
    fn clone(&self) -> (out: Self)
        ensures
            out@ == self@,
    {
        LiturgicalUnit {
            desc: self.desc.clone(),
            rank: self.rank.clone(),
            date: self.date,
            color: self.color.clone(),
        }
    }
}

/// The units of a list, each as a plain value.
pub open spec fn unit_views(units: Seq<LiturgicalUnit>) -> Seq<UnitView> {
    units.map_values(|u: LiturgicalUnit| u@)
}

impl LiturgicalUnit {
    /// The same observance, marked as transferred from another day.
    pub fn transfered(&self) -> (out: Self)
        ensures
            out@ == (UnitView { desc: self@.desc + " (transferred)"@, ..self@ }),
    {
        LiturgicalUnit {
            desc: concat2(self.desc.as_str(), " (transferred)"),
            rank: self.rank.clone(),
            date: self.date,
            color: self.color.clone(),
        }
    }

    /// Gives the day to the Saturday office of the Blessed Virgin.
    pub fn bvm_on_saturday(&mut self)
        ensures
            final(self)@ == (UnitView { desc: "BVM on Saturday"@, ..old(self)@ }),
    {
        self.desc = String::from_str("BVM on Saturday");
    }

    /// The Saturday office of the Blessed Virgin as a commemoration of the day `date`,
    /// under the rank that the edition names for it; `None` where the edition names none.
    pub fn bvm_on_saturday_commemoration<R: FeastRank>(date: Date) -> (out: Option<Self>)
        ensures
            match R::saturday_rank() {
                Some(r) => out matches Some(u) && u@ == (UnitView {
                    desc: "BVM on Saturday"@,
                    rank: r.rank_text(),
                    date: date@,
                    color: "white"@,
                }),
                None => out is None,
            },
    {
        match R::get_bvm_on_saturday_rank() {
            Some(rank) => Some(
                LiturgicalUnit {
                    desc: String::from_str("BVM on Saturday"),
                    rank: rank.get_rank_string(),
                    date,
                    color: String::from_str("white"),
                },
            ),
            None => None,
        }
    }
}

} // verus!
