//! Verified core of a small energy-usage importer.
//!
//! The library models an account's meter topology, extracts product codes
//! from tariff codes, maps consumption and unit-rate records to time-series
//! points, and plans the sequence of import tasks a run performs, aborting
//! on the first failed write. All network and database I/O lives outside
//! the library and exchanges plain values with it.

pub mod model;
pub mod orchestrator;
pub mod pattern;
pub mod point;

use vstd::prelude::*;

verus! {

/// The kind of meter a meter point carries.
#[derive(Clone, Copy, PartialEq, Eq, Structural, Debug)]
pub enum MeterKind {
    Electricity,
    Gas,
}

impl MeterKind {
    /// The tag value that identifies this meter kind in a time-series point.
    pub open spec fn spec_label(self) -> Seq<char> {
        match self {
            MeterKind::Electricity => "Electricity"@,
            MeterKind::Gas => "Gas"@,
        }
    }

    /// Returns the tag value for this meter kind.
    pub fn label(self) -> (r: String)
        ensures
            r@ == self.spec_label(),
    {
        match self {
            MeterKind::Electricity => "Electricity".to_owned(),
            MeterKind::Gas => "Gas".to_owned(),
        }
    }
}

/// The two labels never coincide, so a point's `meter_type` tag determines
/// the meter kind.
pub proof fn lemma_label_injective(a: MeterKind, b: MeterKind)
    requires
        a.spec_label() == b.spec_label(),
    ensures
        a == b,
{
    reveal_strlit("Electricity");
    reveal_strlit("Gas");
    assert("Electricity"@.len() == 11);
    assert("Gas"@.len() == 3);
}

} // verus!
