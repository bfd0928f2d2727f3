//! Harvestable typed resource categories.

use vstd::prelude::*;

verus! {

/// A harvestable ore category: Qi (the energy resource itself) or Transistor
/// (a building material).
#[derive(Clone, Copy, Debug, PartialEq, Eq, Hash, Structural)]
pub enum OreKind {
    Qi,
    Transistor,
}

impl OreKind {
    /// The label of each kind, as a character sequence.
    pub open spec fn spec_label(self) -> Seq<char> {
        match self {
            OreKind::Qi => "qi"@,
            OreKind::Transistor => "transistor"@,
        }
    }

    pub fn label(self) -> (r: &'static str)
        ensures
            r@ == self.spec_label(),
    {
        match self {
            OreKind::Qi => "qi",
            OreKind::Transistor => "transistor",
        }
    }
}

impl Default for OreKind {
    fn default() -> (r: Self)
        ensures
            r == OreKind::Qi,
    {
        OreKind::Qi
    }
}

} // verus!
