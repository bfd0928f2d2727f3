//! Placed, owned, positioned artifacts and their persistent records.

use vstd::prelude::*;
use crate::space::{Position, Zone};

verus! {

/// The kind of a placed structure.
#[derive(Clone, Copy, Debug, PartialEq, Eq, Structural)]
pub enum StructureKind {
    Basic,
    Programmable,
    Qi,
}

impl StructureKind {
    /// The label of each kind, as a character sequence.
    pub open spec fn spec_label(self) -> Seq<char> {
        match self {
            StructureKind::Basic => "basic"@,
            StructureKind::Programmable => "programmable"@,
            StructureKind::Qi => "qi"@,
        }
    }

    pub fn label(self) -> (r: &'static str)
        ensures
            r@ == self.spec_label(),
    {
        match self {
            StructureKind::Basic => "basic",
            StructureKind::Programmable => "programmable",
            StructureKind::Qi => "qi",
        }
    }
}

/// A structure standing in the world. Immutable once created.
#[derive(Clone, Copy, Debug, PartialEq, Eq, Structural)]
pub struct Structure {
    pub id: u64,
    pub kind: StructureKind,
    pub position: Position,
    pub zone: Zone,
    pub owner: u64,
}

/// The persistent form of a structure.
#[derive(Clone, Copy, Debug, PartialEq, Eq, Structural)]
pub struct StructureRecord {
    pub id: u64,
    pub kind: StructureKind,
    pub position: Position,
    pub zone: Zone,
    pub owner: u64,
}

/// The persistent collection of structure records.
#[derive(Clone, Debug)]
pub struct StructureStore {
    pub structures: Vec<StructureRecord>,
}

impl Default for StructureStore {
    fn default() -> (r: Self)
        ensures
            r.structures@ == Seq::<StructureRecord>::empty(),
    {
        StructureStore { structures: Vec::new() }
    }
}

} // verus!
