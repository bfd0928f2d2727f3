//! Persistent records of seeded ore sources.

use vstd::prelude::*;
use crate::actions::Qi;
use crate::ore::OreKind;
use crate::space::Position;

verus! {

/// A persisted ore-source record: where a source stands and how it
/// recharges.
#[derive(Debug, Clone, Copy, PartialEq, Eq, Structural)]
pub struct QiSourceSpec {
    pub position: Position,
    pub capacity: Qi,
    pub recharge_per_tick: Qi,
    pub ore: OreKind,
}

/// The persistent collection of source records, with the running total of
/// Qi ever infused.
#[derive(Debug, Clone, Default)]
pub struct QiSourceStore {
    pub sources: Vec<QiSourceSpec>,
    pub total_qi_infused: u64,
}

/// An area to scatter sources over: a cube of the given radius around a
/// center.
#[derive(Debug, Clone, Copy, PartialEq, Eq, Structural)]
pub struct Spread {
    pub center: Position,
    pub radius: i32,
}

impl Default for Spread {
    fn default() -> (r: Self)
        ensures
            r.center == (Position { x: 0, y: 0, z: 0 }),
            r.radius == 8,
    {
        Spread { center: Position { x: 0, y: 0, z: 0 }, radius: 8 }
    }
}

} // verus!
