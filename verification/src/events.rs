//! The append-only event log: immutable entries describing what happened in a
//! tick, and the read-only source/structure snapshots some events carry.

use vstd::prelude::*;
use crate::actions::{AgentId, DeathReason, Qi};
use crate::ore::OreKind;
use crate::space::Position;
use crate::structure::StructureKind;

verus! {

/// A read-only view of an ore source, as reported by scans.
#[derive(Clone, Copy, Debug, PartialEq, Eq, Structural)]
pub struct QiSourceSnapshot {
    pub id: u64,
    pub ore: OreKind,
    pub position: Position,
    pub available: Qi,
    pub capacity: Qi,
}

/// A read-only view of a structure, as reported by scans.
#[derive(Clone, Copy, Debug, PartialEq, Eq, Structural)]
pub struct StructureSnapshot {
    pub id: u64,
    pub kind: StructureKind,
    pub position: Position,
}

/// A log entry describing one thing that happened in a tick.
#[derive(Clone, Debug, PartialEq, Eq)]
pub enum Event {
    TickStarted { tick: u64 },
    TickCompleted { tick: u64 },
    AgentSpawned { agent_id: AgentId, name: String, qi: Qi, position: Position },
    QiSpent { agent_id: AgentId, amount: Qi, action: &'static str },
    OreGained { agent_id: AgentId, ore: OreKind, amount: Qi, source: &'static str },
    AgentMoved { agent_id: AgentId, from: Position, to: Position },
    AgentDied { agent_id: AgentId, reason: DeathReason },
    ActionObserved { agent_id: AgentId, action: &'static str },
    AgentReproduced { parent_a: AgentId, parent_b: AgentId, child_id: AgentId },
    StructureBuilt { agent_id: AgentId, kind: StructureKind, position: Position, structure_id: u64 },
    OreNodeHarvested { agent_id: AgentId, ore: OreKind, source_id: u64, amount: Qi, remaining: Qi },
    OreNodeDrained { ore: OreKind, source_id: u64, position: Position },
    ScanReport {
        agent_id: AgentId,
        position: Position,
        qi: Qi,
        nearby_qi_sources: Vec<QiSourceSnapshot>,
        nearby_structures: Vec<StructureSnapshot>,
    },
}

/// The mathematical form of an event: strings become character sequences and
/// vectors become sequences, so that specifications can build event values.
#[verifier::ext_equal]
pub enum EventV {
    TickStarted { tick: u64 },
    TickCompleted { tick: u64 },
    AgentSpawned { agent_id: AgentId, name: Seq<char>, qi: Qi, position: Position },
    QiSpent { agent_id: AgentId, amount: Qi, action: Seq<char> },
    OreGained { agent_id: AgentId, ore: OreKind, amount: Qi, source: Seq<char> },
    AgentMoved { agent_id: AgentId, from: Position, to: Position },
    AgentDied { agent_id: AgentId, reason: DeathReason },
    ActionObserved { agent_id: AgentId, action: Seq<char> },
    AgentReproduced { parent_a: AgentId, parent_b: AgentId, child_id: AgentId },
    StructureBuilt { agent_id: AgentId, kind: StructureKind, position: Position, structure_id: u64 },
    OreNodeHarvested { agent_id: AgentId, ore: OreKind, source_id: u64, amount: Qi, remaining: Qi },
    OreNodeDrained { ore: OreKind, source_id: u64, position: Position },
    ScanReport {
        agent_id: AgentId,
        position: Position,
        qi: Qi,
        nearby_qi_sources: Seq<QiSourceSnapshot>,
        nearby_structures: Seq<StructureSnapshot>,
    },
}

impl View for Event {
    type V = EventV;

    open spec fn view(&self) -> EventV {
        match self {
            Event::TickStarted { tick } => EventV::TickStarted { tick: *tick },
            Event::TickCompleted { tick } => EventV::TickCompleted { tick: *tick },
            Event::AgentSpawned { agent_id, name, qi, position } => EventV::AgentSpawned {
                agent_id: *agent_id,
                name: name@,
                qi: *qi,
                position: *position,
            },
            Event::QiSpent { agent_id, amount, action } => EventV::QiSpent {
                agent_id: *agent_id,
                amount: *amount,
                action: action@,
            },
            Event::OreGained { agent_id, ore, amount, source } => EventV::OreGained {
                agent_id: *agent_id,
                ore: *ore,
                amount: *amount,
                source: source@,
            },
            Event::AgentMoved { agent_id, from, to } => EventV::AgentMoved {
                agent_id: *agent_id,
                from: *from,
                to: *to,
            },
            Event::AgentDied { agent_id, reason } => EventV::AgentDied {
                agent_id: *agent_id,
                reason: *reason,
            },
            Event::ActionObserved { agent_id, action } => EventV::ActionObserved {
                agent_id: *agent_id,
                action: action@,
            },
            Event::AgentReproduced { parent_a, parent_b, child_id } => EventV::AgentReproduced {
                parent_a: *parent_a,
                parent_b: *parent_b,
                child_id: *child_id,
            },
            Event::StructureBuilt { agent_id, kind, position, structure_id } => EventV::StructureBuilt {
                agent_id: *agent_id,
                kind: *kind,
                position: *position,
                structure_id: *structure_id,
            },
            Event::OreNodeHarvested { agent_id, ore, source_id, amount, remaining } => EventV::OreNodeHarvested {
                agent_id: *agent_id,
                ore: *ore,
                source_id: *source_id,
                amount: *amount,
                remaining: *remaining,
            },
            Event::OreNodeDrained { ore, source_id, position } => EventV::OreNodeDrained {
                ore: *ore,
                source_id: *source_id,
                position: *position,
            },
            Event::ScanReport { agent_id, position, qi, nearby_qi_sources, nearby_structures } => EventV::ScanReport {
                agent_id: *agent_id,
                position: *position,
                qi: *qi,
                nearby_qi_sources: nearby_qi_sources@,
                nearby_structures: nearby_structures@,
            },
        }
    }
}

/// The mathematical form of a whole event sequence.
pub open spec fn events_view(s: Seq<Event>) -> Seq<EventV> {
    s.map_values(|e: Event| e@)
}

} // verus!
