//! Per-tick action requests, their costs, and the typed rejections they can
//! produce.

use vstd::prelude::*;
use vstd::string::StringExecFns;
use crate::ore::OreKind;
use crate::space::Position;
use crate::structure::StructureKind;
use crate::strutil::{i64_dec, push_i64_dec, push_u64_dec, u64_dec};

verus! {

/// Unique, monotonic identifier of an agent; never reused.
pub type AgentId = u64;

/// A quantity of the Qi resource (also used for ore amounts).
pub type Qi = u32;

/// One action an agent can attempt in a tick.
#[derive(Clone, Copy, Debug, PartialEq, Eq, Structural)]
pub enum Action {
    Scan,
    Move { dx: i32, dy: i32, dz: i32 },
    Reproduce { partner: AgentId },
    BuildStructure { kind: StructureKind },
    HarvestOre { ore: OreKind, source_id: u64 },
    Idle,
}

impl Action {
    /// The Qi charged up-front for the action (harvest and build); moving and
    /// reproducing charge their single Qi inside their own rules.
    pub open spec fn spec_qi_cost(self) -> Qi {
        match self {
            Action::Scan | Action::Idle => 0u32,
            Action::Move { .. } => 0u32,
            Action::Reproduce { .. } => 0u32,
            Action::BuildStructure { .. } => 1u32,
            Action::HarvestOre { .. } => 1u32,
        }
    }

    pub fn qi_cost(&self) -> (r: Qi)
        ensures
            r == self.spec_qi_cost(),
    {
        match self {
            Action::Scan | Action::Idle => 0,
            Action::Move { .. } => 0,
            Action::Reproduce { .. } => 0,
            Action::BuildStructure { .. } => 1,
            Action::HarvestOre { .. } => 1,
        }
    }

    /// The label of each action, as a character sequence.
    pub open spec fn spec_label(self) -> Seq<char> {
        match self {
            Action::Scan => "scan"@,
            Action::Move { .. } => "move"@,
            Action::Reproduce { .. } => "reproduce"@,
            Action::BuildStructure { .. } => "build_structure"@,
            Action::HarvestOre { .. } => "harvest"@,
            Action::Idle => "idle"@,
        }
    }

    pub fn label(&self) -> (r: &'static str)
        ensures
            r@ == self.spec_label(),
    {
        match self {
            Action::Scan => "scan",
            Action::Move { .. } => "move",
            Action::Reproduce { .. } => "reproduce",
            Action::BuildStructure { .. } => "build_structure",
            Action::HarvestOre { .. } => "harvest",
            Action::Idle => "idle",
        }
    }
}

/// One `(agent, action)` pair of a tick's batch.
#[derive(Clone, Copy, Debug, PartialEq, Eq, Structural)]
pub struct ActionRequest {
    pub agent_id: AgentId,
    pub action: Action,
}

impl ActionRequest {
    pub fn new(agent_id: AgentId, action: Action) -> (r: Self)
        ensures
            r == (ActionRequest { agent_id, action }),
    {
        Self { agent_id, action }
    }
}

/// Why an agent died.
#[derive(Clone, Copy, Debug, PartialEq, Eq, Structural)]
pub enum DeathReason {
    Age,
    Hazard,
    Corruption,
}

/// A typed, non-fatal rejection of a single action request. Each variant
/// carries enough context to reconstruct why the action failed.
#[derive(Clone, Copy, Debug, PartialEq, Eq)]
pub enum ActionError {
    AgentNotFound(AgentId),
    AgentDead(AgentId),
    InsufficientQi { agent_id: AgentId, required: Qi, available: Qi },
    InsufficientOre { agent_id: AgentId, ore: OreKind, required: Qi, available: Qi },
    InvalidPow { agent_id: AgentId, nonce: u64 },
    PositionOccupied { agent_id: AgentId, target: Position, occupied_by: AgentId },
    ReproductionDeclined { agent_id: AgentId, partner: AgentId },
    PartnerNotFound { agent_id: AgentId, partner: AgentId },
    PartnerOutOfZone { agent_id: AgentId, partner: AgentId },
    StructureSpaceOccupied { agent_id: AgentId, position: Position },
    OreSourceUnavailable { agent_id: AgentId, ore: OreKind, source_id: Option<u64> },
    OreSourceDepleted { agent_id: AgentId, ore: OreKind, source_id: u64, available: Qi },
    MoveOutOfRange { agent_id: AgentId, dx: i32, dy: i32, dz: i32 },
}

/// A rejected request together with its error.
#[derive(Clone, Copy, Debug, PartialEq, Eq)]
pub struct ActionRejection {
    pub request: ActionRequest,
    pub error: ActionError,
}

impl ActionError {
    /// The human-readable account of each rejection.
    pub open spec fn spec_describe(self) -> Seq<char> {
        match self {
            ActionError::AgentNotFound(id) => "agent "@ + u64_dec(id as int) + " not found"@,
            ActionError::AgentDead(id) => "agent "@ + u64_dec(id as int) + " is dead"@,
            ActionError::InsufficientQi { agent_id, required, available } => "agent "@ + u64_dec(
                agent_id as int,
            ) + " has insufficient qi: required "@ + u64_dec(required as int) + ", available "@
                + u64_dec(available as int),
            ActionError::InsufficientOre { agent_id, ore, required, available } => "agent "@
                + u64_dec(agent_id as int) + " has insufficient "@ + ore.spec_label()
                + ": required "@ + u64_dec(required as int) + ", available "@ + u64_dec(
                available as int,
            ),
            ActionError::InvalidPow { agent_id, nonce } => "invalid PoW for agent "@ + u64_dec(
                agent_id as int,
            ) + " with nonce "@ + u64_dec(nonce as int),
            ActionError::PositionOccupied { agent_id, target, occupied_by } => "agent "@ + u64_dec(
                agent_id as int,
            ) + " cannot move to occupied position ("@ + i64_dec(target.x as int) + ", "@
                + i64_dec(target.y as int) + ", "@ + i64_dec(target.z as int) + ") held by "@
                + u64_dec(occupied_by as int),
            ActionError::ReproductionDeclined { agent_id, partner } => "agent "@ + u64_dec(
                agent_id as int,
            ) + " reproduction declined/not mutually agreed with "@ + u64_dec(partner as int),
            ActionError::PartnerNotFound { agent_id, partner } => "agent "@ + u64_dec(
                agent_id as int,
            ) + " reproduction partner "@ + u64_dec(partner as int) + " not found"@,
            ActionError::PartnerOutOfZone { agent_id, partner } => "agent "@ + u64_dec(
                agent_id as int,
            ) + " reproduction partner "@ + u64_dec(partner as int) + " not in same zone"@,
            ActionError::StructureSpaceOccupied { agent_id, position } => "agent "@ + u64_dec(
                agent_id as int,
            ) + " cannot build structure at ("@ + i64_dec(position.x as int) + ", "@ + i64_dec(
                position.y as int,
            ) + ", "@ + i64_dec(position.z as int) + ") (occupied)"@,
            ActionError::OreSourceUnavailable { agent_id, ore, source_id } => match source_id {
                Some(id) => "agent "@ + u64_dec(agent_id as int) + " cannot harvest "@
                    + ore.spec_label() + " source "@ + u64_dec(id as int)
                    + " (unavailable or out of range)"@,
                None => "agent "@ + u64_dec(agent_id as int) + " has no "@ + ore.spec_label()
                    + " source in range to harvest"@,
            },
            ActionError::OreSourceDepleted { agent_id, ore, source_id, available } => "agent "@
                + u64_dec(agent_id as int) + " cannot harvest depleted "@ + ore.spec_label()
                + " source "@ + u64_dec(source_id as int) + " (available "@ + u64_dec(
                available as int,
            ) + "; need >= 3)"@,
            ActionError::MoveOutOfRange { agent_id, dx, dy, dz } => "agent "@ + u64_dec(
                agent_id as int,
            ) + " move exceeds max radius 3 (requested "@ + i64_dec(dx as int) + ","@ + i64_dec(
                dy as int,
            ) + ","@ + i64_dec(dz as int) + " )"@,
        }
    }

    /// Render the rejection as a sentence naming the agent, the amounts and
    /// the target involved.
    pub fn describe(&self) -> (r: String)
        ensures
            r@ == self.spec_describe(),
    {
        let mut s = String::new();
        match *self {
            ActionError::AgentNotFound(id) => {
                s.append("agent ");
                push_u64_dec(&mut s, id);
                s.append(" not found");
            },
            ActionError::AgentDead(id) => {
                s.append("agent ");
                push_u64_dec(&mut s, id);
                s.append(" is dead");
            },
            ActionError::InsufficientQi { agent_id, required, available } => {
                s.append("agent ");
                push_u64_dec(&mut s, agent_id);
                s.append(" has insufficient qi: required ");
                push_u64_dec(&mut s, required as u64);
                s.append(", available ");
                push_u64_dec(&mut s, available as u64);
            },
            ActionError::InsufficientOre { agent_id, ore, required, available } => {
                s.append("agent ");
                push_u64_dec(&mut s, agent_id);
                s.append(" has insufficient ");
                s.append(ore.label());
                s.append(": required ");
                push_u64_dec(&mut s, required as u64);
                s.append(", available ");
                push_u64_dec(&mut s, available as u64);
            },
            ActionError::InvalidPow { agent_id, nonce } => {
                s.append("invalid PoW for agent ");
                push_u64_dec(&mut s, agent_id);
                s.append(" with nonce ");
                push_u64_dec(&mut s, nonce);
            },
            ActionError::PositionOccupied { agent_id, target, occupied_by } => {
                s.append("agent ");
                push_u64_dec(&mut s, agent_id);
                s.append(" cannot move to occupied position (");
                push_i64_dec(&mut s, target.x as i64);
                s.append(", ");
                push_i64_dec(&mut s, target.y as i64);
                s.append(", ");
                push_i64_dec(&mut s, target.z as i64);
                s.append(") held by ");
                push_u64_dec(&mut s, occupied_by);
            },
            ActionError::ReproductionDeclined { agent_id, partner } => {
                s.append("agent ");
                push_u64_dec(&mut s, agent_id);
                s.append(" reproduction declined/not mutually agreed with ");
                push_u64_dec(&mut s, partner);
            },
            ActionError::PartnerNotFound { agent_id, partner } => {
                s.append("agent ");
                push_u64_dec(&mut s, agent_id);
                s.append(" reproduction partner ");
                push_u64_dec(&mut s, partner);
                s.append(" not found");
            },
            ActionError::PartnerOutOfZone { agent_id, partner } => {
                s.append("agent ");
                push_u64_dec(&mut s, agent_id);
                s.append(" reproduction partner ");
                push_u64_dec(&mut s, partner);
                s.append(" not in same zone");
            },
            ActionError::StructureSpaceOccupied { agent_id, position } => {
                s.append("agent ");
                push_u64_dec(&mut s, agent_id);
                s.append(" cannot build structure at (");
                push_i64_dec(&mut s, position.x as i64);
                s.append(", ");
                push_i64_dec(&mut s, position.y as i64);
                s.append(", ");
                push_i64_dec(&mut s, position.z as i64);
                s.append(") (occupied)");
            },
            ActionError::OreSourceUnavailable { agent_id, ore, source_id } => {
                match source_id {
                    Some(id) => {
                        s.append("agent ");
                        push_u64_dec(&mut s, agent_id);
                        s.append(" cannot harvest ");
                        s.append(ore.label());
                        s.append(" source ");
                        push_u64_dec(&mut s, id);
                        s.append(" (unavailable or out of range)");
                    },
                    None => {
                        s.append("agent ");
                        push_u64_dec(&mut s, agent_id);
                        s.append(" has no ");
                        s.append(ore.label());
                        s.append(" source in range to harvest");
                    },
                }
            },
            ActionError::OreSourceDepleted { agent_id, ore, source_id, available } => {
                s.append("agent ");
                push_u64_dec(&mut s, agent_id);
                s.append(" cannot harvest depleted ");
                s.append(ore.label());
                s.append(" source ");
                push_u64_dec(&mut s, source_id);
                s.append(" (available ");
                push_u64_dec(&mut s, available as u64);
                s.append("; need >= 3)");
            },
            ActionError::MoveOutOfRange { agent_id, dx, dy, dz } => {
                s.append("agent ");
                push_u64_dec(&mut s, agent_id);
                s.append(" move exceeds max radius 3 (requested ");
                push_i64_dec(&mut s, dx as i64);
                s.append(",");
                push_i64_dec(&mut s, dy as i64);
                s.append(",");
                push_i64_dec(&mut s, dz as i64);
                s.append(" )");
            },
        }
        proof {
            assert(s@ =~= self.spec_describe());
        }
        s
    }
}

} // verus!
