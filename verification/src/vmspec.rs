//! The tick engine's transition function, in mathematical form: what one
//! request does to the world, and what a whole `step` does.

use vstd::prelude::*;
use crate::actions::{Action, ActionError, ActionRejection, ActionRequest};
use crate::events::EventV;
use crate::model::{
    child_name, imin, occupied_at, occupant_index, sat_add_u64, spec_recharge, spec_spawn, AgentV,
    WorldV,
};
use crate::ore::OreKind;
use crate::space::{iabs, Position, MAX_MOVE_RADIUS, SCAN_RANGE, HARVEST_RANGE};
use crate::structure::{Structure, StructureKind};
use crate::world::{
    spec_nearby_sources, spec_nearby_structures, spec_nearest_source, QiSource,
    DEFAULT_MAX_AGENT_AGE, HARVEST_PER_ACTION,
};

verus! {

/// The outcome of resolving one request: the world after it, the tick events
/// it produced, its rejection if it failed, and the mutual pairs that have
/// reproduced so far in the tick.
#[verifier::ext_equal]
pub struct ApplyOut {
    pub world: WorldV,
    pub events: Seq<EventV>,
    pub rejection: Option<ActionError>,
    pub fired: Seq<(u64, u64)>,
}

/// The partner an agent declared this tick: the last `Reproduce` request it
/// submitted, if any.
pub open spec fn spec_intent(reqs: Seq<ActionRequest>, a: u64) -> Option<u64>
    decreases reqs.len(),
{
    if reqs.len() == 0 {
        None
    } else {
        let last = reqs.last();
        if last.agent_id == a {
            match last.action {
                Action::Reproduce { partner } => Some(partner),
                _ => spec_intent(reqs.drop_last(), a),
            }
        } else {
            spec_intent(reqs.drop_last(), a)
        }
    }
}

/// Mutual consent: each of the two declared the other as partner in the same
/// tick's batch.
pub open spec fn spec_mutual(reqs: Seq<ActionRequest>, x: u64, y: u64) -> bool {
    spec_intent(reqs, x) == Some(y) && spec_intent(reqs, y) == Some(x)
}

/// The canonical (smaller id first) form of a reproduction pair.
pub open spec fn sorted_pair(a: u64, b: u64) -> (u64, u64) {
    if a < b {
        (a, b)
    } else {
        (b, a)
    }
}

/// One more tick of age, saturating at the numeric limit.
pub open spec fn age_bump(age: u64) -> u64 {
    if age < u64::MAX {
        (age + 1) as u64
    } else {
        age
    }
}

/// The Chebyshev magnitude of a move request.
pub open spec fn move_delta(dx: int, dy: int, dz: int) -> int {
    let ax = iabs(dx);
    let ay = iabs(dy);
    let az = iabs(dz);
    if ax >= ay && ax >= az {
        ax
    } else if ay >= az {
        ay
    } else {
        az
    }
}

/// Whether any structure stands at `p`.
pub open spec fn structure_at(structures: Seq<Structure>, p: Position) -> bool {
    exists|j: int| 0 <= j < structures.len() && structures[j].position == p
}

/// A successful no-op outcome: the agent ages, nothing else changes.
pub open spec fn apply_age_only(w: WorldV, idx: int, fired: Seq<(u64, u64)>) -> ApplyOut {
    let a = w.agents[idx];
    let agent = AgentV { age: age_bump(a.age), ..a };
    ApplyOut {
        world: WorldV { agents: w.agents.update(idx, agent), ..w },
        events: Seq::empty(),
        rejection: None,
        fired,
    }
}

/// A rejection outcome: the world is untouched.
pub open spec fn apply_rejected(w: WorldV, e: ActionError, fired: Seq<(u64, u64)>) -> ApplyOut {
    ApplyOut { world: w, events: Seq::empty(), rejection: Some(e), fired }
}

/// Resolving a `Move` request.
pub open spec fn spec_apply_move(
    w: WorldV,
    idx: int,
    dx: i32,
    dy: i32,
    dz: i32,
    fired: Seq<(u64, u64)>,
) -> ApplyOut {
    let a = w.agents[idx];
    if move_delta(dx as int, dy as int, dz as int) > MAX_MOVE_RADIUS as int {
        apply_rejected(
            w,
            ActionError::MoveOutOfRange { agent_id: a.id, dx, dy, dz },
            fired,
        )
    } else {
        let from = a.position;
        let to = from.spec_offset(dx as int, dy as int, dz as int);
        if occupied_at(w.agents, to) && w.agents[occupant_index(w.agents, to)].id != a.id {
            apply_rejected(
                w,
                ActionError::PositionOccupied {
                    agent_id: a.id,
                    target: to,
                    occupied_by: w.agents[occupant_index(w.agents, to)].id,
                },
                fired,
            )
        } else if a.qi < 1 {
            apply_rejected(
                w,
                ActionError::InsufficientQi { agent_id: a.id, required: 1, available: a.qi },
                fired,
            )
        } else {
            let zones = if from.spec_zone() != to.spec_zone() && !a.discovered_zones.contains(
                to.spec_zone(),
            ) {
                a.discovered_zones.push(to.spec_zone())
            } else {
                a.discovered_zones
            };
            let agent = AgentV {
                qi: (a.qi - 1) as u32,
                position: to,
                discovered_zones: zones,
                age: age_bump(a.age),
                ..a
            };
            ApplyOut {
                world: WorldV {
                    agents: w.agents.update(idx, agent),
                    recycled_qi: sat_add_u64(w.recycled_qi as int, 1) as u64,
                    ..w
                },
                events: seq![
                    EventV::QiSpent { agent_id: a.id, amount: 1u32, action: "move"@ },
                    EventV::AgentMoved { agent_id: a.id, from, to },
                ],
                rejection: None,
                fired,
            }
        }
    }
}

/// Resolving a `Scan` request: free, and reports everything within scan
/// range of the agent, with its current Qi.
pub open spec fn spec_apply_scan(w: WorldV, idx: int, fired: Seq<(u64, u64)>) -> ApplyOut {
    let a = w.agents[idx];
    let agent = AgentV { age: age_bump(a.age), ..a };
    ApplyOut {
        world: WorldV { agents: w.agents.update(idx, agent), ..w },
        events: seq![
            EventV::ActionObserved { agent_id: a.id, action: "scan"@ },
            EventV::ScanReport {
                agent_id: a.id,
                position: a.position,
                qi: a.qi,
                nearby_qi_sources: spec_nearby_sources(w.qi_sources, a.position, SCAN_RANGE as int),
                nearby_structures: spec_nearby_structures(
                    w.structures,
                    a.position,
                    SCAN_RANGE as int,
                ),
            },
        ],
        rejection: None,
        fired,
    }
}

/// Resolving a `Reproduce` request. Partner existence, aliveness and zone are
/// judged against the pre-tick snapshot `snap`; consent must be mutual in
/// this tick's batch; the initiator pays 1 Qi; the pair produces exactly one
/// child per tick, so the later of the two requests is a free no-op.
pub open spec fn spec_apply_reproduce(
    w: WorldV,
    snap: Seq<AgentV>,
    reqs: Seq<ActionRequest>,
    idx: int,
    partner: u64,
    fired: Seq<(u64, u64)>,
) -> ApplyOut {
    let a = w.agents[idx];
    if !(1 <= partner <= snap.len()) {
        apply_rejected(w, ActionError::PartnerNotFound { agent_id: a.id, partner }, fired)
    } else {
        let p = snap[partner - 1];
        if !p.alive {
            apply_rejected(w, ActionError::PartnerNotFound { agent_id: a.id, partner }, fired)
        } else if a.position.spec_zone() != p.position.spec_zone() {
            apply_rejected(w, ActionError::PartnerOutOfZone { agent_id: a.id, partner }, fired)
        } else if !spec_mutual(reqs, a.id, partner) {
            apply_rejected(w, ActionError::ReproductionDeclined { agent_id: a.id, partner }, fired)
        } else if fired.contains(sorted_pair(a.id, partner)) {
            apply_age_only(w, idx, fired)
        } else if a.qi < 1 {
            apply_rejected(
                w,
                ActionError::InsufficientQi { agent_id: a.id, required: 1, available: a.qi },
                fired,
            )
        } else {
            let agent = AgentV { qi: (a.qi - 1) as u32, age: age_bump(a.age), ..a };
            let w1 = WorldV {
                agents: w.agents.update(idx, agent),
                recycled_qi: sat_add_u64(w.recycled_qi as int, 1) as u64,
                ..w
            };
            let spawned = spec_spawn(
                w1,
                child_name(a.id, partner),
                1u32,
                a.position,
                DEFAULT_MAX_AGENT_AGE,
            );
            ApplyOut {
                world: spawned.0,
                events: seq![
                    EventV::QiSpent { agent_id: a.id, amount: 1u32, action: "reproduce"@ },
                    EventV::AgentReproduced {
                        parent_a: a.id,
                        parent_b: partner,
                        child_id: spawned.1,
                    },
                ],
                rejection: None,
                fired: fired.push(sorted_pair(a.id, partner)),
            }
        }
    }
}

/// Resolving a `BuildStructure` request. Programmable structures consume one
/// Transistor ore, checked before the Qi cost; the request is all-or-nothing.
pub open spec fn spec_apply_build(
    w: WorldV,
    idx: int,
    kind: StructureKind,
    fired: Seq<(u64, u64)>,
) -> ApplyOut {
    let a = w.agents[idx];
    if structure_at(w.structures, a.position) {
        apply_rejected(
            w,
            ActionError::StructureSpaceOccupied { agent_id: a.id, position: a.position },
            fired,
        )
    } else if kind == StructureKind::Programmable && a.transistors < 1 {
        apply_rejected(
            w,
            ActionError::InsufficientOre {
                agent_id: a.id,
                ore: OreKind::Transistor,
                required: 1,
                available: a.transistors,
            },
            fired,
        )
    } else if a.qi < 1 {
        apply_rejected(
            w,
            ActionError::InsufficientQi { agent_id: a.id, required: 1, available: a.qi },
            fired,
        )
    } else {
        let agent = AgentV {
            qi: (a.qi - 1) as u32,
            transistors: if kind == StructureKind::Programmable {
                (a.transistors - 1) as u32
            } else {
                a.transistors
            },
            age: age_bump(a.age),
            ..a
        };
        let sid = (w.structures.len() + 1) as u64;
        let st = Structure {
            id: sid,
            kind,
            position: a.position,
            zone: a.position.spec_zone(),
            owner: a.id,
        };
        ApplyOut {
            world: WorldV {
                agents: w.agents.update(idx, agent),
                structures: w.structures.push(st),
                recycled_qi: sat_add_u64(w.recycled_qi as int, 1) as u64,
                ..w
            },
            events: seq![
                EventV::QiSpent { agent_id: a.id, amount: 1u32, action: "build_structure"@ },
                EventV::StructureBuilt {
                    agent_id: a.id,
                    kind,
                    position: a.position,
                    structure_id: sid,
                },
            ],
            rejection: None,
            fired,
        }
    }
}

/// The source a harvest request addresses: the nearest eligible one when no
/// id is given, otherwise the source with that id and kind.
pub open spec fn harvest_selected(
    sources: Seq<QiSource>,
    ore: OreKind,
    p: Position,
    source_id: u64,
) -> Option<QiSource> {
    if source_id == 0 {
        spec_nearest_source(sources, ore, p)
    } else {
        if 1 <= source_id <= sources.len() && sources[source_id - 1].ore == ore {
            Some(sources[source_id - 1])
        } else {
            None
        }
    }
}

/// Resolving a `HarvestOre` request: costs 1 Qi, drains
/// `min(available, HARVEST_PER_ACTION)` from the source, credits the agent's
/// matching balance, and is rejected outright when the source holds less
/// than `HARVEST_PER_ACTION`.
pub open spec fn spec_apply_harvest(
    w: WorldV,
    idx: int,
    ore: OreKind,
    source_id: u64,
    fired: Seq<(u64, u64)>,
) -> ApplyOut {
    let a = w.agents[idx];
    let unavailable = ActionError::OreSourceUnavailable {
        agent_id: a.id,
        ore,
        source_id: if source_id != 0 {
            Some(source_id)
        } else {
            None
        },
    };
    match harvest_selected(w.qi_sources, ore, a.position, source_id) {
        None => apply_rejected(w, unavailable, fired),
        Some(src) => {
            if !a.position.spec_within_range(src.position, HARVEST_RANGE as int) {
                apply_rejected(w, unavailable, fired)
            } else if src.current < HARVEST_PER_ACTION {
                apply_rejected(
                    w,
                    ActionError::OreSourceDepleted {
                        agent_id: a.id,
                        ore,
                        source_id: src.id,
                        available: src.current,
                    },
                    fired,
                )
            } else if a.qi < 1 {
                apply_rejected(
                    w,
                    ActionError::InsufficientQi { agent_id: a.id, required: 1, available: a.qi },
                    fired,
                )
            } else {
                let amount = imin(src.current as int, HARVEST_PER_ACTION as int) as u32;
                let remaining = (src.current - amount) as u32;
                let src2 = QiSource { current: remaining, ..src };
                let spent = AgentV { qi: (a.qi - 1) as u32, age: age_bump(a.age), ..a };
                let agent = match ore {
                    OreKind::Qi => AgentV {
                        qi: crate::model::sat_add_u32(spent.qi as int, amount as int) as u32,
                        ..spent
                    },
                    OreKind::Transistor => AgentV {
                        transistors: crate::model::sat_add_u32(
                            spent.transistors as int,
                            amount as int,
                        ) as u32,
                        ..spent
                    },
                };
                let drained: Seq<EventV> = if remaining == 0 {
                    seq![
                        EventV::OreNodeDrained { ore, source_id: src.id, position: src.position },
                    ]
                } else {
                    Seq::empty()
                };
                ApplyOut {
                    world: WorldV {
                        agents: w.agents.update(idx, agent),
                        qi_sources: w.qi_sources.update(src.id - 1, src2),
                        recycled_qi: sat_add_u64(w.recycled_qi as int, 1) as u64,
                        ..w
                    },
                    events: seq![
                        EventV::QiSpent { agent_id: a.id, amount: 1u32, action: "harvest"@ },
                        EventV::OreGained { agent_id: a.id, ore, amount, source: "ore_node"@ },
                        EventV::OreNodeHarvested {
                            agent_id: a.id,
                            ore,
                            source_id: src.id,
                            amount,
                            remaining,
                        },
                    ] + drained,
                    rejection: None,
                    fired,
                }
            }
        },
    }
}

/// Resolving one request: look the agent up, reject for missing or dead
/// agents, and otherwise apply the action's own rules. Every success ages
/// the agent by one tick.
#[verifier::opaque]
pub open spec fn spec_apply(
    w: WorldV,
    snap: Seq<AgentV>,
    reqs: Seq<ActionRequest>,
    req: ActionRequest,
    fired: Seq<(u64, u64)>,
) -> ApplyOut {
    if !(1 <= req.agent_id <= w.agents.len()) {
        apply_rejected(w, ActionError::AgentNotFound(req.agent_id), fired)
    } else {
        let idx = req.agent_id - 1;
        if !w.agents[idx].alive {
            apply_rejected(w, ActionError::AgentDead(req.agent_id), fired)
        } else {
            match req.action {
                Action::Move { dx, dy, dz } => spec_apply_move(w, idx, dx, dy, dz, fired),
                Action::Scan => spec_apply_scan(w, idx, fired),
                Action::Reproduce { partner } => spec_apply_reproduce(
                    w,
                    snap,
                    reqs,
                    idx,
                    partner,
                    fired,
                ),
                Action::BuildStructure { kind } => spec_apply_build(w, idx, kind, fired),
                Action::HarvestOre { ore, source_id } => spec_apply_harvest(
                    w,
                    idx,
                    ore,
                    source_id,
                    fired,
                ),
                Action::Idle => apply_age_only(w, idx, fired),
            }
        }
    }
}

/// Resolving requests `i..` in batch order, accumulating tick events and
/// rejections.
pub open spec fn spec_run(
    w: WorldV,
    snap: Seq<AgentV>,
    reqs: Seq<ActionRequest>,
    i: int,
    fired: Seq<(u64, u64)>,
) -> (WorldV, Seq<EventV>, Seq<ActionRejection>)
    decreases reqs.len() - i,
{
    if i < 0 || i >= reqs.len() {
        (w, Seq::empty(), Seq::empty())
    } else {
        let out = spec_apply(w, snap, reqs, reqs[i], fired);
        let rest = spec_run(out.world, snap, reqs, i + 1, out.fired);
        let rejs: Seq<ActionRejection> = match out.rejection {
            Some(e) => seq![ActionRejection { request: reqs[i], error: e }],
            None => Seq::empty(),
        };
        (rest.0, out.events + rest.1, rejs + rest.2)
    }
}

/// The age sweep at the end of a tick: every alive agent at or past its
/// lifespan is marked dead and its death is logged, in id order.
pub open spec fn spec_enforce_age(w: WorldV, i: int) -> (WorldV, Seq<EventV>)
    decreases w.agents.len() - i,
{
    if i < 0 || i >= w.agents.len() {
        (w, Seq::empty())
    } else {
        let a = w.agents[i];
        if a.alive && a.age >= a.max_age {
            let w1 = WorldV {
                agents: w.agents.update(i, AgentV { alive: false, ..a }),
                ..w
            };
            let rest = spec_enforce_age(w1, i + 1);
            (
                rest.0,
                seq![
                    EventV::AgentDied { agent_id: a.id, reason: crate::actions::DeathReason::Age },
                ] + rest.1,
            )
        } else {
            spec_enforce_age(w, i + 1)
        }
    }
}

/// Killing an agent outright: a live agent is marked dead and its death is
/// logged at once; a dead one is left as it is.
pub open spec fn spec_kill(
    w: WorldV,
    agent_id: u64,
    reason: crate::actions::DeathReason,
) -> WorldV {
    if 1 <= agent_id <= w.agents.len() && w.agents[agent_id - 1].alive {
        WorldV {
            agents: w.agents.update(
                agent_id - 1,
                AgentV { alive: false, ..w.agents[agent_id - 1] },
            ),
            events: w.events.push(EventV::AgentDied { agent_id, reason }),
            ..w
        }
    } else {
        w
    }
}

/// The outcome of a whole tick.
#[verifier::ext_equal]
pub struct StepOut {
    pub world: WorldV,
    pub tick: u64,
    pub events: Seq<EventV>,
    pub rejections: Seq<ActionRejection>,
}

/// One discrete tick: the tick number advances, sources recharge before any
/// agent acts, the batch resolves in request order against the pre-tick
/// snapshot for reproduction checks, over-age agents die, and the tick's
/// events are appended to the permanent log.
pub open spec fn spec_step(w: WorldV, reqs: Seq<ActionRequest>) -> StepOut {
    let tick = (w.tick + 1) as u64;
    let w1 = spec_recharge(w);
    let run = spec_run(w1, w1.agents, reqs, 0, Seq::empty());
    let aged = spec_enforce_age(run.0, 0);
    let tick_events = seq![EventV::TickStarted { tick }] + run.1 + aged.1 + seq![
        EventV::TickCompleted { tick },
    ];
    StepOut {
        world: WorldV { tick, events: aged.0.events + tick_events, ..aged.0 },
        tick,
        events: tick_events,
        rejections: run.2,
    }
}

} // verus!
