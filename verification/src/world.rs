//! The world: owns all entity state, enforces the structural invariants, and
//! offers spawn/query/mutate primitives with no action-resolution logic.

use vstd::prelude::*;
use crate::actions::{AgentId, Qi};
use crate::events::{events_view, Event, EventV, QiSourceSnapshot, StructureSnapshot};
use crate::model::{
    agents_qi_sum, find_free, imin, lemma_candidate_step, lemma_find_free_unfold,
    lemma_free_candidate_exists, occupied_at, recharge_from, recharge_one, sources_qi_sum,
    ages_ok, spawn_candidate, spec_add_source, spec_recharge, spec_spawn, spec_total_qi,
    wf_agents_base, wf_sources, AgentV, WorldV, WORLD_CAPACITY,
};
use crate::ore::OreKind;
use crate::space::{Position, Zone};
use crate::structure::Structure;

verus! {

/// Max ore units that can be harvested from a source per action.
pub const HARVEST_PER_ACTION: Qi = 3;

/// Default agent lifespan in ticks unless extended by the creator.
pub const DEFAULT_MAX_AGENT_AGE: u64 = 112;

/// A rechargeable ore source standing in the world.
#[derive(Clone, Copy, Debug, PartialEq, Eq, Structural)]
pub struct QiSource {
    pub id: u64,
    pub ore: OreKind,
    pub position: Position,
    pub capacity: Qi,
    pub current: Qi,
    pub recharge_per_tick: Qi,
}

impl QiSource {
    /// The read-only snapshot of this source.
    pub open spec fn spec_snapshot(self) -> QiSourceSnapshot {
        QiSourceSnapshot {
            id: self.id,
            ore: self.ore,
            position: self.position,
            available: self.current,
            capacity: self.capacity,
        }
    }
}

/// An autonomous entity: per-entity mutable state plus local resource-spend
/// operations. Logically destroyed by `alive = false`, never removed.
#[derive(Debug)]
pub struct Agent {
    pub id: AgentId,
    pub name: String,
    pub qi: Qi,
    pub transistors: Qi,
    pub position: Position,
    pub alive: bool,
    pub age: u64,
    pub max_age: u64,
    pub discovered_zones: Vec<Zone>,
}

impl View for Agent {
    type V = AgentV;

    open spec fn view(&self) -> AgentV {
        AgentV {
            id: self.id,
            name: self.name@,
            qi: self.qi,
            transistors: self.transistors,
            position: self.position,
            alive: self.alive,
            age: self.age,
            max_age: self.max_age,
            discovered_zones: self.discovered_zones@,
        }
    }
}

impl Agent {
    /// Spend `amount` Qi, or report how much was missing.
    pub(crate) fn spend_qi(&mut self, amount: Qi) -> (r: Result<(), crate::actions::ActionError>)
        ensures
            match r {
                Ok(()) => {
                    &&& old(self)@.qi >= amount
                    &&& final(self)@ == (AgentV {
                        qi: (old(self)@.qi - amount) as u32,
                        ..old(self)@
                    })
                },
                Err(e) => {
                    &&& old(self)@.qi < amount
                    &&& final(self)@ == old(self)@
                    &&& e == (crate::actions::ActionError::InsufficientQi {
                        agent_id: old(self)@.id,
                        required: amount,
                        available: old(self)@.qi,
                    })
                },
            },
    {
        if self.qi < amount {
            return Err(
                crate::actions::ActionError::InsufficientQi {
                    agent_id: self.id,
                    required: amount,
                    available: self.qi,
                },
            );
        }
        self.qi = self.qi - amount;
        proof {
            assert(self@ =~= (AgentV { qi: (old(self)@.qi - amount) as u32, ..old(self)@ }));
        }
        Ok(())
    }

    /// Credit harvested ore to the matching balance, saturating.
    pub(crate) fn gain_ore(&mut self, ore: OreKind, amount: Qi)
        ensures
            final(self)@ == match ore {
                OreKind::Qi => AgentV {
                    qi: crate::model::sat_add_u32(old(self)@.qi as int, amount as int) as u32,
                    ..old(self)@
                },
                OreKind::Transistor => AgentV {
                    transistors: crate::model::sat_add_u32(
                        old(self)@.transistors as int,
                        amount as int,
                    ) as u32,
                    ..old(self)@
                },
            },
    {
        match ore {
            OreKind::Qi => {
                if self.qi <= u32::MAX - amount {
                    self.qi = self.qi + amount;
                } else {
                    self.qi = u32::MAX;
                }
                proof {
                    assert(self@ =~= (AgentV {
                        qi: crate::model::sat_add_u32(old(self)@.qi as int, amount as int) as u32,
                        ..old(self)@
                    }));
                }
            },
            OreKind::Transistor => {
                if self.transistors <= u32::MAX - amount {
                    self.transistors = self.transistors + amount;
                } else {
                    self.transistors = u32::MAX;
                }
                proof {
                    assert(self@ =~= (AgentV {
                        transistors: crate::model::sat_add_u32(
                            old(self)@.transistors as int,
                            amount as int,
                        ) as u32,
                        ..old(self)@
                    }));
                }
            },
        }
    }

    /// Spend `amount` of the given ore kind, or report how much was missing.
    pub(crate) fn spend_ore(&mut self, ore: OreKind, amount: Qi) -> (r: Result<
        (),
        crate::actions::ActionError,
    >)
        ensures
            match r {
                Ok(()) => match ore {
                    OreKind::Qi => old(self)@.qi >= amount && final(self)@ == (AgentV {
                        qi: (old(self)@.qi - amount) as u32,
                        ..old(self)@
                    }),
                    OreKind::Transistor => old(self)@.transistors >= amount && final(self)@
                        == (AgentV {
                        transistors: (old(self)@.transistors - amount) as u32,
                        ..old(self)@
                    }),
                },
                Err(e) => {
                    &&& final(self)@ == old(self)@
                    &&& match ore {
                        OreKind::Qi => old(self)@.qi < amount && e
                            == (crate::actions::ActionError::InsufficientQi {
                            agent_id: old(self)@.id,
                            required: amount,
                            available: old(self)@.qi,
                        }),
                        OreKind::Transistor => old(self)@.transistors < amount && e
                            == (crate::actions::ActionError::InsufficientOre {
                            agent_id: old(self)@.id,
                            ore,
                            required: amount,
                            available: old(self)@.transistors,
                        }),
                    }
                },
            },
    {
        match ore {
            OreKind::Qi => self.spend_qi(amount),
            OreKind::Transistor => {
                if self.transistors < amount {
                    return Err(
                        crate::actions::ActionError::InsufficientOre {
                            agent_id: self.id,
                            ore,
                            required: amount,
                            available: self.transistors,
                        },
                    );
                }
                self.transistors = self.transistors - amount;
                proof {
                    assert(self@ =~= (AgentV {
                        transistors: (old(self)@.transistors - amount) as u32,
                        ..old(self)@
                    }));
                }
                Ok(())
            },
        }
    }
}

/// The mathematical form of the agent arena.
pub open spec fn agents_view(s: Seq<Agent>) -> Seq<AgentV> {
    s.map_values(|a: Agent| a@)
}

/// Snapshots of the sources among `sources[0..i]` within Chebyshev `range`
/// of `p`, in list order.
pub open spec fn nearby_sources_upto(
    sources: Seq<QiSource>,
    p: Position,
    range: int,
    i: int,
) -> Seq<QiSourceSnapshot>
    decreases i,
{
    if i <= 0 {
        Seq::empty()
    } else {
        nearby_sources_upto(sources, p, range, i - 1) + if sources[i - 1].position.spec_within_range(
            p,
            range,
        ) {
            seq![sources[i - 1].spec_snapshot()]
        } else {
            Seq::empty()
        }
    }
}

/// Snapshots of all sources within Chebyshev `range` of `p`, in list order.
pub open spec fn spec_nearby_sources(
    sources: Seq<QiSource>,
    p: Position,
    range: int,
) -> Seq<QiSourceSnapshot> {
    nearby_sources_upto(sources, p, range, sources.len() as int)
}

/// Snapshots of the structures among `structures[0..i]` within Chebyshev
/// `range` of `p`, in list order.
pub open spec fn nearby_structures_upto(
    structures: Seq<Structure>,
    p: Position,
    range: int,
    i: int,
) -> Seq<StructureSnapshot>
    decreases i,
{
    if i <= 0 {
        Seq::empty()
    } else {
        nearby_structures_upto(structures, p, range, i - 1) + if structures[i
            - 1].position.spec_within_range(p, range) {
            seq![
                StructureSnapshot {
                    id: structures[i - 1].id,
                    kind: structures[i - 1].kind,
                    position: structures[i - 1].position,
                },
            ]
        } else {
            Seq::empty()
        }
    }
}

/// Snapshots of all structures within Chebyshev `range` of `p`.
pub open spec fn spec_nearby_structures(
    structures: Seq<Structure>,
    p: Position,
    range: int,
) -> Seq<StructureSnapshot> {
    nearby_structures_upto(structures, p, range, structures.len() as int)
}

/// Whether a source can serve a harvest of `ore` near `p`: matching kind,
/// not empty, and within scan range.
pub open spec fn eligible_source(s: QiSource, ore: OreKind, p: Position) -> bool {
    &&& s.ore == ore
    &&& s.current != 0
    &&& p.spec_within_range(s.position, crate::space::SCAN_RANGE as int)
}

/// The nearest eligible source among `sources[0..i]` by Manhattan distance,
/// earliest in list order on ties.
pub open spec fn nearest_upto(
    sources: Seq<QiSource>,
    ore: OreKind,
    p: Position,
    i: int,
) -> Option<QiSource>
    decreases i,
{
    if i <= 0 {
        None
    } else {
        let prev = nearest_upto(sources, ore, p, i - 1);
        let s = sources[i - 1];
        if !eligible_source(s, ore, p) {
            prev
        } else {
            match prev {
                None => Some(s),
                Some(b) => if p.spec_manhattan(s.position) < p.spec_manhattan(b.position) {
                    Some(s)
                } else {
                    Some(b)
                },
            }
        }
    }
}

/// The nearest eligible source of the requested ore kind, by Manhattan
/// distance, ties broken by first-found order.
pub open spec fn spec_nearest_source(
    sources: Seq<QiSource>,
    ore: OreKind,
    p: Position,
) -> Option<QiSource> {
    nearest_upto(sources, ore, p, sources.len() as int)
}

/// A nearest-source result is always one of the sources, and eligible.
pub proof fn lemma_nearest_in_sources(sources: Seq<QiSource>, ore: OreKind, p: Position, i: int)
    requires
        0 <= i <= sources.len(),
    ensures
        match nearest_upto(sources, ore, p, i) {
            Some(s) => (exists|j: int| 0 <= j < i && sources[j] == s) && eligible_source(s, ore, p),
            None => true,
        },
    decreases i,
{
    if i > 0 {
        lemma_nearest_in_sources(sources, ore, p, i - 1);
        match nearest_upto(sources, ore, p, i) {
            Some(s) => {
                if eligible_source(sources[i - 1], ore, p) && s == sources[i - 1] {
                    assert(0 <= i - 1 < i && sources[i - 1] == s);
                } else {
                    assert(nearest_upto(sources, ore, p, i - 1) == Some(s));
                    let j = choose|j: int| 0 <= j < i - 1 && sources[j] == s;
                    assert(0 <= j < i && sources[j] == s);
                }
            },
            None => {},
        }
    }
}

/// Select the nearest in-range, non-empty source of the requested ore kind
/// by Manhattan distance (ties broken by first-found order).
pub fn nearest_ore_source(sources: &Vec<QiSource>, ore: OreKind, position: Position) -> (r: Option<
    QiSource,
>)
    ensures
        r == spec_nearest_source(sources@, ore, position),
{
    let n = sources.len();
    let mut best: Option<QiSource> = None;
    let mut i: usize = 0;
    while i < n
        invariant
            0 <= i <= n,
            n == sources.len(),
            best == nearest_upto(sources@, ore, position, i as int),
        decreases n - i,
    {
        let s = sources[i];
        if s.ore == ore && s.current != 0 && position.within_range(
            s.position,
            crate::space::SCAN_RANGE,
        ) {
            match best {
                None => {
                    best = Some(s);
                },
                Some(b) => {
                    if position.manhattan(s.position) < position.manhattan(b.position) {
                        best = Some(s);
                    }
                },
            }
        }
        i += 1;
    }
    best
}

/// The world state: entity collections, the event log, the conservation
/// bookkeeping, and the tick counter.
#[derive(Debug)]
pub struct World {
    pub tick: u64,
    pub max_qi_supply: Option<u64>,
    pub recycled_qi: u64,
    pub agents: Vec<Agent>,
    pub events: Vec<Event>,
    pub structures: Vec<Structure>,
    pub qi_sources: Vec<QiSource>,
}

impl View for World {
    type V = WorldV;

    open spec fn view(&self) -> WorldV {
        WorldV {
            tick: self.tick,
            max_qi_supply: self.max_qi_supply,
            recycled_qi: self.recycled_qi,
            agents: agents_view(self.agents@),
            events: events_view(self.events@),
            structures: self.structures@,
            qi_sources: self.qi_sources@,
        }
    }
}

impl Default for World {
    fn default() -> (r: Self)
        ensures
            r@.tick == 0,
            r@.agents == Seq::<AgentV>::empty(),
            crate::model::wf_world(r@),
    {
        World::new()
    }
}

impl World {
    /// A fresh, empty world at tick zero.
    pub fn new() -> (r: Self)
        ensures
            r@.tick == 0,
            r@.max_qi_supply is None,
            r@.recycled_qi == 0,
            r@.agents == Seq::<AgentV>::empty(),
            r@.events == Seq::<EventV>::empty(),
            r@.structures == Seq::<Structure>::empty(),
            r@.qi_sources == Seq::<crate::world::QiSource>::empty(),
            crate::model::wf_world(r@),
    {
        let r = World {
            tick: 0,
            max_qi_supply: None,
            recycled_qi: 0,
            agents: Vec::new(),
            events: Vec::new(),
            structures: Vec::new(),
            qi_sources: Vec::new(),
        };
        proof {
            assert(r@.agents =~= Seq::<AgentV>::empty());
            assert(r@.events =~= Seq::<EventV>::empty());
        }
        r
    }

    /// The current tick counter.
    pub fn tick(&self) -> (r: u64)
        ensures
            r == self@.tick,
    {
        self.tick
    }

    /// Read-only access to a single agent's state, by id.
    pub fn agent(&self, id: AgentId) -> (r: Option<&Agent>)
        ensures
            match r {
                Some(a) => {
                    &&& 1 <= id <= self@.agents.len()
                    &&& a@ == self@.agents[id - 1]
                },
                None => id < 1 || id > self@.agents.len(),
            },
    {
        if id >= 1 && id <= self.agents.len() as u64 {
            let idx = (id - 1) as usize;
            Some(&self.agents[idx])
        } else {
            None
        }
    }

    /// The whole agent arena, ordered by id.
    pub fn agents(&self) -> (r: &Vec<Agent>)
        ensures
            agents_view(r@) == self@.agents,
    {
        &self.agents
    }

    /// The permanent event log.
    pub fn events(&self) -> (r: &Vec<Event>)
        ensures
            events_view(r@) == self@.events,
    {
        &self.events
    }

    /// All ore sources, ordered by id.
    pub fn qi_sources(&self) -> (r: &Vec<QiSource>)
        ensures
            r@ == self@.qi_sources,
    {
        &self.qi_sources
    }

    /// All structures, ordered by id.
    pub fn structures(&self) -> (r: &Vec<Structure>)
        ensures
            r@ == self@.structures,
    {
        &self.structures
    }

    /// Set the soft cap on total Qi in circulation.
    pub fn set_max_qi_supply(&mut self, max: u64)
        ensures
            final(self)@ == (WorldV { max_qi_supply: Some(max), ..old(self)@ }),
    {
        self.max_qi_supply = Some(max);
        proof {
            assert(self@ =~= (WorldV { max_qi_supply: Some(max), ..old(self)@ }));
        }
    }

    /// Return spent Qi to the global recycled pool.
    pub(crate) fn recycle_qi(&mut self, amount: Qi)
        ensures
            final(self)@ == (WorldV {
                recycled_qi: crate::model::sat_add_u64(
                    old(self)@.recycled_qi as int,
                    amount as int,
                ) as u64,
                ..old(self)@
            }),
    {
        if self.recycled_qi <= u64::MAX - amount as u64 {
            self.recycled_qi = self.recycled_qi + amount as u64;
        } else {
            self.recycled_qi = u64::MAX;
        }
        proof {
            assert(self@ =~= (WorldV {
                recycled_qi: crate::model::sat_add_u64(
                    old(self)@.recycled_qi as int,
                    amount as int,
                ) as u64,
                ..old(self)@
            }));
        }
    }

    /// The id of the live agent standing at `p`, if any.
    pub fn occupant_of(&self, p: Position) -> (r: Option<AgentId>)
        ensures
            r is Some <==> occupied_at(self@.agents, p),
            match r {
                Some(id) => exists|j: int|
                    0 <= j < self@.agents.len() && (#[trigger] self@.agents[j]).alive
                        && self@.agents[j].position == p && self@.agents[j].id == id,
                None => true,
            },
    {
        let n = self.agents.len();
        let mut i: usize = 0;
        while i < n
            invariant
                0 <= i <= n,
                n == self.agents.len(),
                forall|j: int|
                    0 <= j < i ==> !((#[trigger] self@.agents[j]).alive && self@.agents[j].position
                        == p),
            decreases n - i,
        {
            if self.agents[i].alive && self.agents[i].position == p {
                proof {
                    assert(self@.agents[i as int] == self.agents@[i as int]@);
                    assert((#[trigger] self@.agents[i as int]).alive && self@.agents[i as int].position
                        == p);
                }
                return Some(self.agents[i].id);
            }
            proof {
                assert(self@.agents[i as int] == self.agents@[i as int]@);
            }
            i += 1;
        }
        None
    }

    /// Spawn an agent with the default lifespan.
    pub fn spawn_agent(&mut self, name: String, qi: Qi, position: Position) -> (r: AgentId)
        requires
            wf_agents_base(old(self)@.agents),
            old(self)@.agents.len() < WORLD_CAPACITY,
        ensures
            final(self)@ == spec_spawn(old(self)@, name@, qi, position, DEFAULT_MAX_AGENT_AGE).0,
            r == spec_spawn(old(self)@, name@, qi, position, DEFAULT_MAX_AGENT_AGE).1,
            wf_agents_base(final(self)@.agents),
            ages_ok(old(self)@.agents) ==> ages_ok(final(self)@.agents),
    {
        self.spawn_agent_with_age(name, qi, position, DEFAULT_MAX_AGENT_AGE)
    }

    /// Spawn an agent: the first unoccupied cell reachable by walking +1 on
    /// the x-axis from the requested position is taken (deterministic
    /// collision resolution), the next sequential id is assigned, the origin
    /// zone is marked discovered, and an `AgentSpawned` event is appended.
    /// Never fails.
    pub fn spawn_agent_with_age(
        &mut self,
        name: String,
        qi: Qi,
        position: Position,
        max_age: u64,
    ) -> (r: AgentId)
        requires
            wf_agents_base(old(self)@.agents),
            old(self)@.agents.len() < WORLD_CAPACITY,
        ensures
            final(self)@ == spec_spawn(old(self)@, name@, qi, position, max_age).0,
            r == spec_spawn(old(self)@, name@, qi, position, max_age).1,
            wf_agents_base(final(self)@.agents),
            ages_ok(old(self)@.agents) ==> ages_ok(final(self)@.agents),
    {
        let n = self.agents.len();
        let mut pos = position;
        let mut k: usize = 0;
        loop
            invariant
                0 <= k <= n,
                n == self.agents.len(),
                *self == *old(self),
                wf_agents_base(self@.agents),
                n < WORLD_CAPACITY,
                pos == spawn_candidate(position, k as int),
                forall|m: int|
                    0 <= m < k ==> occupied_at(self@.agents, #[trigger] spawn_candidate(
                        position,
                        m,
                    )),
            ensures
                *self == *old(self),
                n == self.agents.len(),
                !occupied_at(self@.agents, pos),
                find_free(self@.agents, position, (n + 1) as nat) == Some(pos),
            decreases n - k,
        {
            if self.occupant_of(pos).is_none() {
                proof {
                    lemma_find_free_unfold(self@.agents, position, k as int, (n + 1) as nat);
                }
                break;
            }
            proof {
                if k == n {
                    lemma_free_candidate_exists(self@.agents, position);
                    let kf = choose|kf: int|
                        0 <= kf <= self@.agents.len() && !occupied_at(
                            self@.agents,
                            #[trigger] spawn_candidate(position, kf),
                        );
                    assert(occupied_at(self@.agents, spawn_candidate(position, kf)));
                    assert(false);
                }
                lemma_candidate_step(position, k as int);
            }
            k += 1;
            pos = pos.offset(1, 0, 0);
        }

        let id = (n as u64) + 1;
        let mut zones: Vec<Zone> = Vec::new();
        zones.push(pos.zone());
        let capped_age: u64 = if max_age >= 1 {
            max_age
        } else {
            1
        };
        let agent = Agent {
            id,
            name,
            qi,
            transistors: 0,
            position: pos,
            alive: true,
            age: 0,
            max_age: capped_age,
            discovered_zones: zones,
        };
        let ev = Event::AgentSpawned {
            agent_id: id,
            name: agent.name.clone(),
            qi: agent.qi,
            position: agent.position,
        };
        self.events.push(ev);
        self.agents.push(agent);
        proof {
            let spawned = spec_spawn(old(self)@, name@, qi, position, max_age);
            assert(self@.agents =~= spawned.0.agents);
            assert(self@.events =~= spawned.0.events);
            assert(self@ =~= spawned.0);
            assert forall|i: int, j: int|
                0 <= i < self@.agents.len() && 0 <= j < self@.agents.len() && i != j && (
                #[trigger] self@.agents[i]).alive && (#[trigger] self@.agents[j]).alive implies self
                @.agents[i].position != self@.agents[j].position by {
                if i == self@.agents.len() - 1 {
                    assert(!occupied_at(old(self)@.agents, pos));
                    assert(old(self)@.agents[j].position != pos);
                } else if j == self@.agents.len() - 1 {
                    assert(!occupied_at(old(self)@.agents, pos));
                    assert(old(self)@.agents[i].position != pos);
                }
            }
            assert(wf_agents_base(self@.agents));
        }
        id
    }

    /// Total Qi in circulation: agents' balances plus Qi-kind source levels
    /// plus the recycled pool, saturating at `u64::MAX`.
    pub fn total_qi_supply(&self) -> (r: u64)
        ensures
            r as int == spec_total_qi(self@),
    {
        let na = self.agents.len();
        let mut acc: u64 = 0;
        let mut i: usize = 0;
        while i < na
            invariant
                0 <= i <= na,
                na == self.agents.len(),
                acc as int == imin(agents_qi_sum(self@.agents, i as int), u64::MAX as int),
            decreases na - i,
        {
            let q = self.agents[i].qi;
            proof {
                assert(self@.agents[i as int] == self.agents@[i as int]@);
            }
            if acc <= u64::MAX - q as u64 {
                acc = acc + q as u64;
            } else {
                acc = u64::MAX;
            }
            i += 1;
        }
        let ns = self.qi_sources.len();
        let mut j: usize = 0;
        while j < ns
            invariant
                0 <= j <= ns,
                ns == self.qi_sources.len(),
                acc as int == imin(
                    agents_qi_sum(self@.agents, self@.agents.len() as int) + sources_qi_sum(
                        self@.qi_sources,
                        j as int,
                    ),
                    u64::MAX as int,
                ),
            decreases ns - j,
        {
            let s = self.qi_sources[j];
            if s.ore == OreKind::Qi {
                if acc <= u64::MAX - s.current as u64 {
                    acc = acc + s.current as u64;
                } else {
                    acc = u64::MAX;
                }
            }
            j += 1;
        }
        if acc <= u64::MAX - self.recycled_qi {
            acc + self.recycled_qi
        } else {
            u64::MAX
        }
    }

    /// The per-tick recharge pass, run once before any agent acts. Non-Qi
    /// sources recharge freely up to capacity. Qi sources fill their headroom
    /// first from the recycled pool, and only the remainder of the per-tick
    /// allowance is minted, within the headroom left under the global supply
    /// cap measured before the pass.
    pub fn recharge_qi_sources(&mut self)
        requires
            wf_sources(old(self)@.qi_sources),
        ensures
            final(self)@ == spec_recharge(old(self)@),
            wf_sources(final(self)@.qi_sources),
    {
        let ghost w0 = self@;
        let total = self.total_qi_supply();
        let mut budget: u64 = match self.max_qi_supply {
            Some(max) => if max >= total {
                max - total
            } else {
                0
            },
            None => u64::MAX,
        };
        let mut pool: u64 = self.recycled_qi;
        let ghost b0 = budget as int;
        let ghost p0 = pool as int;
        let n = self.qi_sources.len();
        let mut i: usize = 0;
        while i < n
            invariant
                0 <= i <= n,
                n == self.qi_sources.len(),
                self@ == (WorldV { qi_sources: self@.qi_sources, ..w0 }),
                forall|j: int|
                    0 <= j < n ==> (#[trigger] self@.qi_sources[j]).id == w0.qi_sources[j].id
                        && self@.qi_sources[j].current <= self@.qi_sources[j].capacity,
                recharge_from(w0.qi_sources, 0, p0, b0) == recharge_from(
                    self@.qi_sources,
                    i as int,
                    pool as int,
                    budget as int,
                ),
            decreases n - i,
        {
            let ghost prev_sources = self@.qi_sources;
            let ghost prev_pool = pool as int;
            let ghost prev_budget = budget as int;
            let src = self.qi_sources[i];
            if src.ore != OreKind::Qi {
                let lifted: u64 = src.current as u64 + src.recharge_per_tick as u64;
                let capped: u64 = if lifted > u32::MAX as u64 {
                    u32::MAX as u64
                } else {
                    lifted
                };
                let lvl: u32 = if capped > src.capacity as u64 {
                    src.capacity
                } else {
                    capped as u32
                };
                self.qi_sources[i].current = lvl;
                proof {
                    assert(recharge_one(prev_sources[i as int], prev_pool, prev_budget) == (
                        self@.qi_sources[i as int],
                        prev_pool,
                        prev_budget,
                    ));
                    assert(self@.qi_sources =~= prev_sources.update(
                        i as int,
                        self@.qi_sources[i as int],
                    ));
                }
            } else {
                let headroom: u64 = (src.capacity - src.current) as u64;
                if headroom == 0 {
                    proof {
                        assert(recharge_one(prev_sources[i as int], prev_pool, prev_budget) == (
                            prev_sources[i as int],
                            prev_pool,
                            prev_budget,
                        ));
                        assert(self@.qi_sources =~= prev_sources.update(
                            i as int,
                            prev_sources[i as int],
                        ));
                    }
                } else {
                    let allowance: u64 = src.recharge_per_tick as u64;
                    let mut from_pool: u64 = if pool < headroom {
                        pool
                    } else {
                        headroom
                    };
                    if allowance < from_pool {
                        from_pool = allowance;
                    }
                    let cur1: u32 = src.current + from_pool as u32;
                    pool = pool - from_pool;
                    let remaining_allowance: u64 = allowance - from_pool;
                    let remaining_headroom: u64 = (src.capacity - cur1) as u64;
                    if remaining_allowance > 0 && remaining_headroom > 0 && budget > 0 {
                        let mut mint: u64 = if remaining_allowance < remaining_headroom {
                            remaining_allowance
                        } else {
                            remaining_headroom
                        };
                        if budget < mint {
                            mint = budget;
                        }
                        self.qi_sources[i].current = cur1 + mint as u32;
                        budget = budget - mint;
                    } else {
                        self.qi_sources[i].current = cur1;
                    }
                    proof {
                        assert(recharge_one(prev_sources[i as int], prev_pool, prev_budget) == (
                            self@.qi_sources[i as int],
                            pool as int,
                            budget as int,
                        ));
                        assert(self@.qi_sources =~= prev_sources.update(
                            i as int,
                            self@.qi_sources[i as int],
                        ));
                    }
                }
            }
            i += 1;
        }
        self.recycled_qi = pool;
        proof {
            assert(recharge_from(self@.qi_sources, n as int, pool as int, budget as int) == (
                self@.qi_sources,
                pool as int,
                budget as int,
            ));
            assert(self@ =~= spec_recharge(w0));
            assert(wf_sources(self@.qi_sources));
        }
    }

    /// Snapshots of all ore sources within Chebyshev `range` of `position`.
    pub fn nearby_qi_sources(&self, position: Position, range: i32) -> (r: Vec<QiSourceSnapshot>)
        ensures
            r@ == spec_nearby_sources(self@.qi_sources, position, range as int),
    {
        let n = self.qi_sources.len();
        let mut out: Vec<QiSourceSnapshot> = Vec::new();
        let mut i: usize = 0;
        while i < n
            invariant
                0 <= i <= n,
                n == self.qi_sources.len(),
                out@ == nearby_sources_upto(self@.qi_sources, position, range as int, i as int),
            decreases n - i,
        {
            let s = self.qi_sources[i];
            if s.position.within_range(position, range) {
                out.push(
                    QiSourceSnapshot {
                        id: s.id,
                        ore: s.ore,
                        position: s.position,
                        available: s.current,
                        capacity: s.capacity,
                    },
                );
            }
            proof {
                assert(out@ =~= nearby_sources_upto(
                    self@.qi_sources,
                    position,
                    range as int,
                    i as int + 1,
                ));
            }
            i += 1;
        }
        out
    }

    /// Snapshots of all structures within Chebyshev `range` of `position`.
    pub fn nearby_structures(&self, position: Position, range: i32) -> (r: Vec<StructureSnapshot>)
        ensures
            r@ == spec_nearby_structures(self@.structures, position, range as int),
    {
        let n = self.structures.len();
        let mut out: Vec<StructureSnapshot> = Vec::new();
        let mut i: usize = 0;
        while i < n
            invariant
                0 <= i <= n,
                n == self.structures.len(),
                out@ == nearby_structures_upto(self@.structures, position, range as int, i as int),
            decreases n - i,
        {
            let s = self.structures[i];
            if s.position.within_range(position, range) {
                out.push(StructureSnapshot { id: s.id, kind: s.kind, position: s.position });
            }
            proof {
                assert(out@ =~= nearby_structures_upto(
                    self@.structures,
                    position,
                    range as int,
                    i as int + 1,
                ));
            }
            i += 1;
        }
        out
    }

    /// Append a new ore source at full charge, under the next sequential id.
    pub fn add_qi_source(
        &mut self,
        ore: OreKind,
        position: Position,
        capacity: Qi,
        recharge_per_tick: Qi,
    ) -> (r: u64)
        requires
            wf_sources(old(self)@.qi_sources),
            old(self)@.qi_sources.len() < WORLD_CAPACITY,
        ensures
            final(self)@ == spec_add_source(old(self)@, ore, position, capacity, recharge_per_tick).0,
            r == spec_add_source(old(self)@, ore, position, capacity, recharge_per_tick).1,
            wf_sources(final(self)@.qi_sources),
    {
        let id = (self.qi_sources.len() as u64) + 1;
        let source = QiSource { id, ore, position, capacity, current: capacity, recharge_per_tick };
        self.qi_sources.push(source);
        proof {
            assert(self@ =~= spec_add_source(
                old(self)@,
                ore,
                position,
                capacity,
                recharge_per_tick,
            ).0);
        }
        id
    }
}

} // verus!
