//! The mathematical model of the world: ghost mirrors of the entity state,
//! the structural invariants every public operation preserves, and the
//! transition functions that the executable mutators are proved to implement.

use vstd::prelude::*;
use vstd::assert_by_contradiction;
use vstd::seq_lib::*;
use vstd::set_lib::*;
use crate::events::EventV;
use crate::space::{wrap_i32, Position, Zone};
use crate::structure::Structure;
use crate::strutil::u64_dec;
use crate::world::QiSource;

verus! {

/// Hard bound on the size of each world collection, so that sequential ids
/// fit in 64 bits and the spawn collision walk stays within one wrap of the
/// x-axis.
pub const WORLD_CAPACITY: usize = 0x1000_0000;

/// The mathematical form of an agent: the name as a character sequence and
/// the discovered zones as a sequence in discovery order.
#[verifier::ext_equal]
pub struct AgentV {
    pub id: u64,
    pub name: Seq<char>,
    pub qi: u32,
    pub transistors: u32,
    pub position: Position,
    pub alive: bool,
    pub age: u64,
    pub max_age: u64,
    pub discovered_zones: Seq<Zone>,
}

/// The mathematical form of the whole world.
#[verifier::ext_equal]
pub struct WorldV {
    pub tick: u64,
    pub max_qi_supply: Option<u64>,
    pub recycled_qi: u64,
    pub agents: Seq<AgentV>,
    pub events: Seq<EventV>,
    pub structures: Seq<Structure>,
    pub qi_sources: Seq<QiSource>,
}

/// The minimum of two mathematical integers.
pub open spec fn imin(a: int, b: int) -> int {
    if a < b {
        a
    } else {
        b
    }
}

/// Saturating 64-bit addition.
pub open spec fn sat_add_u64(a: int, b: int) -> int {
    imin(a + b, u64::MAX as int)
}

/// Saturating 32-bit addition.
pub open spec fn sat_add_u32(a: int, b: int) -> int {
    imin(a + b, u32::MAX as int)
}

/// Whether some live agent stands at `p`.
pub open spec fn occupied_at(agents: Seq<AgentV>, p: Position) -> bool {
    exists|j: int| 0 <= j < agents.len() && agents[j].alive && agents[j].position == p
}

/// The index of the live agent standing at `p` (unique under `wf_agents`).
pub open spec fn occupant_index(agents: Seq<AgentV>, p: Position) -> int {
    choose|j: int| 0 <= j < agents.len() && agents[j].alive && agents[j].position == p
}

/// Structural invariants of the agent arena that hold even in the middle of
/// a tick: sequential ids, one live agent per cell, lifespans of at least
/// one tick.
pub open spec fn wf_agents_base(agents: Seq<AgentV>) -> bool {
    &&& forall|i: int| 0 <= i < agents.len() ==> (#[trigger] agents[i]).id == i + 1
    &&& forall|i: int, j: int|
        0 <= i < agents.len() && 0 <= j < agents.len() && i != j && (#[trigger] agents[i]).alive
            && (#[trigger] agents[j]).alive ==> agents[i].position != agents[j].position
    &&& forall|i: int| 0 <= i < agents.len() ==> (#[trigger] agents[i]).max_age >= 1
}

/// No live agent has reached its lifespan. Restored by the age sweep at the
/// end of every tick.
pub open spec fn ages_ok(agents: Seq<AgentV>) -> bool {
    forall|i: int|
        0 <= i < agents.len() && (#[trigger] agents[i]).alive ==> agents[i].age < agents[i].max_age
}

/// All invariants of the agent arena, as they hold at every public boundary.
pub open spec fn wf_agents(agents: Seq<AgentV>) -> bool {
    wf_agents_base(agents) && ages_ok(agents)
}

/// Structural invariants of the structure list: sequential ids, the recorded
/// zone derived from the position, at most one structure per cell.
pub open spec fn wf_structures(structures: Seq<Structure>) -> bool {
    &&& forall|i: int| 0 <= i < structures.len() ==> (#[trigger] structures[i]).id == i + 1
    &&& forall|i: int|
        0 <= i < structures.len() ==> (#[trigger] structures[i]).zone
            == structures[i].position.spec_zone()
    &&& forall|i: int, j: int|
        0 <= i < structures.len() && 0 <= j < structures.len() && i != j ==> (
        #[trigger] structures[i]).position != (#[trigger] structures[j]).position
}

/// Structural invariants of the ore-source list: sequential ids and levels
/// within capacity.
pub open spec fn wf_sources(sources: Seq<QiSource>) -> bool {
    &&& forall|i: int| 0 <= i < sources.len() ==> (#[trigger] sources[i]).id == i + 1
    &&& forall|i: int|
        0 <= i < sources.len() ==> (#[trigger] sources[i]).current <= sources[i].capacity
}

/// Well-formedness of the whole world.
pub open spec fn wf_world(w: WorldV) -> bool {
    &&& wf_agents(w.agents)
    &&& wf_structures(w.structures)
    &&& wf_sources(w.qi_sources)
}

/// The candidate cell `k` steps along the +x axis from `p` (wrapping).
pub open spec fn spawn_candidate(p: Position, k: int) -> Position {
    Position { x: wrap_i32(p.x + k) as i32, y: p.y, z: p.z }
}

/// The first unoccupied candidate cell within `tries` steps from `p`.
pub open spec fn find_free(agents: Seq<AgentV>, p: Position, tries: nat) -> Option<Position>
    decreases tries,
{
    if tries == 0 {
        None
    } else if !occupied_at(agents, p) {
        Some(p)
    } else {
        find_free(agents, Position { x: wrap_i32(p.x + 1) as i32, y: p.y, z: p.z }, (tries - 1) as nat)
    }
}

/// Two candidate steps within one wrap of the x-axis land on distinct cells.
proof fn lemma_candidates_distinct(p: Position, k1: int, k2: int)
    requires
        0 <= k1 < k2 < 0x1_0000_0000,
    ensures
        spawn_candidate(p, k1) != spawn_candidate(p, k2),
{
    let x = p.x as int;
    let w1 = wrap_i32(x + k1);
    let w2 = wrap_i32(x + k2);
    assert(w1 == x + k1 || w1 == x + k1 - 0x1_0000_0000);
    assert(w2 == x + k2 || w2 == x + k2 - 0x1_0000_0000);
    assert(i32::MIN <= w1 <= i32::MAX);
    assert(i32::MIN <= w2 <= i32::MAX);
    assert(w1 != w2);
}

/// Shifting the start of the candidate chain by one step.
proof fn lemma_candidate_shift(p: Position, m: int)
    requires
        0 <= m < 0x1000_0000,
    ensures
        spawn_candidate(spawn_candidate(p, 1), m) == spawn_candidate(p, m + 1),
{
    let x = p.x as int;
    let p1 = spawn_candidate(p, 1);
    assert(i32::MIN <= wrap_i32(x + 1) <= i32::MAX);
    assert(p1.x as int == wrap_i32(x + 1));
    let a = p1.x as int;
    assert(a == x + 1 || a == x + 1 - 0x1_0000_0000);
    assert(wrap_i32(a + m) == wrap_i32(x + 1 + m));
}

/// One +x step from candidate `k` reaches candidate `k + 1`.
pub proof fn lemma_candidate_step(p: Position, k: int)
    requires
        0 <= k < 0x1000_0000,
    ensures
        spawn_candidate(p, k).spec_offset(1, 0, 0) == spawn_candidate(p, k + 1),
{
    let x = p.x as int;
    let c = spawn_candidate(p, k);
    assert(i32::MIN <= wrap_i32(x + k) <= i32::MAX);
    assert(c.x as int == wrap_i32(x + k));
    let a = c.x as int;
    assert(a == x + k || a == x + k - 0x1_0000_0000);
    assert(wrap_i32(a + 1) == wrap_i32(x + k + 1));
    assert(wrap_i32(c.y as int + 0) == c.y as int);
    assert(wrap_i32(c.z as int + 0) == c.z as int);
}

/// Walking the candidate chain: step `k` of the chain from `p` is the
/// candidate `k` steps out.
pub proof fn lemma_find_free_unfold(agents: Seq<AgentV>, p: Position, k: int, tries: nat)
    requires
        0 <= k < 0x1000_0000,
        k < tries,
        forall|m: int| 0 <= m < k ==> occupied_at(agents, #[trigger] spawn_candidate(p, m)),
        !occupied_at(agents, spawn_candidate(p, k)),
    ensures
        find_free(agents, p, tries) == Some(spawn_candidate(p, k)),
    decreases k,
{
    assert(spawn_candidate(p, 0) == p);
    if k == 0 {
    } else {
        let p1 = Position { x: wrap_i32(p.x as int + 1) as i32, y: p.y, z: p.z };
        assert(p1 == spawn_candidate(p, 1));
        assert(occupied_at(agents, spawn_candidate(p, 0)));
        assert(occupied_at(agents, p));
        assert forall|m: int| 0 <= m < k - 1 implies occupied_at(
            agents,
            #[trigger] spawn_candidate(p1, m),
        ) by {
            lemma_candidate_shift(p, m);
            assert(occupied_at(agents, spawn_candidate(p, m + 1)));
        }
        lemma_candidate_shift(p, k - 1);
        assert(spawn_candidate(p1, k - 1) == spawn_candidate(p, k));
        lemma_find_free_unfold(agents, p1, k - 1, (tries - 1) as nat);
    }
}

/// Pigeonhole for the spawn collision walk: among `len + 1` distinct
/// candidate cells there are more cells than live agents, so one is free.
pub proof fn lemma_free_candidate_exists(agents: Seq<AgentV>, p: Position)
    requires
        wf_agents_base(agents),
        agents.len() < WORLD_CAPACITY,
    ensures
        exists|k: int|
            0 <= k <= agents.len() && !occupied_at(agents, #[trigger] spawn_candidate(p, k)),
{
    let n = agents.len() as int;
    assert_by_contradiction!(
        exists|k: int| 0 <= k <= agents.len() && !occupied_at(agents, #[trigger] spawn_candidate(p, k)),
        {
            // every candidate cell is occupied by some live agent
            let occ = Seq::new((n + 1) as nat, |k: int| occupant_index(agents, spawn_candidate(p, k)));
            assert forall|k: int| 0 <= k <= n implies 0 <= #[trigger] occ[k] < n
                && agents[occ[k]].alive && agents[occ[k]].position == spawn_candidate(p, k) by {
                assert(occupied_at(agents, spawn_candidate(p, k)));
            }
            assert(occ.no_duplicates()) by {
                assert forall|k1: int, k2: int|
                    0 <= k1 < occ.len() && 0 <= k2 < occ.len() && k1 != k2 implies occ[k1]
                    != occ[k2] by {
                    if k1 < k2 {
                        lemma_candidates_distinct(p, k1, k2);
                    } else {
                        lemma_candidates_distinct(p, k2, k1);
                    }
                    // one agent cannot stand on two distinct cells
                }
            }
            occ.unique_seq_to_set();
            assert(occ.to_set().len() == n + 1);
            assert(occ.to_set().subset_of(set_int_range(0, n))) by {
                assert forall|v: int| occ.to_set().contains(v) implies set_int_range(0, n).contains(v) by {
                    let k = choose|k: int| 0 <= k < occ.len() && occ[k] == v;
                    assert(0 <= occ[k] < n);
                }
            }
            lemma_int_range(0, n);
            lemma_len_subset(occ.to_set(), set_int_range(0, n));
        }
    );
}

/// The deterministic name of a child spawned by reproduction.
pub open spec fn child_name(parent_a: u64, parent_b: u64) -> Seq<char> {
    "Child-"@ + u64_dec(parent_a as int) + seq!['-'] + u64_dec(parent_b as int)
}

/// The agent record a spawn creates.
pub open spec fn spawned_agent(id: u64, name: Seq<char>, qi: u32, p: Position, max_age: u64) -> AgentV {
    AgentV {
        id,
        name,
        qi,
        transistors: 0,
        position: p,
        alive: true,
        age: 0,
        max_age: if max_age >= 1 {
            max_age
        } else {
            1
        },
        discovered_zones: seq![p.spec_zone()],
    }
}

/// Spawning an agent: the first unoccupied cell along +x from the requested
/// position is taken, the next sequential id is assigned, the origin zone is
/// discovered, and an `AgentSpawned` event is appended to the log.
pub open spec fn spec_spawn(
    w: WorldV,
    name: Seq<char>,
    qi: u32,
    position: Position,
    max_age: u64,
) -> (WorldV, u64) {
    let p = match find_free(w.agents, position, (w.agents.len() + 1) as nat) {
        Some(p) => p,
        // dead arm: among len + 1 candidate cells one is always free
        // (`lemma_free_candidate_exists`)
        None => position,
    };
    let id = (w.agents.len() + 1) as u64;
    let agent = spawned_agent(id, name, qi, p, max_age);
    let ev = EventV::AgentSpawned { agent_id: id, name, qi, position: p };
    (
        WorldV {
            agents: w.agents.push(agent),
            events: w.events.push(ev),
            ..w
        },
        id,
    )
}

/// Adding an ore source: appended at full charge under the next sequential id.
pub open spec fn spec_add_source(
    w: WorldV,
    ore: crate::ore::OreKind,
    position: Position,
    capacity: u32,
    recharge_per_tick: u32,
) -> (WorldV, u64) {
    let id = (w.qi_sources.len() + 1) as u64;
    let src = QiSource { id, ore, position, capacity, current: capacity, recharge_per_tick };
    (WorldV { qi_sources: w.qi_sources.push(src), ..w }, id)
}

/// Total Qi held by agents in `agents[0..i]`.
pub open spec fn agents_qi_sum(agents: Seq<AgentV>, i: int) -> int
    decreases i,
{
    if i <= 0 {
        0
    } else {
        agents_qi_sum(agents, i - 1) + agents[i - 1].qi
    }
}

/// Total Qi held by Qi-kind sources in `sources[0..i]`.
pub open spec fn sources_qi_sum(sources: Seq<QiSource>, i: int) -> int
    decreases i,
{
    if i <= 0 {
        0
    } else {
        sources_qi_sum(sources, i - 1) + if sources[i - 1].ore == crate::ore::OreKind::Qi {
            sources[i - 1].current as int
        } else {
            0
        }
    }
}

/// Total Qi in circulation: agents' balances, Qi-kind source levels, and the
/// recycled pool, saturating at `u64::MAX` as the executable fold does.
pub open spec fn spec_total_qi(w: WorldV) -> int {
    imin(
        agents_qi_sum(w.agents, w.agents.len() as int) + sources_qi_sum(
            w.qi_sources,
            w.qi_sources.len() as int,
        ) + w.recycled_qi,
        u64::MAX as int,
    )
}

/// The Qi contribution of one source to the total.
pub open spec fn source_qi_contrib(s: QiSource) -> int {
    if s.ore == crate::ore::OreKind::Qi {
        s.current as int
    } else {
        0
    }
}

/// Updating one source changes the prefix sum by its contribution change.
pub proof fn lemma_sources_sum_update(s: Seq<QiSource>, j: int, v: QiSource, i: int)
    requires
        0 <= j < s.len(),
        0 <= i <= s.len(),
    ensures
        sources_qi_sum(s.update(j, v), i) == sources_qi_sum(s, i) + if j < i {
            source_qi_contrib(v) - source_qi_contrib(s[j])
        } else {
            0
        },
    decreases i,
{
    if i > 0 {
        lemma_sources_sum_update(s, j, v, i - 1);
    }
}

/// Two agent arenas with the same balances have the same Qi sum.
pub proof fn lemma_agents_sum_pointwise(s1: Seq<AgentV>, s2: Seq<AgentV>, i: int)
    requires
        s1.len() == s2.len(),
        0 <= i <= s1.len(),
        forall|j: int| 0 <= j < s1.len() ==> (#[trigger] s1[j]).qi == s2[j].qi,
    ensures
        agents_qi_sum(s1, i) == agents_qi_sum(s2, i),
    decreases i,
{
    if i > 0 {
        lemma_agents_sum_pointwise(s1, s2, i - 1);
    }
}

/// One source's recharge step: non-Qi ore recharges freely up to capacity;
/// Qi ore fills its headroom first from the recycled pool (bounded by the
/// per-tick allowance), then mints the rest of the allowance from the
/// remaining global budget.
pub open spec fn recharge_one(src: QiSource, pool: int, budget: int) -> (QiSource, int, int) {
    if src.ore != crate::ore::OreKind::Qi {
        let lvl = imin(sat_add_u32(src.current as int, src.recharge_per_tick as int), src.capacity as int);
        (QiSource { current: lvl as u32, ..src }, pool, budget)
    } else {
        let headroom = src.capacity - src.current;
        if headroom == 0 {
            (src, pool, budget)
        } else {
            let allowance = src.recharge_per_tick as int;
            let from_pool = imin(imin(pool, headroom as int), allowance);
            let cur1 = src.current + from_pool;
            let pool1 = pool - from_pool;
            let remaining_allowance = allowance - from_pool;
            let remaining_headroom = src.capacity - cur1;
            if remaining_allowance > 0 && remaining_headroom > 0 && budget > 0 {
                let mint = imin(imin(remaining_allowance, remaining_headroom), budget);
                (QiSource { current: (cur1 + mint) as u32, ..src }, pool1, budget - mint)
            } else {
                (QiSource { current: cur1 as u32, ..src }, pool1, budget)
            }
        }
    }
}

/// Recharge of sources `i..`, threading the recycled pool and the mint
/// budget.
pub open spec fn recharge_from(
    sources: Seq<QiSource>,
    i: int,
    pool: int,
    budget: int,
) -> (Seq<QiSource>, int, int)
    decreases sources.len() - i,
{
    if i < 0 || i >= sources.len() {
        (sources, pool, budget)
    } else {
        let (src, pool1, budget1) = recharge_one(sources[i], pool, budget);
        recharge_from(sources.update(i, src), i + 1, pool1, budget1)
    }
}

/// The whole per-tick recharge: the mint budget is the headroom under the
/// global supply cap, measured once before any source recharges.
pub open spec fn spec_recharge(w: WorldV) -> WorldV {
    let budget = match w.max_qi_supply {
        Some(max) => if max >= spec_total_qi(w) {
            max - spec_total_qi(w)
        } else {
            0
        },
        None => u64::MAX as int,
    };
    let (sources, pool, _) = recharge_from(w.qi_sources, 0, w.recycled_qi as int, budget);
    WorldV { qi_sources: sources, recycled_qi: pool as u64, ..w }
}

} // verus!
