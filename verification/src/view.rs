//! Read-only, serializable views of the world for persistence and
//! visualization.

use vstd::prelude::*;
use vstd::seq_lib::group_to_multiset_ensures;
use crate::actions::{AgentId, Qi};
use crate::ore::OreKind;
use crate::space::Position;
use crate::structure::{StructureKind, StructureRecord, StructureStore};
use crate::qi::QiSourceStore;
use crate::world::World;
use crate::vm::Vm;

verus! {

/// A read-only view of one agent.
#[derive(Debug, Clone)]
pub struct AgentSnapshot {
    pub id: AgentId,
    pub name: String,
    pub qi: Qi,
    pub transistors: Qi,
    pub position: Position,
    pub alive: bool,
    pub age: u64,
    pub max_age: u64,
}

/// A read-only view of one ore source.
#[derive(Debug, Clone, Copy, PartialEq, Eq, Structural)]
pub struct OreNodeSnapshot {
    pub id: u64,
    pub ore: OreKind,
    pub position: Position,
    pub available: Qi,
    pub capacity: Qi,
    pub recharge_per_tick: Qi,
}

/// A read-only view of one structure.
#[derive(Debug, Clone, Copy, PartialEq, Eq, Structural)]
pub struct StructureView {
    pub id: u64,
    pub kind: StructureKind,
    pub position: Position,
    pub owner: AgentId,
}

/// A read-only view of the whole world, sorted by id in each list.
#[derive(Debug, Clone)]
pub struct WorldSnapshot {
    pub tick: u64,
    pub agents: Vec<AgentSnapshot>,
    pub ore_nodes: Vec<OreNodeSnapshot>,
    pub structures: Vec<StructureView>,
}

/// Whether structure views are ordered by ascending id.
pub open spec fn views_sorted_by_id(s: Seq<StructureView>) -> bool {
    forall|i: int, j: int| 0 <= i < j < s.len() ==> s[i].id <= s[j].id
}

/// The view of one persisted structure record.
pub open spec fn spec_record_view(s: StructureRecord) -> StructureView {
    StructureView { id: s.id, kind: s.kind, position: s.position, owner: s.owner }
}

impl World {
    /// A sorted (by id), read-only view of agents, ore sources and
    /// structures: a pure function of the current state, for persistence and
    /// visualization. The arena holds each list in id order already.
    pub fn snapshot(&self) -> (r: WorldSnapshot)
        ensures
            r.tick == self@.tick,
            r.agents@.len() == self@.agents.len(),
            forall|i: int|
                0 <= i < self@.agents.len() ==> {
                    let a = #[trigger] self@.agents[i];
                    &&& r.agents@[i].id == a.id
                    &&& r.agents@[i].name@ == a.name
                    &&& r.agents@[i].qi == a.qi
                    &&& r.agents@[i].transistors == a.transistors
                    &&& r.agents@[i].position == a.position
                    &&& r.agents@[i].alive == a.alive
                    &&& r.agents@[i].age == a.age
                    &&& r.agents@[i].max_age == a.max_age
                },
            r.ore_nodes@.len() == self@.qi_sources.len(),
            forall|i: int|
                0 <= i < self@.qi_sources.len() ==> {
                    let s = #[trigger] self@.qi_sources[i];
                    r.ore_nodes@[i] == (OreNodeSnapshot {
                        id: s.id,
                        ore: s.ore,
                        position: s.position,
                        available: s.current,
                        capacity: s.capacity,
                        recharge_per_tick: s.recharge_per_tick,
                    })
                },
            r.structures@.len() == self@.structures.len(),
            forall|i: int|
                0 <= i < self@.structures.len() ==> {
                    let s = #[trigger] self@.structures[i];
                    r.structures@[i] == (StructureView {
                        id: s.id,
                        kind: s.kind,
                        position: s.position,
                        owner: s.owner,
                    })
                },
    {
        let mut agents: Vec<AgentSnapshot> = Vec::new();
        let na = self.agents.len();
        let mut i: usize = 0;
        while i < na
            invariant
                0 <= i <= na,
                na == self.agents.len(),
                agents@.len() == i,
                forall|j: int|
                    0 <= j < i ==> {
                        let a = #[trigger] self@.agents[j];
                        &&& agents@[j].id == a.id
                        &&& agents@[j].name@ == a.name
                        &&& agents@[j].qi == a.qi
                        &&& agents@[j].transistors == a.transistors
                        &&& agents@[j].position == a.position
                        &&& agents@[j].alive == a.alive
                        &&& agents@[j].age == a.age
                        &&& agents@[j].max_age == a.max_age
                    },
            decreases na - i,
        {
            let a = &self.agents[i];
            agents.push(
                AgentSnapshot {
                    id: a.id,
                    name: a.name.clone(),
                    qi: a.qi,
                    transistors: a.transistors,
                    position: a.position,
                    alive: a.alive,
                    age: a.age,
                    max_age: a.max_age,
                },
            );
            i += 1;
        }
        let mut ore_nodes: Vec<OreNodeSnapshot> = Vec::new();
        let ns = self.qi_sources.len();
        let mut k: usize = 0;
        while k < ns
            invariant
                0 <= k <= ns,
                ns == self.qi_sources.len(),
                ore_nodes@.len() == k,
                forall|j: int|
                    0 <= j < k ==> {
                        let s = #[trigger] self@.qi_sources[j];
                        ore_nodes@[j] == (OreNodeSnapshot {
                            id: s.id,
                            ore: s.ore,
                            position: s.position,
                            available: s.current,
                            capacity: s.capacity,
                            recharge_per_tick: s.recharge_per_tick,
                        })
                    },
            decreases ns - k,
        {
            let s = self.qi_sources[k];
            ore_nodes.push(
                OreNodeSnapshot {
                    id: s.id,
                    ore: s.ore,
                    position: s.position,
                    available: s.current,
                    capacity: s.capacity,
                    recharge_per_tick: s.recharge_per_tick,
                },
            );
            k += 1;
        }
        let mut structures: Vec<StructureView> = Vec::new();
        let nt = self.structures.len();
        let mut m: usize = 0;
        while m < nt
            invariant
                0 <= m <= nt,
                nt == self.structures.len(),
                structures@.len() == m,
                forall|j: int|
                    0 <= j < m ==> {
                        let s = #[trigger] self@.structures[j];
                        structures@[j] == (StructureView {
                            id: s.id,
                            kind: s.kind,
                            position: s.position,
                            owner: s.owner,
                        })
                    },
            decreases nt - m,
        {
            let s = self.structures[m];
            structures.push(
                StructureView { id: s.id, kind: s.kind, position: s.position, owner: s.owner },
            );
            m += 1;
        }
        WorldSnapshot { tick: self.tick, agents, ore_nodes, structures }
    }
}

impl Vm {
    /// The world's sorted, read-only snapshot.
    pub fn snapshot(&self) -> (r: WorldSnapshot)
        ensures
            r.tick == self.world@.tick,
            r.agents@.len() == self.world@.agents.len(),
            r.ore_nodes@.len() == self.world@.qi_sources.len(),
            r.structures@.len() == self.world@.structures.len(),
    {
        self.world.snapshot()
    }
}

/// Sort structure views by ascending id: same views, ordered.
fn sort_views_by_id(input: Vec<StructureView>) -> (r: Vec<StructureView>)
    ensures
        views_sorted_by_id(r@),
        r@.to_multiset() == input@.to_multiset(),
{
    broadcast use group_to_multiset_ensures;

    let mut rest = input;
    let mut out: Vec<StructureView> = Vec::new();
    while rest.len() > 0
        invariant
            views_sorted_by_id(out@),
            out@.to_multiset().add(rest@.to_multiset()) == input@.to_multiset(),
            forall|i: int, j: int|
                0 <= i < out@.len() && 0 <= j < rest@.len() ==> (#[trigger] out@[i]).id <= (
                #[trigger] rest@[j]).id,
        decreases rest.len(),
    {
        let n = rest.len();
        let mut min_idx: usize = 0;
        let mut p: usize = 1;
        while p < n
            invariant
                0 < n == rest.len(),
                0 <= min_idx < p <= n,
                forall|j: int| 0 <= j < p ==> (#[trigger] rest@[j]).id >= rest@[min_idx as int].id,
            decreases n - p,
        {
            if rest[p].id < rest[min_idx].id {
                min_idx = p;
            }
            p += 1;
        }
        let ghost rest_pre = rest@;
        let ghost out_pre = out@;
        let x = rest.remove(min_idx);
        out.push(x);
        proof {
            rest_pre.to_multiset_ensures();
            out_pre.to_multiset_ensures();
            assert(rest@ == rest_pre.remove(min_idx as int));
            assert(x == rest_pre[min_idx as int]);
            assert(rest_pre.remove(min_idx as int).to_multiset() =~= rest_pre.to_multiset().remove(
                x,
            ));
            assert(out@ == out_pre.push(x));
            assert(out_pre.push(x).to_multiset() =~= out_pre.to_multiset().insert(x));
            assert(rest_pre.contains(x));
            assert(rest_pre.to_multiset().count(x) > 0);
            assert(out@.to_multiset().add(rest@.to_multiset()) =~= out_pre.to_multiset().add(
                rest_pre.to_multiset(),
            ));
            assert forall|i: int, j: int|
                0 <= i < out@.len() && 0 <= j < rest@.len() implies (#[trigger] out@[i]).id <= (
            #[trigger] rest@[j]).id by {
                assert(rest@[j] == if j < min_idx {
                    rest_pre[j]
                } else {
                    rest_pre[j + 1]
                });
                if i < out_pre.len() {
                    assert(out@[i] == out_pre[i]);
                } else {
                    assert(out@[i] == x);
                }
            }
        }
    }
    out
}

/// Build a world snapshot from the persisted ore-source and structure
/// stores: sources appear at full charge under sequential ids, structures
/// are sorted by id, and no agents are included.
pub fn snapshot_from_persistent(
    ore_store: &QiSourceStore,
    structure_store: &StructureStore,
) -> (r: WorldSnapshot)
    requires
        ore_store.sources@.len() < 0x1000_0000,
    ensures
        r.tick == 0,
        r.agents@.len() == 0,
        r.ore_nodes@.len() == ore_store.sources@.len(),
        forall|i: int|
            0 <= i < ore_store.sources@.len() ==> {
                let s = #[trigger] ore_store.sources@[i];
                r.ore_nodes@[i] == (OreNodeSnapshot {
                    id: (i + 1) as u64,
                    ore: s.ore,
                    position: s.position,
                    available: s.capacity,
                    capacity: s.capacity,
                    recharge_per_tick: s.recharge_per_tick,
                })
            },
        views_sorted_by_id(r.structures@),
        r.structures@.to_multiset() == structure_store.structures@.map_values(
            |s: StructureRecord| spec_record_view(s),
        ).to_multiset(),
{
    let mut ore_nodes: Vec<OreNodeSnapshot> = Vec::new();
    let ns = ore_store.sources.len();
    let mut i: usize = 0;
    while i < ns
        invariant
            0 <= i <= ns,
            ns == ore_store.sources.len(),
            ns < 0x1000_0000,
            ore_nodes@.len() == i,
            forall|j: int|
                0 <= j < i ==> {
                    let s = #[trigger] ore_store.sources@[j];
                    ore_nodes@[j] == (OreNodeSnapshot {
                        id: (j + 1) as u64,
                        ore: s.ore,
                        position: s.position,
                        available: s.capacity,
                        capacity: s.capacity,
                        recharge_per_tick: s.recharge_per_tick,
                    })
                },
        decreases ns - i,
    {
        let s = ore_store.sources[i];
        ore_nodes.push(
            OreNodeSnapshot {
                id: (i as u64) + 1,
                ore: s.ore,
                position: s.position,
                available: s.capacity,
                capacity: s.capacity,
                recharge_per_tick: s.recharge_per_tick,
            },
        );
        i += 1;
    }
    let mut mapped: Vec<StructureView> = Vec::new();
    let nt = structure_store.structures.len();
    let mut m: usize = 0;
    while m < nt
        invariant
            0 <= m <= nt,
            nt == structure_store.structures.len(),
            mapped@ == structure_store.structures@.take(m as int).map_values(
                |s: StructureRecord| spec_record_view(s),
            ),
        decreases nt - m,
    {
        let s = structure_store.structures[m];
        mapped.push(StructureView { id: s.id, kind: s.kind, position: s.position, owner: s.owner });
        proof {
            assert(mapped@ =~= structure_store.structures@.take(m as int + 1).map_values(
                |s: StructureRecord| spec_record_view(s),
            ));
        }
        m += 1;
    }
    proof {
        assert(structure_store.structures@.take(nt as int) =~= structure_store.structures@);
    }
    let structures = sort_views_by_id(mapped);
    WorldSnapshot { tick: 0, agents: Vec::new(), ore_nodes, structures }
}

} // verus!
