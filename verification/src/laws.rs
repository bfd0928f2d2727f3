//! Laws of the tick engine, stated over the transition functions that
//! `Vm::step` and the world mutators are proved to implement.

use vstd::prelude::*;
use crate::actions::{Action, ActionError, ActionRequest};
use crate::model::{
    imin, wf_agents_base, wf_world, AgentV, WorldV,
};
use crate::space::MAX_MOVE_RADIUS;
use crate::vmspec::{move_delta, spec_apply};
use crate::world::HARVEST_PER_ACTION;

verus! {

/// A successful move charges exactly 1 Qi, and the Qi is not destroyed: it
/// enters the recycled pool. The mover ends on the target cell.
pub proof fn lemma_move_charges_one_qi(
    w: WorldV,
    snap: Seq<AgentV>,
    reqs: Seq<ActionRequest>,
    req: ActionRequest,
    fired: Seq<(u64, u64)>,
)
    requires
        1 <= req.agent_id <= w.agents.len(),
        req.action is Move,
        spec_apply(w, snap, reqs, req, fired).rejection is None,
    ensures
        ({
            let idx = req.agent_id - 1;
            let out = spec_apply(w, snap, reqs, req, fired);
            &&& out.world.agents[idx].qi == w.agents[idx].qi - 1
            &&& out.world.recycled_qi == crate::model::sat_add_u64(w.recycled_qi as int, 1)
            &&& out.world.agents[idx].position == w.agents[idx].position.spec_offset(
                req.action->Move_dx as int,
                req.action->Move_dy as int,
                req.action->Move_dz as int,
            )
        }),
{
    reveal(spec_apply);
}

/// Moving beyond `MAX_MOVE_RADIUS` is always rejected with `MoveOutOfRange`
/// and never charges Qi: the world is left untouched.
pub proof fn lemma_move_out_of_range_rejected(
    w: WorldV,
    snap: Seq<AgentV>,
    reqs: Seq<ActionRequest>,
    req: ActionRequest,
    fired: Seq<(u64, u64)>,
    dx: i32,
    dy: i32,
    dz: i32,
)
    requires
        wf_agents_base(w.agents),
        1 <= req.agent_id <= w.agents.len(),
        w.agents[req.agent_id - 1].alive,
        req.action == (Action::Move { dx, dy, dz }),
        move_delta(dx as int, dy as int, dz as int) > MAX_MOVE_RADIUS as int,
    ensures
        spec_apply(w, snap, reqs, req, fired).rejection == Some(
            ActionError::MoveOutOfRange { agent_id: req.agent_id, dx, dy, dz },
        ),
        spec_apply(w, snap, reqs, req, fired).world == w,
{
    reveal(spec_apply);
    assert(w.agents[req.agent_id - 1].id == req.agent_id);
}

/// A harvest from a source holding at least `HARVEST_PER_ACTION` drains
/// exactly `min(available, HARVEST_PER_ACTION)` from it.
pub proof fn lemma_harvest_drains_min(
    w: WorldV,
    snap: Seq<AgentV>,
    reqs: Seq<ActionRequest>,
    req: ActionRequest,
    fired: Seq<(u64, u64)>,
)
    requires
        crate::model::wf_sources(w.qi_sources),
        1 <= req.agent_id <= w.agents.len(),
        req.action is HarvestOre,
        spec_apply(w, snap, reqs, req, fired).rejection is None,
    ensures
        ({
            let idx = req.agent_id - 1;
            let out = spec_apply(w, snap, reqs, req, fired);
            let ore = req.action->HarvestOre_ore;
            let sel = crate::vmspec::harvest_selected(
                w.qi_sources,
                ore,
                w.agents[idx].position,
                req.action->HarvestOre_source_id,
            );
            let amount = imin(sel->0.current as int, HARVEST_PER_ACTION as int);
            &&& sel is Some
            &&& 1 <= sel->0.id <= w.qi_sources.len()
            &&& sel->0.current >= HARVEST_PER_ACTION
            &&& out.world.qi_sources[sel->0.id - 1].current == sel->0.current - amount
            &&& (ore is Qi ==> out.world.agents[idx].qi == crate::model::sat_add_u32(
                w.agents[idx].qi - 1,
                amount,
            ))
            &&& (ore is Transistor ==> out.world.agents[idx].qi == w.agents[idx].qi - 1
                && out.world.agents[idx].transistors == crate::model::sat_add_u32(
                w.agents[idx].transistors as int,
                amount,
            ))
        }),
{
    reveal(spec_apply);
    let idx = req.agent_id - 1;
    let ore = req.action->HarvestOre_ore;
    let source_id = req.action->HarvestOre_source_id;
    let sel = crate::vmspec::harvest_selected(
        w.qi_sources,
        ore,
        w.agents[idx].position,
        source_id,
    );
    if source_id == 0 {
        crate::world::lemma_nearest_in_sources(
            w.qi_sources,
            ore,
            w.agents[idx].position,
            w.qi_sources.len() as int,
        );
        if sel is Some {
            let j = choose|j: int| 0 <= j < w.qi_sources.len() && w.qi_sources[j] == sel->0;
            assert(w.qi_sources[j].id == j + 1);
        }
    }
}

/// A harvest from a source holding less than `HARVEST_PER_ACTION` is
/// rejected outright with `OreSourceDepleted`, and no Qi is charged: the
/// world is left untouched.
pub proof fn lemma_harvest_depleted_rejected(
    w: WorldV,
    snap: Seq<AgentV>,
    reqs: Seq<ActionRequest>,
    req: ActionRequest,
    fired: Seq<(u64, u64)>,
    ore: crate::ore::OreKind,
    source_id: u64,
)
    requires
        wf_agents_base(w.agents),
        1 <= req.agent_id <= w.agents.len(),
        w.agents[req.agent_id - 1].alive,
        req.action == (Action::HarvestOre { ore, source_id }),
        ({
            let sel = crate::vmspec::harvest_selected(
                w.qi_sources,
                ore,
                w.agents[req.agent_id - 1].position,
                source_id,
            );
            &&& sel is Some
            &&& w.agents[req.agent_id - 1].position.spec_within_range(
                sel->0.position,
                crate::space::HARVEST_RANGE as int,
            )
            &&& sel->0.current < HARVEST_PER_ACTION
        }),
    ensures
        ({
            let sel = crate::vmspec::harvest_selected(
                w.qi_sources,
                ore,
                w.agents[req.agent_id - 1].position,
                source_id,
            );
            spec_apply(w, snap, reqs, req, fired).rejection == Some(
                ActionError::OreSourceDepleted {
                    agent_id: req.agent_id,
                    ore,
                    source_id: sel->0.id,
                    available: sel->0.current,
                },
            )
        }),
        spec_apply(w, snap, reqs, req, fired).world == w,
{
    reveal(spec_apply);
    assert(w.agents[req.agent_id - 1].id == req.agent_id);
}

/// The recharge pass conserves Qi up to minting: the change in
/// sources-plus-pool equals exactly the budget it consumed.
pub proof fn lemma_recharge_from_conserves(
    sources: Seq<crate::world::QiSource>,
    i: int,
    pool: int,
    budget: int,
)
    requires
        0 <= i <= sources.len(),
        pool >= 0,
        budget >= 0,
        forall|j: int|
            0 <= j < sources.len() ==> (#[trigger] sources[j]).current <= sources[j].capacity,
    ensures
        ({
            let res = crate::model::recharge_from(sources, i, pool, budget);
            &&& res.0.len() == sources.len()
            &&& res.1 >= 0
            &&& 0 <= res.2 <= budget
            &&& crate::model::sources_qi_sum(res.0, res.0.len() as int) + res.1
                == crate::model::sources_qi_sum(sources, sources.len() as int) + pool + (budget
                - res.2)
            &&& forall|j: int|
                0 <= j < sources.len() ==> (#[trigger] res.0[j]) == (crate::world::QiSource {
                    current: res.0[j].current,
                    ..sources[j]
                }) && res.0[j].current <= res.0[j].capacity
        }),
    decreases sources.len() - i,
{
    let res = crate::model::recharge_from(sources, i, pool, budget);
    if i < sources.len() {
        let (src, pool1, budget1) = crate::model::recharge_one(sources[i], pool, budget);
        let s1 = sources.update(i, src);
        crate::model::lemma_sources_sum_update(sources, i, src, sources.len() as int);
        assert(src.current <= src.capacity);
        assert(crate::model::source_qi_contrib(src) - crate::model::source_qi_contrib(sources[i])
            == (pool - pool1) + (budget - budget1));
        assert(forall|j: int|
            0 <= j < s1.len() ==> (#[trigger] s1[j]).current <= s1[j].capacity);
        lemma_recharge_from_conserves(s1, i + 1, pool1, budget1);
        assert forall|j: int|
            0 <= j < sources.len() implies (#[trigger] res.0[j]) == (crate::world::QiSource {
                current: res.0[j].current,
                ..sources[j]
            }) && res.0[j].current <= res.0[j].capacity by {
            assert(res.0[j] == (crate::world::QiSource { current: res.0[j].current, ..s1[j] }));
            if j != i {
                assert(s1[j] == sources[j]);
            }
        }
    }
}

/// Qi-kind ore source recharge, under a global supply cap, never pushes the
/// total system Qi (agents plus Qi sources plus the recycled pool) over the
/// cap.
pub proof fn lemma_recharge_respects_cap(w: WorldV, cap: u64)
    requires
        crate::model::wf_sources(w.qi_sources),
        w.max_qi_supply == Some(cap),
        crate::model::spec_total_qi(w) <= cap,
    ensures
        crate::model::spec_total_qi(crate::model::spec_recharge(w)) <= cap,
{
    let total0 = crate::model::spec_total_qi(w);
    let real0 = crate::model::agents_qi_sum(w.agents, w.agents.len() as int)
        + crate::model::sources_qi_sum(w.qi_sources, w.qi_sources.len() as int) + w.recycled_qi;
    let budget: int = if cap >= total0 {
        cap - total0
    } else {
        0
    };
    lemma_recharge_from_conserves(w.qi_sources, 0, w.recycled_qi as int, budget);
    let w1 = crate::model::spec_recharge(w);
    let res = crate::model::recharge_from(w.qi_sources, 0, w.recycled_qi as int, budget);
    assert(w1.agents == w.agents);
    let real1 = crate::model::agents_qi_sum(w1.agents, w1.agents.len() as int)
        + crate::model::sources_qi_sum(w1.qi_sources, w1.qi_sources.len() as int)
        + w1.recycled_qi;
    if real0 > u64::MAX {
        assert(total0 == u64::MAX as int);
        assert(budget == 0);
        assert(real1 <= real0);
    } else {
        assert(total0 == real0);
        assert(real1 <= real0 + budget);
        assert(real1 <= cap);
    }
}

/// The properties of the end-of-tick age sweep: only `alive` flags change
/// (so no Qi moves), agents are never removed, and every death is logged.
pub proof fn lemma_enforce_props(w: WorldV, i: int)
    requires
        0 <= i <= w.agents.len(),
    ensures
        ({
            let res = crate::vmspec::spec_enforce_age(w, i);
            &&& res.0.agents.len() == w.agents.len()
            &&& res.0 == (WorldV { agents: res.0.agents, ..w })
            &&& forall|j: int|
                0 <= j < w.agents.len() ==> (#[trigger] res.0.agents[j]) == if j >= i
                    && w.agents[j].alive && w.agents[j].age >= w.agents[j].max_age {
                    AgentV { alive: false, ..w.agents[j] }
                } else {
                    w.agents[j]
                }
            &&& forall|j: int|
                i <= j < w.agents.len() && (#[trigger] w.agents[j]).alive && w.agents[j].age
                    >= w.agents[j].max_age ==> res.1.contains(
                    crate::events::EventV::AgentDied {
                        agent_id: w.agents[j].id,
                        reason: crate::actions::DeathReason::Age,
                    },
                )
        }),
    decreases w.agents.len() - i,
{
    let res = crate::vmspec::spec_enforce_age(w, i);
    if i < w.agents.len() {
        let a = w.agents[i];
        if a.alive && a.age >= a.max_age {
            let w1 = WorldV {
                agents: w.agents.update(i, AgentV { alive: false, ..a }),
                ..w
            };
            lemma_enforce_props(w1, i + 1);
            let rest = crate::vmspec::spec_enforce_age(w1, i + 1);
            assert(res.0 =~= (WorldV { agents: res.0.agents, ..w }));
            assert forall|j: int|
                i <= j < w.agents.len() && (#[trigger] w.agents[j]).alive && w.agents[j].age
                    >= w.agents[j].max_age implies res.1.contains(
                crate::events::EventV::AgentDied {
                    agent_id: w.agents[j].id,
                    reason: crate::actions::DeathReason::Age,
                },
            ) by {
                let ev = crate::events::EventV::AgentDied {
                    agent_id: w.agents[j].id,
                    reason: crate::actions::DeathReason::Age,
                };
                if j == i {
                    assert(res.1[0] == ev);
                } else {
                    assert(w1.agents[j] == w.agents[j]);
                    assert(rest.1.contains(ev));
                    let k = choose|k: int| 0 <= k < rest.1.len() && rest.1[k] == ev;
                    assert(res.1[k + 1] == ev);
                }
            }
        } else {
            lemma_enforce_props(w, i + 1);
        }
    }
}

/// A tick with no requests never pushes the total system Qi over the supply
/// cap: recharge respects the cap, and the age sweep moves no Qi. Spent Qi
/// within a tick is recycled rather than destroyed, so the cap continues to
/// hold tick after tick.
pub proof fn lemma_idle_tick_respects_cap(w: WorldV, cap: u64)
    requires
        crate::model::wf_sources(w.qi_sources),
        w.max_qi_supply == Some(cap),
        crate::model::spec_total_qi(w) <= cap,
    ensures
        ({
            let stepped = crate::vmspec::spec_step(w, Seq::empty()).world;
            &&& crate::model::spec_total_qi(stepped) <= cap
            &&& stepped.max_qi_supply == Some(cap)
            &&& crate::model::wf_sources(stepped.qi_sources)
        }),
{
    lemma_recharge_respects_cap(w, cap);
    let w1 = crate::model::spec_recharge(w);
    lemma_recharge_from_conserves(
        w.qi_sources,
        0,
        w.recycled_qi as int,
        if cap >= crate::model::spec_total_qi(w) {
            cap - crate::model::spec_total_qi(w)
        } else {
            0
        },
    );
    let run = crate::vmspec::spec_run(w1, w1.agents, Seq::empty(), 0, Seq::empty());
    assert(run.0 == w1);
    lemma_enforce_props(run.0, 0);
    let aged = crate::vmspec::spec_enforce_age(run.0, 0);
    crate::model::lemma_agents_sum_pointwise(
        aged.0.agents,
        w1.agents,
        w1.agents.len() as int,
    );
    let stepped = crate::vmspec::spec_step(w, Seq::empty()).world;
    assert(stepped.qi_sources == aged.0.qi_sources);
    assert(stepped.recycled_qi == aged.0.recycled_qi);
    assert(crate::model::agents_qi_sum(stepped.agents, stepped.agents.len() as int)
        == crate::model::agents_qi_sum(w1.agents, w1.agents.len() as int));
    let res = crate::model::recharge_from(
        w.qi_sources,
        0,
        w.recycled_qi as int,
        if cap >= crate::model::spec_total_qi(w) {
            cap - crate::model::spec_total_qi(w)
        } else {
            0
        },
    );
    assert forall|j: int|
        0 <= j < stepped.qi_sources.len() implies (#[trigger] stepped.qi_sources[j]).id == j + 1
            && stepped.qi_sources[j].current <= stepped.qi_sources[j].capacity by {
        assert(stepped.qi_sources[j] == res.0[j]);
        assert(res.0[j] == (crate::world::QiSource { current: res.0[j].current, ..w.qi_sources[j] }));
    }
}

/// Without mutual consent, resolving any one request leaves the number of
/// agents unchanged: only a mutual reproduction spawns.
proof fn lemma_apply_no_mutual_keeps_len(
    w: WorldV,
    snap: Seq<AgentV>,
    reqs: Seq<ActionRequest>,
    req: ActionRequest,
    fired: Seq<(u64, u64)>,
)
    requires
        forall|x: u64, y: u64| !crate::vmspec::spec_mutual(reqs, x, y),
    ensures
        spec_apply(w, snap, reqs, req, fired).world.agents.len() == w.agents.len(),
{
    reveal(spec_apply);
}

/// Declaring a partner one-sidedly never produces a child: a batch with no
/// mutual pair leaves the number of agents unchanged over the whole run.
proof fn lemma_run_no_mutual_keeps_len(
    w: WorldV,
    snap: Seq<AgentV>,
    reqs: Seq<ActionRequest>,
    i: int,
    fired: Seq<(u64, u64)>,
)
    requires
        forall|x: u64, y: u64| !crate::vmspec::spec_mutual(reqs, x, y),
    ensures
        crate::vmspec::spec_run(w, snap, reqs, i, fired).0.agents.len() == w.agents.len(),
    decreases reqs.len() - i,
{
    if 0 <= i < reqs.len() {
        let out = spec_apply(w, snap, reqs, reqs[i], fired);
        lemma_apply_no_mutual_keeps_len(w, snap, reqs, reqs[i], fired);
        lemma_run_no_mutual_keeps_len(out.world, snap, reqs, i + 1, out.fired);
    }
}

/// Reproduction only succeeds when both agents declare each other in the
/// same tick: a batch without mutual consent spawns nobody.
pub proof fn lemma_one_sided_reproduction_spawns_nothing(w: WorldV, reqs: Seq<ActionRequest>)
    requires
        forall|x: u64, y: u64| !crate::vmspec::spec_mutual(reqs, x, y),
    ensures
        crate::vmspec::spec_step(w, reqs).world.agents.len() == w.agents.len(),
{
    let w1 = crate::model::spec_recharge(w);
    lemma_run_no_mutual_keeps_len(w1, w1.agents, reqs, 0, Seq::empty());
    let run = crate::vmspec::spec_run(w1, w1.agents, reqs, 0, Seq::empty());
    lemma_enforce_props(run.0, 0);
}

/// A mutual pair that both declare each other in the same tick produces
/// exactly one child — never two — and only the initiator (the earlier
/// request) pays the 1 Qi; the partner is not charged.
#[verifier::rlimit(100)]
pub proof fn lemma_mutual_pair_exactly_one_child(w: WorldV, a: u64, b: u64)
    requires
        wf_world(w),
        1 <= a <= w.agents.len(),
        1 <= b <= w.agents.len(),
        a != b,
        w.agents[a - 1].alive,
        w.agents[b - 1].alive,
        w.agents[a - 1].position.spec_zone() == w.agents[b - 1].position.spec_zone(),
        w.agents[a - 1].qi >= 1,
    ensures
        ({
            let reqs = seq![
                ActionRequest { agent_id: a, action: Action::Reproduce { partner: b } },
                ActionRequest { agent_id: b, action: Action::Reproduce { partner: a } },
            ];
            let stepped = crate::vmspec::spec_step(w, reqs).world;
            &&& stepped.agents.len() == w.agents.len() + 1
            &&& stepped.agents[w.agents.len() as int].qi == 1
            &&& stepped.agents[a - 1].qi == w.agents[a - 1].qi - 1
            &&& stepped.agents[b - 1].qi == w.agents[b - 1].qi
        }),
{
    reveal(spec_apply);
    let reqs = seq![
        ActionRequest { agent_id: a, action: Action::Reproduce { partner: b } },
        ActionRequest { agent_id: b, action: Action::Reproduce { partner: a } },
    ];
    assert(reqs.drop_last() =~= seq![reqs[0]]);
    assert(seq![reqs[0]].drop_last() =~= Seq::<ActionRequest>::empty());
    assert(reqs.last() == reqs[1]);
    assert(seq![reqs[0]].last() == reqs[0]);
    assert(crate::vmspec::spec_intent(seq![reqs[0]], a) == Some(b));
    assert(crate::vmspec::spec_intent(reqs, a) == crate::vmspec::spec_intent(seq![reqs[0]], a));
    assert(crate::vmspec::spec_intent(reqs, b) == Some(a));
    assert(crate::vmspec::spec_mutual(reqs, a, b));
    assert(crate::vmspec::spec_mutual(reqs, b, a));

    let w1 = crate::model::spec_recharge(w);
    assert(w1.agents == w.agents);
    let snap = w1.agents;

    // first request: the initiator spawns the child and pays 1 Qi
    let out0 = spec_apply(w1, snap, reqs, reqs[0], Seq::empty());
    assert(w1.agents[a - 1].id == a);
    let agent0 = AgentV {
        qi: (w1.agents[a - 1].qi - 1) as u32,
        age: crate::vmspec::age_bump(w1.agents[a - 1].age),
        ..w1.agents[a - 1]
    };
    let wmid = WorldV {
        agents: w1.agents.update(a - 1, agent0),
        recycled_qi: crate::model::sat_add_u64(w1.recycled_qi as int, 1) as u64,
        ..w1
    };
    assert(out0.world == crate::model::spec_spawn(
        wmid,
        crate::model::child_name(a, b),
        1u32,
        w1.agents[a - 1].position,
        crate::world::DEFAULT_MAX_AGENT_AGE,
    ).0);
    assert(out0.world.agents.len() == w.agents.len() + 1);
    assert(out0.world.agents[w.agents.len() as int].qi == 1);
    assert(out0.fired =~= seq![crate::vmspec::sorted_pair(a, b)]);

    // second request: the partner's side is a free no-op
    let out1 = spec_apply(out0.world, snap, reqs, reqs[1], out0.fired);
    assert(out0.world.agents[b - 1] == w.agents[b - 1]);
    assert(out0.world.agents[b - 1].id == b);
    assert(crate::vmspec::sorted_pair(b, a) == crate::vmspec::sorted_pair(a, b));
    assert(out0.fired[0] == crate::vmspec::sorted_pair(b, a));
    assert(out0.fired.contains(crate::vmspec::sorted_pair(b, a)));
    assert(out1.world.agents.len() == w.agents.len() + 1);
    assert(out1.world.agents[b - 1].qi == w.agents[b - 1].qi);
    assert(out1.world.agents[a - 1].qi == w.agents[a - 1].qi - 1);
    assert(out1.world.agents[w.agents.len() as int].qi == 1);

    let run = crate::vmspec::spec_run(w1, snap, reqs, 0, Seq::empty());
    let run1 = crate::vmspec::spec_run(out0.world, snap, reqs, 1, out0.fired);
    assert(crate::vmspec::spec_run(out1.world, snap, reqs, 2, out1.fired).0 == out1.world);
    assert(run1.0 == out1.world);
    assert(run.0 == run1.0);
    lemma_enforce_props(run.0, 0);
}

/// Every successful request ages its agent by exactly one tick and keeps it
/// alive, whatever the action was.
proof fn lemma_apply_success_bumps_age(
    w: WorldV,
    snap: Seq<AgentV>,
    reqs: Seq<ActionRequest>,
    req: ActionRequest,
    fired: Seq<(u64, u64)>,
)
    requires
        1 <= req.agent_id <= w.agents.len(),
        spec_apply(w, snap, reqs, req, fired).rejection is None,
    ensures
        ({
            let idx = req.agent_id - 1;
            let out = spec_apply(w, snap, reqs, req, fired);
            &&& out.world.agents.len() >= w.agents.len()
            &&& out.world.agents[idx].age == crate::vmspec::age_bump(w.agents[idx].age)
            &&& out.world.agents[idx].alive == w.agents[idx].alive
            &&& out.world.agents[idx].max_age == w.agents[idx].max_age
            &&& out.world.agents[idx].id == w.agents[idx].id
        }),
{
    reveal(spec_apply);
}

/// An agent at `age == max_age - 1` survives one more successful tick, then
/// is marked dead with an age-death event exactly at `age == max_age`,
/// regardless of which action it attempted.
pub proof fn lemma_age_death_after_final_tick(w: WorldV, req: ActionRequest)
    requires
        wf_world(w),
        1 <= req.agent_id <= w.agents.len(),
        w.agents[req.agent_id - 1].alive,
        w.agents[req.agent_id - 1].age == w.agents[req.agent_id - 1].max_age - 1,
        ({
            let w1 = crate::model::spec_recharge(w);
            spec_apply(w1, w1.agents, seq![req], req, Seq::empty()).rejection is None
        }),
    ensures
        ({
            let idx = req.agent_id - 1;
            let stepped = crate::vmspec::spec_step(w, seq![req]);
            &&& stepped.world.agents[idx].age == w.agents[idx].max_age
            &&& !stepped.world.agents[idx].alive
            &&& stepped.events.contains(
                crate::events::EventV::AgentDied {
                    agent_id: req.agent_id,
                    reason: crate::actions::DeathReason::Age,
                },
            )
        }),
{
    let idx = req.agent_id - 1;
    let w1 = crate::model::spec_recharge(w);
    assert(w1.agents == w.agents);
    let reqs = seq![req];
    let out = spec_apply(w1, w1.agents, reqs, reqs[0], Seq::empty());
    lemma_apply_success_bumps_age(w1, w1.agents, reqs, reqs[0], Seq::empty());
    assert(w.agents[idx].age < w.agents[idx].max_age <= u64::MAX);
    assert(out.world.agents[idx].age == w.agents[idx].max_age);
    let run = crate::vmspec::spec_run(w1, w1.agents, reqs, 0, Seq::empty());
    assert(crate::vmspec::spec_run(out.world, w1.agents, reqs, 1, out.fired).0 == out.world);
    assert(run.0 == out.world);
    lemma_enforce_props(run.0, 0);
    let aged = crate::vmspec::spec_enforce_age(run.0, 0);
    assert(run.0.agents[idx].alive && run.0.agents[idx].age >= run.0.agents[idx].max_age);
    assert(run.0.agents[idx].id == req.agent_id);
    let ev = crate::events::EventV::AgentDied {
        agent_id: req.agent_id,
        reason: crate::actions::DeathReason::Age,
    };
    assert(aged.1.contains(ev));
    let stepped = crate::vmspec::spec_step(w, reqs);
    let k = choose|k: int| 0 <= k < aged.1.len() && aged.1[k] == ev;
    assert(stepped.events[1 + run.1.len() + k] == ev);
    assert(stepped.events.contains(ev));
}

/// The recharge pass never touches a source standing at full capacity.
proof fn lemma_recharge_keeps_full(
    sources: Seq<crate::world::QiSource>,
    i: int,
    pool: int,
    budget: int,
    j: int,
)
    requires
        0 <= i <= sources.len(),
        0 <= j < sources.len(),
        sources[j].current == sources[j].capacity,
    ensures
        crate::model::recharge_from(sources, i, pool, budget).0[j] == sources[j],
    decreases sources.len() - i,
{
    if i < sources.len() {
        let (src, pool1, budget1) = crate::model::recharge_one(sources[i], pool, budget);
        let s1 = sources.update(i, src);
        if i == j {
            assert(src == sources[j]);
        }
        lemma_recharge_keeps_full(s1, i + 1, pool1, budget1, j);
    }
}

/// A source within range appears in the nearby-source report.
proof fn lemma_nearby_contains(
    sources: Seq<crate::world::QiSource>,
    p: crate::space::Position,
    range: int,
    i: int,
    j: int,
)
    requires
        0 <= j < i <= sources.len(),
        sources[j].position.spec_within_range(p, range),
    ensures
        crate::world::nearby_sources_upto(sources, p, range, i).contains(
            sources[j].spec_snapshot(),
        ),
    decreases i,
{
    let prev = crate::world::nearby_sources_upto(sources, p, range, i - 1);
    if j == i - 1 {
        let whole = crate::world::nearby_sources_upto(sources, p, range, i);
        assert(whole[whole.len() - 1] == sources[j].spec_snapshot());
    } else {
        lemma_nearby_contains(sources, p, range, i - 1, j);
        let k = choose|k: int| 0 <= k < prev.len() && prev[k] == sources[j].spec_snapshot();
        assert(crate::world::nearby_sources_upto(sources, p, range, i)[k] == sources[
            j
        ].spec_snapshot());
    }
}

/// A scan by a live agent always succeeds, and its report lists exactly the
/// sources and structures within scan range of the agent.
proof fn lemma_scan_apply(
    w: WorldV,
    snap: Seq<AgentV>,
    reqs: Seq<ActionRequest>,
    req: ActionRequest,
    fired: Seq<(u64, u64)>,
)
    requires
        1 <= req.agent_id <= w.agents.len(),
        w.agents[req.agent_id - 1].alive,
        req.action is Scan,
    ensures
        ({
            let idx = req.agent_id - 1;
            let out = spec_apply(w, snap, reqs, req, fired);
            &&& out.rejection is None
            &&& out.events.len() == 2
            &&& out.events[1] == (crate::events::EventV::ScanReport {
                agent_id: w.agents[idx].id,
                position: w.agents[idx].position,
                qi: w.agents[idx].qi,
                nearby_qi_sources: crate::world::spec_nearby_sources(
                    w.qi_sources,
                    w.agents[idx].position,
                    crate::space::SCAN_RANGE as int,
                ),
                nearby_structures: crate::world::spec_nearby_structures(
                    w.structures,
                    w.agents[idx].position,
                    crate::space::SCAN_RANGE as int,
                ),
            })
        }),
{
    reveal(spec_apply);
}

/// Round trip: seeding an ore source and immediately scanning from within
/// range reports that exact source — id, position, available level and
/// capacity — in the scan report.
#[verifier::rlimit(100)]
pub proof fn lemma_seed_then_scan_reports_source(
    w: WorldV,
    agent_id: u64,
    ore: crate::ore::OreKind,
    position: crate::space::Position,
    capacity: u32,
    recharge_per_tick: u32,
)
    requires
        wf_world(w),
        w.qi_sources.len() < crate::model::WORLD_CAPACITY,
        1 <= agent_id <= w.agents.len(),
        w.agents[agent_id - 1].alive,
        w.agents[agent_id - 1].position.spec_within_range(
            position,
            crate::space::SCAN_RANGE as int,
        ),
    ensures
        ({
            let seeded = crate::model::spec_add_source(w, ore, position, capacity, recharge_per_tick);
            let reqs = seq![ActionRequest { agent_id, action: Action::Scan }];
            let stepped = crate::vmspec::spec_step(seeded.0, reqs);
            &&& stepped.events[2] is ScanReport
            &&& stepped.events[2]->ScanReport_nearby_qi_sources.contains(
                crate::events::QiSourceSnapshot {
                    id: seeded.1,
                    ore,
                    position,
                    available: capacity,
                    capacity,
                },
            )
        }),
{
    let idx = agent_id - 1;
    let seeded = crate::model::spec_add_source(w, ore, position, capacity, recharge_per_tick);
    let w0 = seeded.0;
    let sid = seeded.1;
    let reqs = seq![ActionRequest { agent_id, action: Action::Scan }];
    let src_new = crate::world::QiSource {
        id: sid,
        ore,
        position,
        capacity,
        current: capacity,
        recharge_per_tick,
    };
    assert(sid == w.qi_sources.len() + 1);
    assert(w0.qi_sources == w.qi_sources.push(src_new));
    assert(w0.qi_sources[sid - 1] == src_new);
    let w1 = crate::model::spec_recharge(w0);
    assert(w1.agents == w.agents);
    let total = crate::model::spec_total_qi(w0);
    let budget: int = match w0.max_qi_supply {
        Some(max) => if max >= total {
            max - total
        } else {
            0
        },
        None => u64::MAX as int,
    };
    lemma_recharge_keeps_full(w0.qi_sources, 0, w0.recycled_qi as int, budget, sid - 1);
    assert(w1.qi_sources[sid - 1] == w0.qi_sources[sid - 1]);
    lemma_recharge_from_conserves(w0.qi_sources, 0, w0.recycled_qi as int, budget);
    assert(w1.qi_sources.len() == w0.qi_sources.len());

    let out = spec_apply(w1, w1.agents, reqs, reqs[0], Seq::empty());
    lemma_scan_apply(w1, w1.agents, reqs, reqs[0], Seq::empty());
    let apos = w.agents[idx].position;
    assert(position.spec_within_range(apos, crate::space::SCAN_RANGE as int));
    assert(out.events[1] is ScanReport);
    let reported = crate::world::spec_nearby_sources(
        w1.qi_sources,
        apos,
        crate::space::SCAN_RANGE as int,
    );
    lemma_nearby_contains(
        w1.qi_sources,
        apos,
        crate::space::SCAN_RANGE as int,
        w1.qi_sources.len() as int,
        sid - 1,
    );
    assert(w1.qi_sources[sid - 1].spec_snapshot() == (crate::events::QiSourceSnapshot {
        id: sid,
        ore,
        position,
        available: capacity,
        capacity,
    }));
    assert(reported.contains(
        crate::events::QiSourceSnapshot { id: sid, ore, position, available: capacity, capacity },
    ));

    let run = crate::vmspec::spec_run(w1, w1.agents, reqs, 0, Seq::empty());
    assert(crate::vmspec::spec_run(out.world, w1.agents, reqs, 1, out.fired).0 == out.world);
    assert(run.1 =~= out.events);
    let stepped = crate::vmspec::spec_step(w0, reqs);
    assert(stepped.events[2] == out.events[1]);
}

} // verus!
