//! The tick engine: orchestrates one discrete time step, applying a batch of
//! per-agent action requests against the world, resolving conflicts,
//! charging costs, emitting events and rejections, and enforcing lifespans.

use vstd::prelude::*;
use crate::actions::{Action, ActionError, ActionRejection, ActionRequest, AgentId, DeathReason, Qi};
use crate::events::{events_view, Event, EventV, QiSourceSnapshot, StructureSnapshot};
use crate::model::{
    ages_ok, child_name, wf_agents_base, wf_sources, wf_structures, wf_world, AgentV, WorldV,
    WORLD_CAPACITY,
};
use crate::ore::OreKind;
use crate::space::Position;
use crate::structure::StructureKind;
use crate::vmspec::{
    spec_apply, spec_apply_build, spec_apply_harvest, spec_apply_move, spec_apply_reproduce,
    spec_apply_scan, spec_enforce_age, spec_intent, spec_kill, spec_mutual, spec_run, spec_step,
};
use crate::world::{World, DEFAULT_MAX_AGENT_AGE, HARVEST_PER_ACTION, QiSource};

verus! {

/// What one call of `step` returns: the tick number, the tick's events, and
/// the per-request rejections.
#[derive(Debug, Clone, PartialEq, Eq)]
pub struct TickResult {
    pub tick: u64,
    pub events: Vec<Event>,
    pub rejections: Vec<ActionRejection>,
}

/// An exact copy of a source-snapshot list.
fn copy_source_snapshots(v: &Vec<QiSourceSnapshot>) -> (r: Vec<QiSourceSnapshot>)
    ensures
        r@ == v@,
{
    let mut r: Vec<QiSourceSnapshot> = Vec::new();
    let n = v.len();
    let mut i: usize = 0;
    while i < n
        invariant
            0 <= i <= n,
            n == v.len(),
            r@ == v@.take(i as int),
        decreases n - i,
    {
        r.push(v[i]);
        proof {
            assert(r@ =~= v@.take(i as int + 1));
        }
        i += 1;
    }
    proof {
        assert(v@.take(n as int) =~= v@);
    }
    r
}

/// An exact copy of a structure-snapshot list.
fn copy_structure_snapshots(v: &Vec<StructureSnapshot>) -> (r: Vec<StructureSnapshot>)
    ensures
        r@ == v@,
{
    let mut r: Vec<StructureSnapshot> = Vec::new();
    let n = v.len();
    let mut i: usize = 0;
    while i < n
        invariant
            0 <= i <= n,
            n == v.len(),
            r@ == v@.take(i as int),
        decreases n - i,
    {
        r.push(v[i]);
        proof {
            assert(r@ =~= v@.take(i as int + 1));
        }
        i += 1;
    }
    proof {
        assert(v@.take(n as int) =~= v@);
    }
    r
}

/// An exact copy of an event, equal in mathematical form.
fn clone_event(e: &Event) -> (r: Event)
    ensures
        r@ == e@,
{
    match e {
        Event::TickStarted { tick } => Event::TickStarted { tick: *tick },
        Event::TickCompleted { tick } => Event::TickCompleted { tick: *tick },
        Event::AgentSpawned { agent_id, name, qi, position } => Event::AgentSpawned {
            agent_id: *agent_id,
            name: name.clone(),
            qi: *qi,
            position: *position,
        },
        Event::QiSpent { agent_id, amount, action } => Event::QiSpent {
            agent_id: *agent_id,
            amount: *amount,
            action: *action,
        },
        Event::OreGained { agent_id, ore, amount, source } => Event::OreGained {
            agent_id: *agent_id,
            ore: *ore,
            amount: *amount,
            source: *source,
        },
        Event::AgentMoved { agent_id, from, to } => Event::AgentMoved {
            agent_id: *agent_id,
            from: *from,
            to: *to,
        },
        Event::AgentDied { agent_id, reason } => Event::AgentDied {
            agent_id: *agent_id,
            reason: *reason,
        },
        Event::ActionObserved { agent_id, action } => Event::ActionObserved {
            agent_id: *agent_id,
            action: *action,
        },
        Event::AgentReproduced { parent_a, parent_b, child_id } => Event::AgentReproduced {
            parent_a: *parent_a,
            parent_b: *parent_b,
            child_id: *child_id,
        },
        Event::StructureBuilt { agent_id, kind, position, structure_id } => Event::StructureBuilt {
            agent_id: *agent_id,
            kind: *kind,
            position: *position,
            structure_id: *structure_id,
        },
        Event::OreNodeHarvested { agent_id, ore, source_id, amount, remaining } => Event::OreNodeHarvested {
            agent_id: *agent_id,
            ore: *ore,
            source_id: *source_id,
            amount: *amount,
            remaining: *remaining,
        },
        Event::OreNodeDrained { ore, source_id, position } => Event::OreNodeDrained {
            ore: *ore,
            source_id: *source_id,
            position: *position,
        },
        Event::ScanReport { agent_id, position, qi, nearby_qi_sources, nearby_structures } => Event::ScanReport {
            agent_id: *agent_id,
            position: *position,
            qi: *qi,
            nearby_qi_sources: copy_source_snapshots(nearby_qi_sources),
            nearby_structures: copy_structure_snapshots(nearby_structures),
        },
    }
}

/// The deterministic child name, `Child-<a>-<b>`.
fn child_name_string(a: u64, b: u64) -> (s: String)
    ensures
        s@ == child_name(a, b),
{
    let mut s = String::new();
    proof {
        reveal_strlit("Child-");
        reveal_strlit("-");
    }
    s.append("Child-");
    crate::strutil::push_u64_dec(&mut s, a);
    s.append("-");
    crate::strutil::push_u64_dec(&mut s, b);
    proof {
        assert("-"@ =~= seq!['-']);
        assert(s@ =~= child_name(a, b));
    }
    s
}

/// Whether `z` has been discovered already.
fn zones_contains(v: &Vec<crate::space::Zone>, z: crate::space::Zone) -> (r: bool)
    ensures
        r == v@.contains(z),
{
    let n = v.len();
    let mut i: usize = 0;
    while i < n
        invariant
            0 <= i <= n,
            n == v.len(),
            forall|j: int| 0 <= j < i ==> v@[j] != z,
        decreases n - i,
    {
        if v[i] == z {
            return true;
        }
        i += 1;
    }
    false
}

/// The partner this agent last declared in the batch, if any.
fn intent_of(requests: &[ActionRequest], a: u64) -> (r: Option<u64>)
    ensures
        r == spec_intent(requests@, a),
{
    let n = requests.len();
    let mut i: usize = n;
    proof {
        assert(requests@.take(n as int) =~= requests@);
    }
    while i > 0
        invariant
            0 <= i <= n,
            n == requests@.len(),
            spec_intent(requests@, a) == spec_intent(requests@.take(i as int), a),
        decreases i,
    {
        let req = requests[i - 1];
        proof {
            assert(requests@.take(i as int).drop_last() =~= requests@.take(i as int - 1));
            assert(requests@.take(i as int).last() == requests@[i as int - 1]);
        }
        if req.agent_id == a {
            match req.action {
                Action::Reproduce { partner } => {
                    return Some(partner);
                },
                _ => {},
            }
        }
        i -= 1;
    }
    None
}

/// Whether the two agents declared each other in this batch.
fn is_mutual(requests: &[ActionRequest], x: u64, y: u64) -> (r: bool)
    ensures
        r == spec_mutual(requests@, x, y),
{
    let ix = intent_of(requests, x);
    let iy = intent_of(requests, y);
    match (ix, iy) {
        (Some(p), Some(q)) => p == y && q == x,
        _ => false,
    }
}

/// Whether the fired list already holds this pair.
fn fired_contains(fired: &Vec<(u64, u64)>, pair: (u64, u64)) -> (r: bool)
    ensures
        r == fired@.contains(pair),
{
    let n = fired.len();
    let mut i: usize = 0;
    while i < n
        invariant
            0 <= i <= n,
            n == fired.len(),
            forall|j: int| 0 <= j < i ==> fired@[j] != pair,
        decreases n - i,
    {
        let e = fired[i];
        if e.0 == pair.0 && e.1 == pair.1 {
            proof {
                assert(fired@[i as int] == pair);
            }
            return true;
        }
        i += 1;
    }
    false
}

/// The deterministic state machine around the world: exactly one transition
/// operation, `step`, executed once per discrete tick.
#[derive(Debug)]
pub struct Vm {
    pub world: World,
}

impl Default for Vm {
    fn default() -> (r: Self)
        ensures
            r.world@.tick == 0,
            r.world@.agents == Seq::<AgentV>::empty(),
            wf_world(r.world@),
    {
        Vm::new()
    }
}

impl Vm {
    /// A Vm over a fresh, empty world.
    pub fn new() -> (r: Self)
        ensures
            r.world@.tick == 0,
            r.world@.max_qi_supply is None,
            r.world@.recycled_qi == 0,
            r.world@.agents == Seq::<AgentV>::empty(),
            r.world@.events == Seq::<EventV>::empty(),
            r.world@.structures == Seq::<crate::structure::Structure>::empty(),
            r.world@.qi_sources == Seq::<QiSource>::empty(),
            wf_world(r.world@),
    {
        Vm { world: World::new() }
    }

    /// Read-only access to the world.
    pub fn world(&self) -> (r: &World)
        ensures
            r@ == self.world@,
    {
        &self.world
    }

    /// Mutable access to the world, for drivers that restore persisted
    /// state. The world's invariants are the caller's to respect.
    pub fn world_mut(&mut self) -> &mut World {
        &mut self.world
    }

    /// Read-only access to a single agent's state.
    pub fn agent(&self, agent_id: AgentId) -> (r: Option<&crate::world::Agent>)
        ensures
            match r {
                Some(a) => {
                    &&& 1 <= agent_id <= self.world@.agents.len()
                    &&& a@ == self.world@.agents[agent_id - 1]
                },
                None => agent_id < 1 || agent_id > self.world@.agents.len(),
            },
    {
        self.world.agent(agent_id)
    }

    /// Registry view of all agents in the Vm, ordered by id.
    pub fn agent_registry(&self) -> (r: &Vec<crate::world::Agent>)
        ensures
            crate::world::agents_view(r@) == self.world@.agents,
    {
        self.world.agents()
    }

    /// Set the current tick counter (used when resuming from persisted
    /// state).
    pub fn set_tick(&mut self, tick: u64)
        ensures
            final(self).world@ == (WorldV { tick, ..old(self).world@ }),
    {
        self.world.tick = tick;
        proof {
            assert(self.world@ =~= (WorldV { tick, ..old(self).world@ }));
        }
    }

    /// Set the soft cap on total Qi in circulation.
    pub fn set_max_qi_supply(&mut self, max: u64)
        ensures
            final(self).world@ == (WorldV { max_qi_supply: Some(max), ..old(self).world@ }),
    {
        self.world.set_max_qi_supply(max);
    }

    /// Spawn an agent with the default lifespan.
    pub fn spawn_agent(&mut self, name: String, qi: Qi, position: Position) -> (r: AgentId)
        requires
            wf_agents_base(old(self).world@.agents),
            old(self).world@.agents.len() < WORLD_CAPACITY,
        ensures
            final(self).world@ == crate::model::spec_spawn(
                old(self).world@,
                name@,
                qi,
                position,
                DEFAULT_MAX_AGENT_AGE,
            ).0,
            r == crate::model::spec_spawn(
                old(self).world@,
                name@,
                qi,
                position,
                DEFAULT_MAX_AGENT_AGE,
            ).1,
            wf_agents_base(final(self).world@.agents),
            ages_ok(old(self).world@.agents) ==> ages_ok(final(self).world@.agents),
    {
        self.world.spawn_agent(name, qi, position)
    }

    /// Spawn an agent with an explicit lifespan.
    pub fn spawn_agent_with_age(
        &mut self,
        name: String,
        qi: Qi,
        position: Position,
        max_age: u64,
    ) -> (r: AgentId)
        requires
            wf_agents_base(old(self).world@.agents),
            old(self).world@.agents.len() < WORLD_CAPACITY,
        ensures
            final(self).world@ == crate::model::spec_spawn(
                old(self).world@,
                name@,
                qi,
                position,
                max_age,
            ).0,
            r == crate::model::spec_spawn(old(self).world@, name@, qi, position, max_age).1,
            wf_agents_base(final(self).world@.agents),
            ages_ok(old(self).world@.agents) ==> ages_ok(final(self).world@.agents),
    {
        self.world.spawn_agent_with_age(name, qi, position, max_age)
    }

    /// Kill an agent outright (hazards, corruption): a live agent is marked
    /// dead, vacating its cell, and its death is logged at once; killing a
    /// dead agent is a no-op.
    pub fn kill_agent(&mut self, agent_id: AgentId, reason: DeathReason) -> (r: Result<
        (),
        ActionError,
    >)
        ensures
            final(self).world@ == spec_kill(old(self).world@, agent_id, reason),
            match r {
                Ok(()) => 1 <= agent_id <= old(self).world@.agents.len(),
                Err(e) => {
                    &&& (agent_id < 1 || agent_id > old(self).world@.agents.len())
                    &&& e == ActionError::AgentNotFound(agent_id)
                },
            },
            wf_agents_base(old(self).world@.agents) ==> wf_agents_base(final(self).world@.agents),
            ages_ok(old(self).world@.agents) ==> ages_ok(final(self).world@.agents),
    {
        let n = self.world.agents.len();
        if agent_id < 1 || agent_id > n as u64 {
            proof {
                assert(self.world@ =~= spec_kill(old(self).world@, agent_id, reason));
            }
            return Err(ActionError::AgentNotFound(agent_id));
        }
        let idx = (agent_id - 1) as usize;
        if !self.world.agents[idx].alive {
            proof {
                assert(self.world@ =~= spec_kill(old(self).world@, agent_id, reason));
            }
            return Ok(());
        }
        self.world.agents[idx].alive = false;
        self.world.events.push(Event::AgentDied { agent_id, reason });
        proof {
            assert(self.world@.agents =~= spec_kill(old(self).world@, agent_id, reason).agents);
            assert(self.world@.events =~= spec_kill(old(self).world@, agent_id, reason).events);
            assert(self.world@ =~= spec_kill(old(self).world@, agent_id, reason));
        }
        Ok(())
    }

    /// Execute one discrete tick: sources recharge before any agent acts,
    /// the batch resolves in request order (reproduction-partner checks use
    /// the pre-tick snapshot), every over-age agent dies, and the tick's
    /// events are appended to the permanent log. Every rejection is
    /// non-fatal: a tick always completes and returns a result.
    #[verifier::rlimit(100)]
    pub fn step(&mut self, requests: &[ActionRequest]) -> (r: TickResult)
        requires
            wf_world(old(self).world@),
            old(self).world@.tick < u64::MAX,
            old(self).world@.agents.len() + requests@.len() < WORLD_CAPACITY,
            old(self).world@.structures.len() + requests@.len() < WORLD_CAPACITY,
        ensures
            final(self).world@ == spec_step(old(self).world@, requests@).world,
            r.tick == spec_step(old(self).world@, requests@).tick,
            events_view(r.events@) == spec_step(old(self).world@, requests@).events,
            r.rejections@ == spec_step(old(self).world@, requests@).rejections,
            wf_world(final(self).world@),
    {
        let ghost w0 = self.world@;
        let ghost spec_out = spec_step(w0, requests@);
        let tick = self.world.tick + 1;
        let mut tick_events: Vec<Event> = Vec::new();
        tick_events.push(Event::TickStarted { tick });
        let mut rejections: Vec<ActionRejection> = Vec::new();

        self.world.recharge_qi_sources();
        let ghost w1 = self.world@;

        let na = self.world.agents.len();
        let mut snap: Vec<(Position, bool)> = Vec::new();
        let mut si: usize = 0;
        while si < na
            invariant
                0 <= si <= na,
                na == self.world.agents.len(),
                snap@.len() == si,
                self.world@ == w1,
                forall|j: int|
                    0 <= j < si ==> (#[trigger] snap@[j]).0 == self.world@.agents[j].position && snap
                        @[j].1 == self.world@.agents[j].alive,
            decreases na - si,
        {
            snap.push((self.world.agents[si].position, self.world.agents[si].alive));
            si += 1;
        }

        let mut fired: Vec<(u64, u64)> = Vec::new();
        let nr = requests.len();
        let mut i: usize = 0;
        proof {
            assert(tick_events@.skip(1) =~= Seq::<Event>::empty());
            assert(events_view(Seq::<Event>::empty()) =~= Seq::<EventV>::empty());
        }
        while i < nr
            invariant
                0 <= i <= nr,
                nr == requests@.len(),
                na == w1.agents.len(),
                snap@.len() == w1.agents.len(),
                forall|j: int|
                    0 <= j < snap@.len() ==> (#[trigger] snap@[j]).0 == w1.agents[j].position && snap
                        @[j].1 == w1.agents[j].alive,
                wf_agents_base(self.world@.agents),
                wf_structures(self.world@.structures),
                wf_sources(self.world@.qi_sources),
                self.world@.agents.len() + (nr - i) < WORLD_CAPACITY,
                self.world@.structures.len() + (nr - i) < WORLD_CAPACITY,
                tick_events@.len() >= 1,
                tick_events@[0] == (Event::TickStarted { tick }),
                spec_run(w1, w1.agents, requests@, 0, Seq::empty()).0 == spec_run(
                    self.world@,
                    w1.agents,
                    requests@,
                    i as int,
                    fired@,
                ).0,
                spec_run(w1, w1.agents, requests@, 0, Seq::empty()).1 == events_view(
                    tick_events@.skip(1),
                ) + spec_run(self.world@, w1.agents, requests@, i as int, fired@).1,
                spec_run(w1, w1.agents, requests@, 0, Seq::empty()).2 == rejections@ + spec_run(
                    self.world@,
                    w1.agents,
                    requests@,
                    i as int,
                    fired@,
                ).2,
            decreases nr - i,
        {
            let req = requests[i];
            let ghost w_pre = self.world@;
            let ghost fired_pre = fired@;
            let ghost evs_pre = tick_events@;
            let res = apply_action(
                &mut self.world,
                req,
                requests,
                &snap,
                Ghost(w1.agents),
                &mut fired,
            );
            proof {
                assert(requests@[i as int] == req);
            }
            match res {
                Ok(mut evs) => {
                    let ghost evs_v = evs@;
                    tick_events.append(&mut evs);
                    proof {
                        let rest = spec_run(self.world@, w1.agents, requests@, i as int + 1, fired@);
                        let ev_a = events_view(evs_pre.skip(1));
                        let ev_b = events_view(evs_v);
                        assert(tick_events@.skip(1) =~= evs_pre.skip(1) + evs_v);
                        assert(events_view(evs_pre.skip(1) + evs_v) =~= ev_a + ev_b);
                        assert((ev_a + ev_b) + rest.1 =~= ev_a + (ev_b + rest.1));
                        assert(Seq::<ActionRejection>::empty() + rest.2 =~= rest.2);
                    }
                },
                Err(e) => {
                    let ghost rej_pre = rejections@;
                    rejections.push(ActionRejection { request: req, error: e });
                    proof {
                        let rest = spec_run(self.world@, w1.agents, requests@, i as int + 1, fired@);
                        let rj = ActionRejection { request: req, error: e };
                        assert(rejections@ =~= rej_pre + seq![rj]);
                        assert((rej_pre + seq![rj]) + rest.2 =~= rej_pre + (seq![rj] + rest.2));
                        assert(Seq::<EventV>::empty() + rest.1 =~= rest.1);
                    }
                },
            }
            i += 1;
        }

        let mut age_evs = enforce_age_limits(&mut self.world);
        let ghost aged = spec_enforce_age(spec_run(w1, w1.agents, requests@, 0, Seq::empty()).0, 0);
        let ghost evs_before_age = tick_events@;
        let ghost age_evs_v = age_evs@;
        tick_events.append(&mut age_evs);
        tick_events.push(Event::TickCompleted { tick });
        self.world.tick = tick;
        let ghost te = tick_events@;

        let ghost w_pre_log = self.world@;
        let ghost log_before = self.world@.events;
        let m = tick_events.len();
        let mut k: usize = 0;
        while k < m
            invariant
                0 <= k <= m,
                m == tick_events.len(),
                self.world@ == (WorldV { events: self.world@.events, ..w_pre_log }),
                self.world@.events == log_before + events_view(tick_events@.take(k as int)),
                tick_events@ == te,
            decreases m - k,
        {
            let ghost prev_events = self.world@.events;
            let ev = clone_event(&tick_events[k]);
            proof {
                assert(ev@ == tick_events@[k as int]@);
            }
            self.world.events.push(ev);
            proof {
                assert(self.world@.events =~= prev_events + seq![tick_events@[k as int]@]);
                assert(events_view(tick_events@.take(k as int + 1)) =~= events_view(
                    tick_events@.take(k as int),
                ) + seq![tick_events@[k as int]@]);
                assert(self.world@.events =~= log_before + events_view(
                    tick_events@.take(k as int + 1),
                ));
                assert(self.world@ =~= (WorldV { events: self.world@.events, ..w_pre_log }));
            }
            k += 1;
        }
        proof {
            assert(tick_events@.take(m as int) =~= tick_events@);
            assert(tick_events@.skip(1) =~= evs_before_age.skip(1) + age_evs_v + seq![
                (Event::TickCompleted { tick }),
            ]);
            assert(events_view(tick_events@) =~= seq![(Event::TickStarted { tick })@]
                + events_view(evs_before_age.skip(1)) + events_view(age_evs_v)
                + seq![(Event::TickCompleted { tick })@]);
        }

        let result = TickResult { tick, events: tick_events, rejections };
        proof {
            assert(events_view(result.events@) =~= spec_out.events);
            assert(self.world@ =~= spec_out.world);
            assert(result.rejections@ =~= spec_out.rejections);
        }
        result
    }

    /// Seed a Qi-kind ore source.
    pub fn seed_qi_source(&mut self, position: Position, capacity: Qi, recharge_per_tick: Qi) -> (r:
        u64)
        requires
            wf_sources(old(self).world@.qi_sources),
            old(self).world@.qi_sources.len() < WORLD_CAPACITY,
        ensures
            final(self).world@ == crate::model::spec_add_source(
                old(self).world@,
                OreKind::Qi,
                position,
                capacity,
                recharge_per_tick,
            ).0,
            r == crate::model::spec_add_source(
                old(self).world@,
                OreKind::Qi,
                position,
                capacity,
                recharge_per_tick,
            ).1,
            wf_sources(final(self).world@.qi_sources),
    {
        self.seed_ore_source(OreKind::Qi, position, capacity, recharge_per_tick)
    }

    /// Seed an ore source of any kind.
    pub fn seed_ore_source(
        &mut self,
        ore: OreKind,
        position: Position,
        capacity: Qi,
        recharge_per_tick: Qi,
    ) -> (r: u64)
        requires
            wf_sources(old(self).world@.qi_sources),
            old(self).world@.qi_sources.len() < WORLD_CAPACITY,
        ensures
            final(self).world@ == crate::model::spec_add_source(
                old(self).world@,
                ore,
                position,
                capacity,
                recharge_per_tick,
            ).0,
            r == crate::model::spec_add_source(
                old(self).world@,
                ore,
                position,
                capacity,
                recharge_per_tick,
            ).1,
            wf_sources(final(self).world@.qi_sources),
    {
        self.world.add_qi_source(ore, position, capacity, recharge_per_tick)
    }
}

/// Resolve a `Move` request: bounded by `MAX_MOVE_RADIUS`, blocked by any
/// other live agent on the target cell, and costing 1 Qi which returns to
/// the recycled pool.
fn apply_move(
    world: &mut World,
    idx: usize,
    dx: i32,
    dy: i32,
    dz: i32,
    Ghost(fired_g): Ghost<Seq<(u64, u64)>>,
) -> (r: Result<Vec<Event>, ActionError>)
    requires
        wf_agents_base(old(world)@.agents),
        idx < old(world)@.agents.len(),
        old(world)@.agents[idx as int].alive,
    ensures
        final(world)@ == spec_apply_move(old(world)@, idx as int, dx, dy, dz, fired_g).world,
        match r {
            Ok(evs) => {
                &&& spec_apply_move(old(world)@, idx as int, dx, dy, dz, fired_g).rejection
                    is None
                &&& events_view(evs@) == spec_apply_move(
                    old(world)@,
                    idx as int,
                    dx,
                    dy,
                    dz,
                    fired_g,
                ).events
            },
            Err(e) => spec_apply_move(old(world)@, idx as int, dx, dy, dz, fired_g).rejection
                == Some(e),
        },
        wf_agents_base(final(world)@.agents),
        final(world)@.agents.len() == old(world)@.agents.len(),
        final(world)@.structures == old(world)@.structures,
        final(world)@.qi_sources == old(world)@.qi_sources,
{
    let ghost out = spec_apply_move(old(world)@, idx as int, dx, dy, dz, fired_g);
    let a_id = world.agents[idx].id;
    let a_qi = world.agents[idx].qi;
    let from = world.agents[idx].position;
    let adx: i64 = if (dx as i64) < 0 {
        -(dx as i64)
    } else {
        dx as i64
    };
    let ady: i64 = if (dy as i64) < 0 {
        -(dy as i64)
    } else {
        dy as i64
    };
    let adz: i64 = if (dz as i64) < 0 {
        -(dz as i64)
    } else {
        dz as i64
    };
    let mut max_delta: i64 = adx;
    if ady > max_delta {
        max_delta = ady;
    }
    if adz > max_delta {
        max_delta = adz;
    }
    if max_delta > crate::space::MAX_MOVE_RADIUS as i64 {
        return Err(ActionError::MoveOutOfRange { agent_id: a_id, dx, dy, dz });
    }
    let to = from.offset(dx, dy, dz);
    match world.occupant_of(to) {
        Some(other) => {
            proof {
                let j = choose|j: int|
                    0 <= j < world@.agents.len() && (#[trigger] world@.agents[j]).alive && world
                        @.agents[j].position == to && world@.agents[j].id == other;
                let j0 = crate::model::occupant_index(world@.agents, to);
                assert(world@.agents[j0].alive && world@.agents[j0].position == to);
                assert(j == j0);
            }
            if other != a_id {
                return Err(
                    ActionError::PositionOccupied { agent_id: a_id, target: to, occupied_by: other },
                );
            }
        },
        None => {},
    }
    if a_qi < 1 {
        return Err(ActionError::InsufficientQi { agent_id: a_id, required: 1, available: a_qi });
    }
    let fz = from.zone();
    let tz = to.zone();
    if fz != tz && !zones_contains(&world.agents[idx].discovered_zones, tz) {
        world.agents[idx].discovered_zones.push(tz);
    }
    world.agents[idx].qi = a_qi - 1;
    world.agents[idx].position = to;
    let age = world.agents[idx].age;
    world.agents[idx].age = if age < u64::MAX {
        age + 1
    } else {
        age
    };
    world.recycle_qi(1);
    let mut evs: Vec<Event> = Vec::new();
    evs.push(Event::QiSpent { agent_id: a_id, amount: 1, action: "move" });
    evs.push(Event::AgentMoved { agent_id: a_id, from, to });
    proof {
        assert(world@.agents =~= out.world.agents);
        assert(world@ =~= out.world);
        assert(events_view(evs@) =~= out.events);
        assert forall|i: int, j: int|
            0 <= i < world@.agents.len() && 0 <= j < world@.agents.len() && i != j && (
            #[trigger] world@.agents[i]).alive && (#[trigger] world@.agents[j]).alive implies world
            @.agents[i].position != world@.agents[j].position by {
            if i == idx as int || j == idx as int {
                let k = if i == idx as int {
                    j
                } else {
                    i
                };
                assert(old(world)@.agents[k].alive);
                if old(world)@.agents[k].position == to {
                    assert(crate::model::occupied_at(old(world)@.agents, to));
                }
            }
        }
    }
    Ok(evs)
}

/// Resolve a `Scan` request: free, and reports all ore sources and
/// structures within scan range, with the agent's current Qi.
fn apply_scan(world: &mut World, idx: usize, Ghost(fired_g): Ghost<Seq<(u64, u64)>>) -> (r: Result<
    Vec<Event>,
    ActionError,
>)
    requires
        wf_agents_base(old(world)@.agents),
        idx < old(world)@.agents.len(),
        old(world)@.agents[idx as int].alive,
    ensures
        final(world)@ == spec_apply_scan(old(world)@, idx as int, fired_g).world,
        r is Ok,
        match r {
            Ok(evs) => events_view(evs@) == spec_apply_scan(old(world)@, idx as int, fired_g).events,
            Err(_) => false,
        },
        wf_agents_base(final(world)@.agents),
        final(world)@.agents.len() == old(world)@.agents.len(),
        final(world)@.structures == old(world)@.structures,
        final(world)@.qi_sources == old(world)@.qi_sources,
{
    let ghost out = spec_apply_scan(old(world)@, idx as int, fired_g);
    let a_id = world.agents[idx].id;
    let a_qi = world.agents[idx].qi;
    let a_pos = world.agents[idx].position;
    let nearby_sources = world.nearby_qi_sources(a_pos, crate::space::SCAN_RANGE);
    let nearby_structs = world.nearby_structures(a_pos, crate::space::SCAN_RANGE);
    let age = world.agents[idx].age;
    world.agents[idx].age = if age < u64::MAX {
        age + 1
    } else {
        age
    };
    let mut evs: Vec<Event> = Vec::new();
    evs.push(Event::ActionObserved { agent_id: a_id, action: "scan" });
    evs.push(
        Event::ScanReport {
            agent_id: a_id,
            position: a_pos,
            qi: a_qi,
            nearby_qi_sources: nearby_sources,
            nearby_structures: nearby_structs,
        },
    );
    proof {
        assert(world@.agents =~= out.world.agents);
        assert(world@ =~= out.world);
        assert(events_view(evs@) =~= out.events);
    }
    Ok(evs)
}

/// Whether any structure stands at `p`.
fn any_structure_at(world: &World, p: Position) -> (r: bool)
    ensures
        r == crate::vmspec::structure_at(world@.structures, p),
{
    let n = world.structures.len();
    let mut i: usize = 0;
    while i < n
        invariant
            0 <= i <= n,
            n == world.structures.len(),
            forall|j: int| 0 <= j < i ==> (#[trigger] world@.structures[j]).position != p,
        decreases n - i,
    {
        if world.structures[i].position == p {
            proof {
                assert(world@.structures[i as int].position == p);
            }
            return true;
        }
        i += 1;
    }
    false
}

/// Resolve a `BuildStructure` request: rejected when a structure already
/// stands on the agent's cell; Programmable structures consume one
/// Transistor ore, checked before the 1 Qi cost; the request is
/// all-or-nothing.
fn apply_build(
    world: &mut World,
    idx: usize,
    kind: StructureKind,
    Ghost(fired_g): Ghost<Seq<(u64, u64)>>,
) -> (r: Result<Vec<Event>, ActionError>)
    requires
        wf_agents_base(old(world)@.agents),
        wf_structures(old(world)@.structures),
        idx < old(world)@.agents.len(),
        old(world)@.agents[idx as int].alive,
        old(world)@.structures.len() < WORLD_CAPACITY,
    ensures
        final(world)@ == spec_apply_build(old(world)@, idx as int, kind, fired_g).world,
        match r {
            Ok(evs) => {
                &&& spec_apply_build(old(world)@, idx as int, kind, fired_g).rejection is None
                &&& events_view(evs@) == spec_apply_build(old(world)@, idx as int, kind, fired_g).events
            },
            Err(e) => spec_apply_build(old(world)@, idx as int, kind, fired_g).rejection == Some(e),
        },
        wf_agents_base(final(world)@.agents),
        wf_structures(final(world)@.structures),
        final(world)@.agents.len() == old(world)@.agents.len(),
        final(world)@.structures.len() <= old(world)@.structures.len() + 1,
        final(world)@.qi_sources == old(world)@.qi_sources,
{
    let ghost out = spec_apply_build(old(world)@, idx as int, kind, fired_g);
    let a_id = world.agents[idx].id;
    let a_qi = world.agents[idx].qi;
    let a_tr = world.agents[idx].transistors;
    let a_pos = world.agents[idx].position;
    if any_structure_at(world, a_pos) {
        return Err(ActionError::StructureSpaceOccupied { agent_id: a_id, position: a_pos });
    }
    if kind == StructureKind::Programmable && a_tr < 1 {
        return Err(
            ActionError::InsufficientOre {
                agent_id: a_id,
                ore: OreKind::Transistor,
                required: 1,
                available: a_tr,
            },
        );
    }
    if a_qi < 1 {
        return Err(ActionError::InsufficientQi { agent_id: a_id, required: 1, available: a_qi });
    }
    if kind == StructureKind::Programmable {
        world.agents[idx].transistors = a_tr - 1;
    }
    world.agents[idx].qi = a_qi - 1;
    let age = world.agents[idx].age;
    world.agents[idx].age = if age < u64::MAX {
        age + 1
    } else {
        age
    };
    world.recycle_qi(1);
    let sid = (world.structures.len() as u64) + 1;
    let st = crate::structure::Structure {
        id: sid,
        kind,
        position: a_pos,
        zone: a_pos.zone(),
        owner: a_id,
    };
    world.structures.push(st);
    let mut evs: Vec<Event> = Vec::new();
    evs.push(Event::QiSpent { agent_id: a_id, amount: 1, action: "build_structure" });
    evs.push(
        Event::StructureBuilt { agent_id: a_id, kind, position: a_pos, structure_id: sid },
    );
    proof {
        assert(world@.agents =~= out.world.agents);
        assert(world@.structures =~= out.world.structures);
        assert(world@ =~= out.world);
        assert(events_view(evs@) =~= out.events);
    }
    Ok(evs)
}

/// Resolve a `HarvestOre` request: the named source (or the nearest eligible
/// one when the id is zero) must match the kind, stand within harvest range,
/// and hold at least `HARVEST_PER_ACTION`; the harvest costs 1 Qi, drains
/// `min(available, HARVEST_PER_ACTION)` and credits the agent's matching
/// balance.
fn apply_harvest(
    world: &mut World,
    idx: usize,
    ore: OreKind,
    source_id: u64,
    Ghost(fired_g): Ghost<Seq<(u64, u64)>>,
) -> (r: Result<Vec<Event>, ActionError>)
    requires
        wf_agents_base(old(world)@.agents),
        wf_sources(old(world)@.qi_sources),
        idx < old(world)@.agents.len(),
        old(world)@.agents[idx as int].alive,
    ensures
        final(world)@ == spec_apply_harvest(old(world)@, idx as int, ore, source_id, fired_g).world,
        match r {
            Ok(evs) => {
                &&& spec_apply_harvest(old(world)@, idx as int, ore, source_id, fired_g).rejection
                    is None
                &&& events_view(evs@) == spec_apply_harvest(
                    old(world)@,
                    idx as int,
                    ore,
                    source_id,
                    fired_g,
                ).events
            },
            Err(e) => spec_apply_harvest(old(world)@, idx as int, ore, source_id, fired_g).rejection
                == Some(e),
        },
        wf_agents_base(final(world)@.agents),
        wf_sources(final(world)@.qi_sources),
        final(world)@.agents.len() == old(world)@.agents.len(),
        final(world)@.structures == old(world)@.structures,
        final(world)@.qi_sources.len() == old(world)@.qi_sources.len(),
{
    let ghost out = spec_apply_harvest(old(world)@, idx as int, ore, source_id, fired_g);
    let a_id = world.agents[idx].id;
    let a_qi = world.agents[idx].qi;
    let a_pos = world.agents[idx].position;
    let selected: Option<QiSource> = if source_id == 0 {
        crate::world::nearest_ore_source(&world.qi_sources, ore, a_pos)
    } else {
        let n = world.qi_sources.len();
        if source_id >= 1 && source_id <= n as u64 {
            let s = world.qi_sources[(source_id - 1) as usize];
            if s.ore == ore {
                Some(s)
            } else {
                None
            }
        } else {
            None
        }
    };
    let unavailable = ActionError::OreSourceUnavailable {
        agent_id: a_id,
        ore,
        source_id: if source_id != 0 {
            Some(source_id)
        } else {
            None
        },
    };
    match selected {
        None => Err(unavailable),
        Some(src) => {
            proof {
                if source_id == 0 {
                    crate::world::lemma_nearest_in_sources(
                        world@.qi_sources,
                        ore,
                        a_pos,
                        world@.qi_sources.len() as int,
                    );
                    let j = choose|j: int|
                        0 <= j < world@.qi_sources.len() && world@.qi_sources[j] == src;
                    assert(world@.qi_sources[j].id == j + 1);
                }
                assert(1 <= src.id <= world@.qi_sources.len());
                assert(world@.qi_sources[src.id - 1] == src);
            }
            if !a_pos.within_range(src.position, crate::space::HARVEST_RANGE) {
                return Err(unavailable);
            }
            if src.current < HARVEST_PER_ACTION {
                return Err(
                    ActionError::OreSourceDepleted {
                        agent_id: a_id,
                        ore,
                        source_id: src.id,
                        available: src.current,
                    },
                );
            }
            if a_qi < 1 {
                return Err(
                    ActionError::InsufficientQi { agent_id: a_id, required: 1, available: a_qi },
                );
            }
            let amount = if src.current < HARVEST_PER_ACTION {
                src.current
            } else {
                HARVEST_PER_ACTION
            };
            let remaining = src.current - amount;
            let n_sources = world.qi_sources.len();
            proof {
                assert(1 <= src.id <= n_sources);
            }
            let sidx = (src.id - 1) as usize;
            proof {
                assert(sidx as int == src.id - 1);
            }
            world.qi_sources[sidx].current = remaining;
            let q1 = a_qi - 1;
            match ore {
                OreKind::Qi => {
                    let qf = if q1 <= u32::MAX - amount {
                        q1 + amount
                    } else {
                        u32::MAX
                    };
                    world.agents[idx].qi = qf;
                },
                OreKind::Transistor => {
                    world.agents[idx].qi = q1;
                    let t = world.agents[idx].transistors;
                    let tf = if t <= u32::MAX - amount {
                        t + amount
                    } else {
                        u32::MAX
                    };
                    world.agents[idx].transistors = tf;
                },
            }
            let age = world.agents[idx].age;
            world.agents[idx].age = if age < u64::MAX {
                age + 1
            } else {
                age
            };
            world.recycle_qi(1);
            let mut evs: Vec<Event> = Vec::new();
            evs.push(Event::QiSpent { agent_id: a_id, amount: 1, action: "harvest" });
            evs.push(
                Event::OreGained { agent_id: a_id, ore, amount, source: "ore_node" },
            );
            evs.push(
                Event::OreNodeHarvested { agent_id: a_id, ore, source_id: src.id, amount, remaining },
            );
            if remaining == 0 {
                evs.push(
                    Event::OreNodeDrained { ore, source_id: src.id, position: src.position },
                );
            }
            proof {
                let w_old = old(world)@;
                assert(w_old.agents[idx as int].position == a_pos);
                assert(crate::vmspec::harvest_selected(w_old.qi_sources, ore, a_pos, source_id)
                    == Some(src));
                assert(world@.qi_sources =~= w_old.qi_sources.update(
                    src.id - 1,
                    QiSource { current: remaining, ..src },
                ));
                assert(world@.agents =~= out.world.agents);
                assert(world@.qi_sources =~= out.world.qi_sources);
                assert(world@ =~= out.world);
                assert(events_view(evs@) =~= out.events);
            }
            Ok(evs)
        },
    }
}

/// Resolve a `Reproduce` request: the partner must exist and be alive in the
/// pre-tick snapshot, share the initiator's zone, and have declared the
/// initiator in the same batch. The initiator pays 1 Qi and a child with
/// 1 Qi spawns at its position; the pair's later request is a free no-op, so
/// exactly one child is spawned per mutual pair per tick.
fn apply_reproduce(
    world: &mut World,
    idx: usize,
    partner: u64,
    requests: &[ActionRequest],
    snap: &Vec<(Position, bool)>,
    Ghost(snap_v): Ghost<Seq<AgentV>>,
    fired: &mut Vec<(u64, u64)>,
) -> (r: Result<Vec<Event>, ActionError>)
    requires
        wf_agents_base(old(world)@.agents),
        idx < old(world)@.agents.len(),
        old(world)@.agents[idx as int].alive,
        old(world)@.agents.len() < WORLD_CAPACITY,
        snap@.len() == snap_v.len(),
        forall|j: int|
            0 <= j < snap_v.len() ==> (#[trigger] snap@[j]).0 == snap_v[j].position && snap@[j].1
                == snap_v[j].alive,
    ensures
        ({
            let out = spec_apply_reproduce(
                old(world)@,
                snap_v,
                requests@,
                idx as int,
                partner,
                old(fired)@,
            );
            &&& final(world)@ == out.world
            &&& final(fired)@ == out.fired
            &&& match r {
                Ok(evs) => out.rejection is None && events_view(evs@) == out.events,
                Err(e) => out.rejection == Some(e),
            }
        }),
        wf_agents_base(final(world)@.agents),
        final(world)@.agents.len() <= old(world)@.agents.len() + 1,
        final(world)@.structures == old(world)@.structures,
        final(world)@.qi_sources == old(world)@.qi_sources,
{
    let ghost out = spec_apply_reproduce(
        old(world)@,
        snap_v,
        requests@,
        idx as int,
        partner,
        old(fired)@,
    );
    let a_id = world.agents[idx].id;
    let a_qi = world.agents[idx].qi;
    let a_pos = world.agents[idx].position;
    if partner < 1 || partner > snap.len() as u64 {
        return Err(ActionError::PartnerNotFound { agent_id: a_id, partner });
    }
    let entry = snap[(partner - 1) as usize];
    if !entry.1 {
        return Err(ActionError::PartnerNotFound { agent_id: a_id, partner });
    }
    if a_pos.zone() != entry.0.zone() {
        return Err(ActionError::PartnerOutOfZone { agent_id: a_id, partner });
    }
    if !is_mutual(requests, a_id, partner) {
        return Err(ActionError::ReproductionDeclined { agent_id: a_id, partner });
    }
    let pair = if a_id < partner {
        (a_id, partner)
    } else {
        (partner, a_id)
    };
    if fired_contains(fired, pair) {
        let age = world.agents[idx].age;
        world.agents[idx].age = if age < u64::MAX {
            age + 1
        } else {
            age
        };
        proof {
            assert(world@.agents =~= out.world.agents);
            assert(world@ =~= out.world);
            assert(events_view(Seq::<Event>::empty()) =~= out.events);
        }
        return Ok(Vec::new());
    }
    if a_qi < 1 {
        return Err(ActionError::InsufficientQi { agent_id: a_id, required: 1, available: a_qi });
    }
    world.agents[idx].qi = a_qi - 1;
    let age = world.agents[idx].age;
    world.agents[idx].age = if age < u64::MAX {
        age + 1
    } else {
        age
    };
    world.recycle_qi(1);
    let name = child_name_string(a_id, partner);
    let ghost w_mid = world@;
    proof {
        let prev = old(world)@.agents;
        let cur = world@.agents;
        let a0 = prev[idx as int];
        assert(cur =~= prev.update(
            idx as int,
            AgentV { qi: (a_qi - 1) as u32, age: crate::vmspec::age_bump(a0.age), ..a0 },
        ));
        assert forall|i: int| 0 <= i < cur.len() implies (#[trigger] cur[i]).id == i + 1 by {
            if i != idx as int {
                assert(cur[i] == prev[i]);
            }
        }
        assert forall|i: int| 0 <= i < cur.len() implies (#[trigger] cur[i]).max_age >= 1 by {
            if i != idx as int {
                assert(cur[i] == prev[i]);
            }
        }
        assert forall|i: int, j: int|
            0 <= i < cur.len() && 0 <= j < cur.len() && i != j && (#[trigger] cur[i]).alive && (
            #[trigger] cur[j]).alive implies cur[i].position != cur[j].position by {
            assert(cur[i].position == prev[i].position && cur[i].alive == prev[i].alive);
            assert(cur[j].position == prev[j].position && cur[j].alive == prev[j].alive);
        }
        assert(wf_agents_base(cur));
    }
    let child_id = world.spawn_agent_with_age(name, 1, a_pos, DEFAULT_MAX_AGENT_AGE);
    fired.push(pair);
    let mut evs: Vec<Event> = Vec::new();
    evs.push(Event::QiSpent { agent_id: a_id, amount: 1, action: "reproduce" });
    evs.push(
        Event::AgentReproduced { parent_a: a_id, parent_b: partner, child_id },
    );
    proof {
        assert(world@ == crate::model::spec_spawn(
            w_mid,
            child_name(a_id, partner),
            1u32,
            a_pos,
            DEFAULT_MAX_AGENT_AGE,
        ).0);
        assert(world@ =~= out.world);
        assert(events_view(evs@) =~= out.events);
        assert(fired@ =~= out.fired);
    }
    Ok(evs)
}

/// Resolve one request: look the agent up, reject missing or dead agents,
/// and apply the action's own rules. Every success ages the agent.
fn apply_action(
    world: &mut World,
    req: ActionRequest,
    requests: &[ActionRequest],
    snap: &Vec<(Position, bool)>,
    Ghost(snap_v): Ghost<Seq<AgentV>>,
    fired: &mut Vec<(u64, u64)>,
) -> (r: Result<Vec<Event>, ActionError>)
    requires
        wf_agents_base(old(world)@.agents),
        wf_structures(old(world)@.structures),
        wf_sources(old(world)@.qi_sources),
        old(world)@.agents.len() < WORLD_CAPACITY,
        old(world)@.structures.len() < WORLD_CAPACITY,
        snap@.len() == snap_v.len(),
        forall|j: int|
            0 <= j < snap_v.len() ==> (#[trigger] snap@[j]).0 == snap_v[j].position && snap@[j].1
                == snap_v[j].alive,
    ensures
        ({
            let out = spec_apply(old(world)@, snap_v, requests@, req, old(fired)@);
            &&& final(world)@ == out.world
            &&& final(fired)@ == out.fired
            &&& match r {
                Ok(evs) => out.rejection is None && events_view(evs@) == out.events,
                Err(e) => out.rejection == Some(e) && out.events == Seq::<EventV>::empty(),
            }
        }),
        wf_agents_base(final(world)@.agents),
        wf_structures(final(world)@.structures),
        wf_sources(final(world)@.qi_sources),
        final(world)@.agents.len() <= old(world)@.agents.len() + 1,
        final(world)@.structures.len() <= old(world)@.structures.len() + 1,
        final(world)@.qi_sources.len() == old(world)@.qi_sources.len(),
{
    proof {
        reveal(spec_apply);
    }
    let ghost out = spec_apply(old(world)@, snap_v, requests@, req, old(fired)@);
    let n = world.agents.len();
    if req.agent_id < 1 || req.agent_id > n as u64 {
        return Err(ActionError::AgentNotFound(req.agent_id));
    }
    let idx = (req.agent_id - 1) as usize;
    if !world.agents[idx].alive {
        return Err(ActionError::AgentDead(req.agent_id));
    }
    match req.action {
        Action::Move { dx, dy, dz } => apply_move(world, idx, dx, dy, dz, Ghost(fired@)),
        Action::Scan => apply_scan(world, idx, Ghost(fired@)),
        Action::Reproduce { partner } => apply_reproduce(
            world,
            idx,
            partner,
            requests,
            snap,
            Ghost(snap_v),
            fired,
        ),
        Action::BuildStructure { kind } => apply_build(world, idx, kind, Ghost(fired@)),
        Action::HarvestOre { ore, source_id } => apply_harvest(
            world,
            idx,
            ore,
            source_id,
            Ghost(fired@),
        ),
        Action::Idle => {
            let age = world.agents[idx].age;
            world.agents[idx].age = if age < u64::MAX {
                age + 1
            } else {
                age
            };
            proof {
                assert(world@.agents =~= out.world.agents);
                assert(world@ =~= out.world);
                assert(events_view(Seq::<Event>::empty()) =~= out.events);
            }
            Ok(Vec::new())
        },
    }
}

/// The end-of-tick age sweep: every alive agent at or past its lifespan is
/// marked dead, in id order, and the deaths are returned as events.
fn enforce_age_limits(world: &mut World) -> (evs: Vec<Event>)
    ensures
        final(world)@ == spec_enforce_age(old(world)@, 0).0,
        events_view(evs@) == spec_enforce_age(old(world)@, 0).1,
        wf_agents_base(old(world)@.agents) ==> wf_agents_base(final(world)@.agents),
        ages_ok(final(world)@.agents),
        final(world)@ == (WorldV { agents: final(world)@.agents, ..old(world)@ }),
{
    let ghost w0 = world@;
    let mut evs: Vec<Event> = Vec::new();
    let n = world.agents.len();
    let mut i: usize = 0;
    while i < n
        invariant
            0 <= i <= n,
            n == world.agents.len(),
            world@ == (WorldV { agents: world@.agents, ..w0 }),
            spec_enforce_age(w0, 0).0 == spec_enforce_age(world@, i as int).0,
            spec_enforce_age(w0, 0).1 == events_view(evs@) + spec_enforce_age(world@, i as int).1,
            forall|j: int| 0 <= j < n ==> (#[trigger] world@.agents[j]).id == w0.agents[j].id
                && world@.agents[j].max_age == w0.agents[j].max_age
                && world@.agents[j].age == w0.agents[j].age
                && world@.agents[j].position == w0.agents[j].position
                && (world@.agents[j].alive ==> w0.agents[j].alive),
            forall|j: int|
                0 <= j < i && (#[trigger] world@.agents[j]).alive ==> world@.agents[j].age
                    < world@.agents[j].max_age,
        decreases n - i,
    {
        let ghost w_prev = world@;
        let alive = world.agents[i].alive;
        let age = world.agents[i].age;
        let max_age = world.agents[i].max_age;
        if alive && age >= max_age {
            let id = world.agents[i].id;
            world.agents[i].alive = false;
            evs.push(Event::AgentDied { agent_id: id, reason: DeathReason::Age });
            proof {
                assert(world@.agents =~= w_prev.agents.update(
                    i as int,
                    AgentV { alive: false, ..w_prev.agents[i as int] },
                ));
                assert(world@ =~= (WorldV { agents: world@.agents, ..w_prev }));
                assert(spec_enforce_age(w_prev, i as int).0 == spec_enforce_age(
                    world@,
                    i as int + 1,
                ).0);
                assert(events_view(evs@) =~= events_view(evs@.drop_last()) + seq![
                    EventV::AgentDied { agent_id: id, reason: DeathReason::Age },
                ]);
                assert(spec_enforce_age(w0, 0).1 =~= events_view(evs@) + spec_enforce_age(
                    world@,
                    i as int + 1,
                ).1);
            }
        }
        i += 1;
    }
    evs
}

} // verus!
