//! Per-agent counters of successfully executed actions.

use vstd::prelude::*;
use crate::actions::{Action, AgentId};
use crate::model::sat_add_u64;

verus! {

/// How many actions of each kind an agent has executed.
#[derive(Debug, Clone, Copy, PartialEq, Eq, Structural)]
pub struct ActionStats {
    pub move_count: u64,
    pub scan_count: u64,
    pub build_count: u64,
    pub harvest_count: u64,
    pub reproduce_count: u64,
    pub idle_count: u64,
}

impl Default for ActionStats {
    fn default() -> (r: Self)
        ensures
            r == (ActionStats {
                move_count: 0,
                scan_count: 0,
                build_count: 0,
                harvest_count: 0,
                reproduce_count: 0,
                idle_count: 0,
            }),
    {
        ActionStats {
            move_count: 0,
            scan_count: 0,
            build_count: 0,
            harvest_count: 0,
            reproduce_count: 0,
            idle_count: 0,
        }
    }
}

/// The counters after recording one more action, saturating.
pub open spec fn spec_record(s: ActionStats, action: Action) -> ActionStats {
    match action {
        Action::Move { .. } => ActionStats {
            move_count: sat_add_u64(s.move_count as int, 1) as u64,
            ..s
        },
        Action::Scan => ActionStats { scan_count: sat_add_u64(s.scan_count as int, 1) as u64, ..s },
        Action::BuildStructure { .. } => ActionStats {
            build_count: sat_add_u64(s.build_count as int, 1) as u64,
            ..s
        },
        Action::HarvestOre { .. } => ActionStats {
            harvest_count: sat_add_u64(s.harvest_count as int, 1) as u64,
            ..s
        },
        Action::Reproduce { .. } => ActionStats {
            reproduce_count: sat_add_u64(s.reproduce_count as int, 1) as u64,
            ..s
        },
        Action::Idle => ActionStats { idle_count: sat_add_u64(s.idle_count as int, 1) as u64, ..s },
    }
}

/// The counters after recording a whole prefix of an action list.
pub open spec fn spec_record_all(s: ActionStats, actions: Seq<Action>, i: int) -> ActionStats
    decreases i,
{
    if i <= 0 {
        s
    } else {
        spec_record(spec_record_all(s, actions, i - 1), actions[i - 1])
    }
}

impl ActionStats {
    /// Count one more action of the matching kind, saturating.
    pub fn record(&mut self, action: &Action)
        ensures
            *final(self) == spec_record(*old(self), *action),
    {
        match action {
            Action::Move { .. } => {
                self.move_count = if self.move_count < u64::MAX {
                    self.move_count + 1
                } else {
                    self.move_count
                };
            },
            Action::Scan => {
                self.scan_count = if self.scan_count < u64::MAX {
                    self.scan_count + 1
                } else {
                    self.scan_count
                };
            },
            Action::BuildStructure { .. } => {
                self.build_count = if self.build_count < u64::MAX {
                    self.build_count + 1
                } else {
                    self.build_count
                };
            },
            Action::HarvestOre { .. } => {
                self.harvest_count = if self.harvest_count < u64::MAX {
                    self.harvest_count + 1
                } else {
                    self.harvest_count
                };
            },
            Action::Reproduce { .. } => {
                self.reproduce_count = if self.reproduce_count < u64::MAX {
                    self.reproduce_count + 1
                } else {
                    self.reproduce_count
                };
            },
            Action::Idle => {
                self.idle_count = if self.idle_count < u64::MAX {
                    self.idle_count + 1
                } else {
                    self.idle_count
                };
            },
        }
    }
}

/// One agent's counters in the persistent store.
#[derive(Debug, Clone, Copy, PartialEq, Eq, Structural)]
pub struct StatsEntry {
    pub agent_id: AgentId,
    pub stats: ActionStats,
}

/// The persistent per-agent counters, in first-seen order.
#[derive(Debug, Clone, Default)]
pub struct ActionStatsStore {
    pub per_agent: Vec<StatsEntry>,
}

/// The first entry index at or after `i` for the given agent.
pub open spec fn stats_index_from(s: Seq<StatsEntry>, agent_id: AgentId, i: int) -> Option<int>
    decreases s.len() - i,
{
    if i < 0 || i >= s.len() {
        None
    } else if s[i].agent_id == agent_id {
        Some(i)
    } else {
        stats_index_from(s, agent_id, i + 1)
    }
}

/// The first entry index for the given agent.
pub open spec fn stats_index(s: Seq<StatsEntry>, agent_id: AgentId) -> Option<int> {
    stats_index_from(s, agent_id, 0)
}

/// Record a batch of successfully executed actions under one agent,
/// creating its entry on first sight.
pub fn record_successful_actions(
    store: &mut ActionStatsStore,
    agent_id: AgentId,
    actions: &Vec<Action>,
)
    ensures
        ({
            let s0 = old(store).per_agent@;
            match stats_index(s0, agent_id) {
                Some(i) => final(store).per_agent@ == s0.update(
                    i,
                    StatsEntry {
                        agent_id,
                        stats: spec_record_all(s0[i].stats, actions@, actions@.len() as int),
                    },
                ),
                None => final(store).per_agent@ == s0.push(
                    StatsEntry {
                        agent_id,
                        stats: spec_record_all(
                            ActionStats {
                                move_count: 0,
                                scan_count: 0,
                                build_count: 0,
                                harvest_count: 0,
                                reproduce_count: 0,
                                idle_count: 0,
                            },
                            actions@,
                            actions@.len() as int,
                        ),
                    },
                ),
            }
        }),
{
    let n = store.per_agent.len();
    let mut i: usize = 0;
    let mut found: Option<usize> = None;
    while i < n
        invariant
            0 <= i <= n,
            n == store.per_agent.len(),
            *store == *old(store),
            match found {
                Some(k) => k < n && store.per_agent@[k as int].agent_id == agent_id && stats_index(
                    store.per_agent@,
                    agent_id,
                ) == Some(k as int),
                None => stats_index(store.per_agent@, agent_id) == stats_index_from(
                    store.per_agent@,
                    agent_id,
                    i as int,
                ),
            },
        decreases n - i,
    {
        if found.is_none() && store.per_agent[i].agent_id == agent_id {
            found = Some(i);
        }
        i += 1;
    }
    let base: ActionStats = match found {
        Some(k) => store.per_agent[k].stats,
        None => ActionStats {
            move_count: 0,
            scan_count: 0,
            build_count: 0,
            harvest_count: 0,
            reproduce_count: 0,
            idle_count: 0,
        },
    };
    let mut stats = base;
    let m = actions.len();
    let mut j: usize = 0;
    while j < m
        invariant
            0 <= j <= m,
            m == actions.len(),
            stats == spec_record_all(base, actions@, j as int),
        decreases m - j,
    {
        stats.record(&actions[j]);
        j += 1;
    }
    match found {
        Some(k) => {
            store.per_agent[k] = StatsEntry { agent_id, stats };
        },
        None => {
            store.per_agent.push(StatsEntry { agent_id, stats });
        },
    }
}

} // verus!
