//! The persistent registry of agent profiles and action votes.

use vstd::prelude::*;
use crate::strutil::{lemma_hex_of_len, str_eq};
use crate::world::DEFAULT_MAX_AGENT_AGE;

verus! {

/// A persisted agent profile, addressed by its hex id.
#[derive(Debug, Clone)]
pub struct AgentProfile {
    pub id: String,
    pub qi: u64,
    pub companions: u32,
    pub max_age: u64,
}

/// Up and down votes recorded for one action.
#[derive(Debug, Clone, Copy, PartialEq, Eq, Structural)]
pub struct VoteTally {
    pub up: u64,
    pub down: u64,
}

impl Default for VoteTally {
    fn default() -> (r: Self)
        ensures
            r.up == 0 && r.down == 0,
    {
        VoteTally { up: 0, down: 0 }
    }
}

/// One action's tally, addressed by the action's id.
#[derive(Debug, Clone)]
pub struct VoteEntry {
    pub action_id: String,
    pub tally: VoteTally,
}

/// The persistent store: profiles and votes, each in insertion order.
#[derive(Debug, Clone, Default)]
pub struct AgentStore {
    pub agents: Vec<AgentProfile>,
    pub votes: Vec<VoteEntry>,
}

/// A vote's direction.
#[derive(Debug, Clone, Copy, PartialEq, Eq, Structural)]
pub enum VoteDirection {
    Up,
    Down,
}

/// Why a store operation failed.
#[derive(Debug, Clone, Copy, PartialEq, Eq, Structural)]
pub enum AgentStoreError {
    AlreadyExists,
    NotFound,
    InsufficientQi,
}

/// The first profile index at or after `i` holding the given id.
pub open spec fn profile_index_from(s: Seq<AgentProfile>, id: Seq<char>, i: int) -> Option<int>
    decreases s.len() - i,
{
    if i < 0 || i >= s.len() {
        None
    } else if s[i].id@ == id {
        Some(i)
    } else {
        profile_index_from(s, id, i + 1)
    }
}

/// The first profile index holding the given id.
pub open spec fn profile_index(s: Seq<AgentProfile>, id: Seq<char>) -> Option<int> {
    profile_index_from(s, id, 0)
}

/// Find a profile's index by id.
fn find_profile(agents: &Vec<AgentProfile>, id: &str) -> (r: Option<usize>)
    ensures
        match r {
            Some(i) => i < agents.len() && profile_index(agents@, id@) == Some(i as int),
            None => profile_index(agents@, id@) is None,
        },
{
    let n = agents.len();
    let mut i: usize = 0;
    while i < n
        invariant
            0 <= i <= n,
            n == agents.len(),
            profile_index(agents@, id@) == profile_index_from(agents@, id@, i as int),
        decreases n - i,
    {
        if str_eq(agents[i].id.as_str(), id) {
            return Some(i);
        }
        i += 1;
    }
    None
}

/// Register a new agent profile under a freshly drawn hex address. Fails
/// only when the requested id is already registered.
pub fn create_agent(store: &mut AgentStore, id: String) -> (r: Result<AgentProfile, AgentStoreError>)
    ensures
        match r {
            Ok(p) => {
                &&& profile_index(old(store).agents@, id@) is None
                &&& p.qi == 0
                &&& p.companions == 0
                &&& p.max_age == DEFAULT_MAX_AGENT_AGE
                &&& p.id@.len() == 40
                &&& final(store).agents@.len() == old(store).agents@.len() + 1
                &&& final(store).votes@ == old(store).votes@
            },
            Err(e) => {
                &&& e == AgentStoreError::AlreadyExists
                &&& profile_index(old(store).agents@, id@) is Some
                &&& *final(store) == *old(store)
            },
        },
{
    let bytes = crate::wallet::os_random_bytes_20();
    let address = crate::wallet::hex_encode(bytes.as_slice());
    proof {
        lemma_hex_of_len(bytes@);
    }
    if find_profile(&store.agents, id.as_str()).is_some() {
        return Err(AgentStoreError::AlreadyExists);
    }
    let profile = AgentProfile {
        id: address,
        qi: 0,
        companions: 0,
        max_age: DEFAULT_MAX_AGENT_AGE,
    };
    let stored = AgentProfile {
        id: profile.id.clone(),
        qi: profile.qi,
        companions: profile.companions,
        max_age: profile.max_age,
    };
    store.agents.push(stored);
    Ok(profile)
}

/// Credit Qi to a profile, saturating.
pub fn infuse(store: &mut AgentStore, id: &str, amount: u64) -> (r: Result<(), AgentStoreError>)
    ensures
        match profile_index(old(store).agents@, id@) {
            Some(i) => r is Ok && final(store).agents@ == old(store).agents@.update(
                i,
                AgentProfile {
                    qi: crate::model::sat_add_u64(
                        old(store).agents@[i].qi as int,
                        amount as int,
                    ) as u64,
                    ..old(store).agents@[i]
                },
            ) && final(store).votes@ == old(store).votes@,
            None => r == Err::<(), AgentStoreError>(AgentStoreError::NotFound) && *final(store)
                == *old(store),
        },
{
    match find_profile(&store.agents, id) {
        None => Err(AgentStoreError::NotFound),
        Some(i) => {
            let q = store.agents[i].qi;
            store.agents[i].qi = if q <= u64::MAX - amount {
                q + amount
            } else {
                u64::MAX
            };
            proof {
                assert(store.agents@ =~= old(store).agents@.update(
                    i as int,
                    AgentProfile {
                        qi: crate::model::sat_add_u64(
                            old(store).agents@[i as int].qi as int,
                            amount as int,
                        ) as u64,
                        ..old(store).agents@[i as int]
                    },
                ));
            }
            Ok(())
        },
    }
}

/// Extend (or shorten) a profile's lifespan; lifespans are at least one tick.
pub fn extend_life(store: &mut AgentStore, id: &str, max_age: u64) -> (r: Result<
    (),
    AgentStoreError,
>)
    ensures
        match profile_index(old(store).agents@, id@) {
            Some(i) => r is Ok && final(store).agents@ == old(store).agents@.update(
                i,
                AgentProfile {
                    max_age: if max_age >= 1 {
                        max_age
                    } else {
                        1
                    },
                    ..old(store).agents@[i]
                },
            ) && final(store).votes@ == old(store).votes@,
            None => r == Err::<(), AgentStoreError>(AgentStoreError::NotFound) && *final(store)
                == *old(store),
        },
{
    match find_profile(&store.agents, id) {
        None => Err(AgentStoreError::NotFound),
        Some(i) => {
            store.agents[i].max_age = if max_age >= 1 {
                max_age
            } else {
                1
            };
            proof {
                assert(store.agents@ =~= old(store).agents@.update(
                    i as int,
                    AgentProfile {
                        max_age: if max_age >= 1 {
                            max_age
                        } else {
                            1u64
                        },
                        ..old(store).agents@[i as int]
                    },
                ));
            }
            Ok(())
        },
    }
}

/// Record one more companion for a profile, saturating.
pub fn spawn_companion(store: &mut AgentStore, id: &str) -> (r: Result<(), AgentStoreError>)
    ensures
        match profile_index(old(store).agents@, id@) {
            Some(i) => r is Ok && final(store).agents@ == old(store).agents@.update(
                i,
                AgentProfile {
                    companions: crate::model::sat_add_u32(
                        old(store).agents@[i].companions as int,
                        1,
                    ) as u32,
                    ..old(store).agents@[i]
                },
            ) && final(store).votes@ == old(store).votes@,
            None => r == Err::<(), AgentStoreError>(AgentStoreError::NotFound) && *final(store)
                == *old(store),
        },
{
    match find_profile(&store.agents, id) {
        None => Err(AgentStoreError::NotFound),
        Some(i) => {
            let c = store.agents[i].companions;
            store.agents[i].companions = if c < u32::MAX {
                c + 1
            } else {
                c
            };
            proof {
                assert(store.agents@ =~= old(store).agents@.update(
                    i as int,
                    AgentProfile {
                        companions: crate::model::sat_add_u32(
                            old(store).agents@[i as int].companions as int,
                            1,
                        ) as u32,
                        ..old(store).agents@[i as int]
                    },
                ));
            }
            Ok(())
        },
    }
}

/// Remove a profile from the registry.
pub fn remove_agent(store: &mut AgentStore, id: &str) -> (r: Result<(), AgentStoreError>)
    ensures
        match profile_index(old(store).agents@, id@) {
            Some(i) => r is Ok && final(store).agents@ == old(store).agents@.remove(i)
                && final(store).votes@ == old(store).votes@,
            None => r == Err::<(), AgentStoreError>(AgentStoreError::NotFound) && *final(store)
                == *old(store),
        },
{
    match find_profile(&store.agents, id) {
        None => Err(AgentStoreError::NotFound),
        Some(i) => {
            self_remove(&mut store.agents, i);
            Ok(())
        },
    }
}

/// Remove the element at `i`, shifting the rest down.
fn self_remove(v: &mut Vec<AgentProfile>, i: usize)
    requires
        i < old(v)@.len(),
    ensures
        final(v)@ == old(v)@.remove(i as int),
{
    v.remove(i);
}

/// The first vote-entry index at or after `i` holding the given action id.
pub open spec fn vote_index_from(s: Seq<VoteEntry>, action_id: Seq<char>, i: int) -> Option<int>
    decreases s.len() - i,
{
    if i < 0 || i >= s.len() {
        None
    } else if s[i].action_id@ == action_id {
        Some(i)
    } else {
        vote_index_from(s, action_id, i + 1)
    }
}

/// The first vote-entry index holding the given action id.
pub open spec fn vote_index(s: Seq<VoteEntry>, action_id: Seq<char>) -> Option<int> {
    vote_index_from(s, action_id, 0)
}

/// One tally after a vote in the given direction, saturating.
pub open spec fn spec_voted(t: VoteTally, direction: VoteDirection) -> VoteTally {
    match direction {
        VoteDirection::Up => VoteTally {
            up: crate::model::sat_add_u64(t.up as int, 1) as u64,
            ..t
        },
        VoteDirection::Down => VoteTally {
            down: crate::model::sat_add_u64(t.down as int, 1) as u64,
            ..t
        },
    }
}

/// Record a vote on an action, creating its tally on first sight.
pub fn vote(store: &mut AgentStore, action_id: &str, direction: VoteDirection)
    ensures
        final(store).agents@ == old(store).agents@,
        match vote_index(old(store).votes@, action_id@) {
            Some(i) => final(store).votes@.len() == old(store).votes@.len()
                && final(store).votes@[i].tally == spec_voted(old(store).votes@[i].tally, direction)
                && final(store).votes@[i].action_id@ == action_id@,
            None => final(store).votes@.len() == old(store).votes@.len() + 1
                && final(store).votes@.last().tally == spec_voted(
                VoteTally { up: 0, down: 0 },
                direction,
            ) && final(store).votes@.last().action_id@ == action_id@,
        },
{
    let n = store.votes.len();
    let mut i: usize = 0;
    let mut found: Option<usize> = None;
    while i < n
        invariant
            0 <= i <= n,
            n == store.votes.len(),
            *store == *old(store),
            match found {
                Some(k) => k < n && store.votes@[k as int].action_id@ == action_id@,
                None => vote_index(store.votes@, action_id@) == vote_index_from(
                    store.votes@,
                    action_id@,
                    i as int,
                ),
            },
            found is Some ==> vote_index(store.votes@, action_id@) == Some(found->0 as int),
        decreases n - i,
    {
        if found.is_none() && str_eq(store.votes[i].action_id.as_str(), action_id) {
            found = Some(i);
        }
        i += 1;
    }
    match found {
        Some(k) => {
            let t = store.votes[k].tally;
            store.votes[k].tally = match direction {
                VoteDirection::Up => VoteTally {
                    up: if t.up < u64::MAX {
                        t.up + 1
                    } else {
                        t.up
                    },
                    down: t.down,
                },
                VoteDirection::Down => VoteTally {
                    up: t.up,
                    down: if t.down < u64::MAX {
                        t.down + 1
                    } else {
                        t.down
                    },
                },
            };
        },
        None => {
            let mut s = String::new();
            s.append(action_id);
            let base = VoteTally { up: 0, down: 0 };
            let tally = match direction {
                VoteDirection::Up => VoteTally { up: 1, down: 0 },
                VoteDirection::Down => VoteTally { up: 0, down: 1 },
            };
            store.votes.push(VoteEntry { action_id: s, tally });
            proof {
                assert(store.votes@.last().action_id@ =~= action_id@);
            }
        },
    }
}

/// Move Qi between two profiles. A zero amount or a self-transfer is a
/// no-op. The sender is debited (saturating) before the recipient is looked
/// up, so a transfer to a missing recipient leaves the sender already
/// debited.
pub fn transfer_qi(store: &mut AgentStore, from: &str, to: &str, amount: u64) -> (r: Result<
    (),
    AgentStoreError,
>)
    ensures
        final(store).votes@ == old(store).votes@,
        ({
            let s0 = old(store).agents@;
            let fi = profile_index(s0, from@);
            if amount == 0 || from@ == to@ {
                r is Ok && final(store).agents@ == s0
            } else if fi is None {
                r == Err::<(), AgentStoreError>(AgentStoreError::NotFound) && final(store).agents@
                    == s0
            } else if s0[fi->0].qi < amount {
                r == Err::<(), AgentStoreError>(AgentStoreError::InsufficientQi)
                    && final(store).agents@ == s0
            } else {
                let debited = s0.update(
                    fi->0,
                    AgentProfile { qi: (s0[fi->0].qi - amount) as u64, ..s0[fi->0] },
                );
                match profile_index(debited, to@) {
                    None => r == Err::<(), AgentStoreError>(AgentStoreError::NotFound)
                        && final(store).agents@ == debited,
                    Some(ti) => r is Ok && final(store).agents@ == debited.update(
                        ti,
                        AgentProfile {
                            qi: crate::model::sat_add_u64(
                                debited[ti].qi as int,
                                amount as int,
                            ) as u64,
                            ..debited[ti]
                        },
                    ),
                }
            }
        }),
{
    if amount == 0 || str_eq(from, to) {
        return Ok(());
    }
    let fi = match find_profile(&store.agents, from) {
        Some(i) => i,
        None => {
            return Err(AgentStoreError::NotFound);
        },
    };
    if store.agents[fi].qi < amount {
        return Err(AgentStoreError::InsufficientQi);
    }
    let fq = store.agents[fi].qi;
    store.agents[fi].qi = fq - amount;
    let ti = match find_profile(&store.agents, to) {
        Some(i) => i,
        None => {
            return Err(AgentStoreError::NotFound);
        },
    };
    let tq = store.agents[ti].qi;
    store.agents[ti].qi = if tq <= u64::MAX - amount {
        tq + amount
    } else {
        u64::MAX
    };
    proof {
        let s0 = old(store).agents@;
        let debited = s0.update(
            fi as int,
            AgentProfile { qi: (s0[fi as int].qi - amount) as u64, ..s0[fi as int] },
        );
        assert(store.agents@ =~= debited.update(
            ti as int,
            AgentProfile {
                qi: crate::model::sat_add_u64(debited[ti as int].qi as int, amount as int) as u64,
                ..debited[ti as int]
            },
        ));
    }
    Ok(())
}

} // verus!
