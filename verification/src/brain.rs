//! Agent decision helpers: candidate actions, the deterministic chooser,
//! and the bounded decision memory.

use vstd::prelude::*;
use vstd::string::{StrSliceExecFns, StringExecFns};
use crate::actions::{Action, AgentId, Qi};
use crate::ore::OreKind;
use crate::structure::StructureKind;
use crate::strutil::{i64_dec, push_i64_dec, push_u64_dec, u64_dec};
use crate::vm::Vm;

verus! {

/// How an agent decides its next action.
#[derive(Clone, Copy, Debug, PartialEq, Eq, Structural)]
pub enum BrainMode {
    /// Deterministic loop over a provided action cycle.
    Loop,
    /// Planner-driven loop that chooses from candidates.
    Llm,
}

/// Which planner endpoint style a driver talks to.
#[derive(Clone, Copy, Debug, PartialEq, Eq, Structural)]
pub enum LlmProvider {
    Ollama,
    Openai,
}

/// A candidate action, as drivers configure it.
#[derive(Clone, Copy, Debug, PartialEq, Eq, Structural)]
pub enum ActionArg {
    Scan,
    Idle,
    Move { dx: i32, dy: i32, dz: i32 },
    Reproduce { partner: AgentId },
    BuildStructure { kind: StructureKind },
    HarvestOre { ore: OreKind, source_id: u64 },
}

impl ActionArg {
    /// The label of each candidate, as a character sequence.
    pub open spec fn spec_label(self) -> Seq<char> {
        match self {
            ActionArg::Scan => "scan"@,
            ActionArg::Idle => "idle"@,
            ActionArg::Move { .. } => "move"@,
            ActionArg::Reproduce { .. } => "reproduce"@,
            ActionArg::BuildStructure { kind } => "build_"@ + kind.spec_label(),
            ActionArg::HarvestOre { ore, .. } => "harvest_"@ + ore.spec_label(),
        }
    }

    pub fn label(&self) -> (r: String)
        ensures
            r@ == self.spec_label(),
    {
        match self {
            ActionArg::Scan => String::from_str("scan"),
            ActionArg::Idle => String::from_str("idle"),
            ActionArg::Move { .. } => String::from_str("move"),
            ActionArg::Reproduce { .. } => String::from_str("reproduce"),
            ActionArg::BuildStructure { kind } => {
                let mut s = String::from_str("build_");
                s.append(kind.label());
                s
            },
            ActionArg::HarvestOre { ore, .. } => {
                let mut s = String::from_str("harvest_");
                s.append(ore.label());
                s
            },
        }
    }

    /// The concrete action a candidate stands for.
    pub open spec fn spec_materialize(self) -> Action {
        match self {
            ActionArg::Scan => Action::Scan,
            ActionArg::Idle => Action::Idle,
            ActionArg::Move { dx, dy, dz } => Action::Move { dx, dy, dz },
            ActionArg::Reproduce { partner } => Action::Reproduce { partner },
            ActionArg::BuildStructure { kind } => Action::BuildStructure { kind },
            ActionArg::HarvestOre { ore, source_id } => Action::HarvestOre { ore, source_id },
        }
    }

    pub fn materialize(&self, _agent_id: AgentId, _next_tick: u64) -> (r: Action)
        ensures
            r == self.spec_materialize(),
    {
        match *self {
            ActionArg::Scan => Action::Scan,
            ActionArg::Idle => Action::Idle,
            ActionArg::Move { dx, dy, dz } => Action::Move { dx, dy, dz },
            ActionArg::Reproduce { partner } => Action::Reproduce { partner },
            ActionArg::BuildStructure { kind } => Action::BuildStructure { kind },
            ActionArg::HarvestOre { ore, source_id } => Action::HarvestOre { ore, source_id },
        }
    }
}

/// The rolling notes an agent keeps between ticks.
#[derive(Debug, Clone)]
pub struct BrainMemory {
    pub notes: Vec<String>,
}

impl Default for BrainMemory {
    fn default() -> (r: Self)
        ensures
            r.notes@.len() == 0,
    {
        BrainMemory { notes: Vec::new() }
    }
}

/// How many notes the memory keeps.
pub const MEMORY_LIMIT: usize = 5;

/// A planner's full decision record for one tick.
#[derive(Debug, Clone)]
pub struct LlmDecision {
    pub summary: String,
    pub observations: Vec<String>,
    pub prompt: String,
    pub request_json: String,
    pub response_json: String,
    pub response: String,
    pub model: String,
    pub provider: LlmProvider,
    pub action: Action,
    pub llm_ok: bool,
}

/// Append a note, keeping only the newest `MEMORY_LIMIT` notes.
pub fn push_memory(memory: &mut BrainMemory, entry: String)
    ensures
        ({
            let appended = old(memory).notes@.push(entry);
            final(memory).notes@ == if appended.len() <= MEMORY_LIMIT {
                appended
            } else {
                appended.skip(appended.len() - MEMORY_LIMIT as int)
            }
        }),
{
    let ghost appended = memory.notes@.push(entry);
    self_push(&mut memory.notes, entry);
    proof {
        assert(appended.skip(0) =~= appended);
    }
    while memory.notes.len() > MEMORY_LIMIT
        invariant
            memory.notes@ == appended.skip(appended.len() - memory.notes@.len()),
            memory.notes@.len() <= appended.len(),
            memory.notes@.len() >= MEMORY_LIMIT || memory.notes@.len() == appended.len(),
        decreases memory.notes.len(),
    {
        let ghost pre = memory.notes@;
        self_remove_front(&mut memory.notes);
        proof {
            assert(memory.notes@ =~= appended.skip(appended.len() - memory.notes@.len()));
        }
    }
    proof {
        if appended.len() <= MEMORY_LIMIT {
            assert(memory.notes@.len() == appended.len());
            assert(memory.notes@ =~= appended);
        }
    }
}

/// Push one note.
fn self_push(v: &mut Vec<String>, entry: String)
    ensures
        final(v)@ == old(v)@.push(entry),
{
    v.push(entry);
}

/// Drop the oldest note.
fn self_remove_front(v: &mut Vec<String>)
    requires
        old(v)@.len() > 0,
    ensures
        final(v)@ == old(v)@.remove(0),
{
    v.remove(0);
}

/// The newest `limit` notes, oldest first.
pub fn memory_context(memory: &BrainMemory, limit: usize) -> (r: Vec<String>)
    ensures
        ({
            let n = memory.notes@.len();
            let start: int = if n > limit {
                n - limit
            } else {
                0
            };
            &&& r@.len() == n - start
            &&& forall|j: int| 0 <= j < r@.len() ==> (#[trigger] r@[j])@ == memory.notes@[start + j]@
        }),
{
    let n = memory.notes.len();
    let start: usize = if n > limit {
        n - limit
    } else {
        0
    };
    let mut out: Vec<String> = Vec::new();
    let mut i: usize = start;
    while i < n
        invariant
            start <= i <= n,
            n == memory.notes.len(),
            out@.len() == i - start,
            forall|j: int|
                0 <= j < out@.len() ==> (#[trigger] out@[j])@ == memory.notes@[start + j]@,
        decreases n - i,
    {
        out.push(memory.notes[i].clone());
        i += 1;
    }
    out
}

/// The first affordable candidate, in list order, from index `i` on:
/// Programmable builds are skipped without Transistor ore, and every
/// candidate must cost no more than the agent's Qi; `Idle` when nothing
/// fits.
pub open spec fn spec_choose_from(
    candidates: Seq<ActionArg>,
    qi: Qi,
    transistors: Qi,
    i: int,
) -> Action
    decreases candidates.len() - i,
{
    if i < 0 || i >= candidates.len() {
        Action::Idle
    } else {
        let a = candidates[i].spec_materialize();
        if (a matches Action::BuildStructure { kind: StructureKind::Programmable }) && transistors
            == 0 {
            spec_choose_from(candidates, qi, transistors, i + 1)
        } else if a.spec_qi_cost() <= qi {
            a
        } else {
            spec_choose_from(candidates, qi, transistors, i + 1)
        }
    }
}

/// Deterministically choose the next action: the first candidate the agent
/// can afford, skipping Programmable builds without ore; `Idle` otherwise.
/// A missing agent is treated as having nothing to spend.
pub fn choose_action(vm: &Vm, agent_id: AgentId, candidates: &Vec<ActionArg>, next_tick: u64) -> (r:
    Action)
    ensures
        ({
            let lookup = 1 <= agent_id <= vm.world@.agents.len();
            let qi: Qi = if lookup {
                vm.world@.agents[agent_id - 1].qi
            } else {
                0
            };
            let transistors: Qi = if lookup {
                vm.world@.agents[agent_id - 1].transistors
            } else {
                0
            };
            r == spec_choose_from(candidates@, qi, transistors, 0)
        }),
{
    let (qi, transistors): (Qi, Qi) = match vm.world().agent(agent_id) {
        Some(a) => (a.qi, a.transistors),
        None => (0, 0),
    };
    let n = candidates.len();
    let mut i: usize = 0;
    while i < n
        invariant
            0 <= i <= n,
            n == candidates.len(),
            qi == if 1 <= agent_id <= vm.world@.agents.len() {
                vm.world@.agents[agent_id - 1].qi
            } else {
                0
            },
            transistors == if 1 <= agent_id <= vm.world@.agents.len() {
                vm.world@.agents[agent_id - 1].transistors
            } else {
                0
            },
            spec_choose_from(candidates@, qi, transistors, 0) == spec_choose_from(
                candidates@,
                qi,
                transistors,
                i as int,
            ),
        decreases n - i,
    {
        let materialized = candidates[i].materialize(agent_id, next_tick);
        let skip_build = match materialized {
            Action::BuildStructure { kind: StructureKind::Programmable } => transistors == 0,
            _ => false,
        };
        if !skip_build && materialized.qi_cost() <= qi {
            proof {
                assert(candidates@[i as int].spec_materialize() == materialized);
                assert(spec_choose_from(candidates@, qi, transistors, i as int) == materialized);
            }
            return materialized;
        }
        i += 1;
    }
    Action::Idle
}

/// The fallback when a planner reply is unusable: always `Idle`.
pub fn choose_action_fallback(
    candidates: &Vec<ActionArg>,
    _agent_id: AgentId,
    _next_tick: u64,
) -> (r: Action)
    ensures
        r == Action::Idle,
{
    Action::Idle
}

/// The survival override hook: currently passes the chosen action through.
pub fn survival_override(
    _vm: &Vm,
    _agent_id: AgentId,
    _candidates: &Vec<ActionArg>,
    _next_tick: u64,
    action: Action,
) -> (r: Action)
    ensures
        r == action,
{
    action
}

/// The label of a chosen action, with its parameters spelled out.
pub open spec fn spec_action_token(action: Action) -> Seq<char> {
    match action {
        Action::Scan => "scan"@,
        Action::Idle => "idle"@,
        Action::Move { dx, dy, dz } => "move("@ + i64_dec(dx as int) + seq![','] + i64_dec(
            dy as int,
        ) + seq![','] + i64_dec(dz as int) + seq![')'],
        Action::Reproduce { partner } => "reproduce("@ + u64_dec(partner as int) + seq![')'],
        Action::BuildStructure { kind } => "build_structure("@ + kind.spec_label() + seq![')'],
        Action::HarvestOre { ore, source_id } => "harvest_"@ + ore.spec_label() + seq!['('] + u64_dec(
            source_id as int,
        ) + seq![')'],
    }
}

/// Render an action as a compact token such as `move(1,0,-1)`.
pub fn action_token(action: &Action) -> (r: String)
    ensures
        r@ == spec_action_token(*action),
{
    proof {
        reveal_strlit(",");
        reveal_strlit("(");
        reveal_strlit(")");
    }
    match *action {
        Action::Scan => String::from_str("scan"),
        Action::Idle => String::from_str("idle"),
        Action::Move { dx, dy, dz } => {
            let mut s = String::from_str("move(");
            push_i64_dec(&mut s, dx as i64);
            s.append(",");
            push_i64_dec(&mut s, dy as i64);
            s.append(",");
            push_i64_dec(&mut s, dz as i64);
            s.append(")");
            proof {
                assert(","@ =~= seq![',']);
                assert(")"@ =~= seq![')']);
                assert(s@ =~= spec_action_token(*action));
            }
            s
        },
        Action::Reproduce { partner } => {
            let mut s = String::from_str("reproduce(");
            push_u64_dec(&mut s, partner);
            s.append(")");
            proof {
                assert(")"@ =~= seq![')']);
                assert(s@ =~= spec_action_token(*action));
            }
            s
        },
        Action::BuildStructure { kind } => {
            let mut s = String::from_str("build_structure(");
            s.append(kind.label());
            s.append(")");
            proof {
                assert(")"@ =~= seq![')']);
                assert(s@ =~= spec_action_token(*action));
            }
            s
        },
        Action::HarvestOre { ore, source_id } => {
            let mut s = String::from_str("harvest_");
            s.append(ore.label());
            s.append("(");
            push_u64_dec(&mut s, source_id);
            s.append(")");
            proof {
                assert("("@ =~= seq!['(']);
                assert(")"@ =~= seq![')']);
                assert(s@ =~= spec_action_token(*action));
            }
            s
        },
    }
}

/// Cut a text down to at most `max` characters, marking the cut with an
/// ellipsis.
pub fn truncate(text: &str, max: usize) -> (r: String)
    ensures
        ({
            if text@.len() <= max {
                r@ == text@
            } else {
                r@ == text@.subrange(0, max as int) + "..."@
            }
        }),
{
    let n = text.unicode_len();
    if n <= max {
        String::from_str(text)
    } else {
        let head = text.substring_char(0, max);
        let mut s = String::from_str(head);
        s.append("...");
        s
    }
}

} // verus!
