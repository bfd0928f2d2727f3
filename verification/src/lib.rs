pub mod actions;
pub mod agents;
pub mod brain;
pub mod events;
pub mod infuse;
pub mod laws;
pub mod model;
pub mod ore;
pub mod pow;
pub mod qi;
pub mod space;
pub mod state;
pub mod stats;
pub mod structure;
pub mod view;
pub mod vm;
pub mod vmspec;
pub mod wallet;
pub mod strutil;
pub mod world;

pub use actions::{Action, ActionError, ActionRejection, ActionRequest, AgentId, DeathReason, Qi};
pub use agents::{create_agent, extend_life, infuse, remove_agent, spawn_companion, transfer_qi, vote, AgentProfile, AgentStore, AgentStoreError, VoteDirection, VoteEntry, VoteTally};
pub use qi::{QiSourceSpec, QiSourceStore, Spread};
pub use state::{RuntimeState, Status};
pub use stats::{record_successful_actions, ActionStats, ActionStatsStore, StatsEntry};
pub use brain::{choose_action, ActionArg, BrainMemory, BrainMode, LlmDecision, LlmProvider};
pub use events::{Event, EventV, QiSourceSnapshot, StructureSnapshot};
pub use infuse::{InfuseError, InfuseQiCommand, InfuseQiResult, WorldCommands};
pub use ore::OreKind;
pub use pow::{pow_solve, pow_valid, POW_DIFFICULTY_BYTES, POW_REWARD};
pub use space::{Position, Zone, MAX_MOVE_RADIUS, SCAN_RANGE, HARVEST_RANGE, ZONE_SIZE};
pub use structure::{Structure, StructureKind, StructureRecord, StructureStore};
pub use view::{snapshot_from_persistent, AgentSnapshot, OreNodeSnapshot, StructureView, WorldSnapshot};
pub use vm::{TickResult, Vm};
pub use wallet::{create_wallet, mine, transfer, wallet_pow_solve, wallet_pow_valid, Wallet, WalletError, WalletStore};
pub use world::{Agent, QiSource, World, DEFAULT_MAX_AGENT_AGE, HARVEST_PER_ACTION};
