//! The runtime-state record that drivers persist between sittings.

use vstd::prelude::*;

verus! {

/// The driver's lifecycle state.
#[derive(Debug, Clone, Copy, PartialEq, Eq, Structural)]
pub enum Status {
    Initialized,
    Running,
    Stopped,
}

/// The persisted runtime state: lifecycle, last completed tick, and an
/// optional message.
#[derive(Debug, Clone)]
pub struct RuntimeState {
    pub status: Status,
    pub last_tick: u64,
    pub message: Option<String>,
}

impl Default for RuntimeState {
    fn default() -> (r: Self)
        ensures
            r.status == Status::Initialized,
            r.last_tick == 0,
            r.message is None,
    {
        RuntimeState { status: Status::Initialized, last_tick: 0, message: None }
    }
}

impl RuntimeState {
    /// The state after a status update.
    pub fn with_status(self, status: Status, last_tick: u64, message: Option<String>) -> (r: Self)
        ensures
            r.status == status,
            r.last_tick == last_tick,
            r.message == message,
    {
        RuntimeState { status, last_tick, message }
    }
}

} // verus!
