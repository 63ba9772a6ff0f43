//! Health of the execution endpoint, as remembered internally and as shown to the rest of the
//! node.

use vstd::prelude::*;

verus! {

/// The remembered health of an engine. Only the upcheck transition sets it.
#[derive(Copy, Clone, PartialEq, Eq, Debug, Structural)]
pub enum EngineStateInternal {
    Synced,
    Offline,
    Syncing,
    AuthFailed,
}

/// The part of the engine's health that other services see: whether work can be routed to it.
#[derive(Copy, Clone, PartialEq, Eq, Debug, Structural)]
pub enum EngineState {
    Online,
    Offline,
}

/// The outward health that stands for an internal one. Several internal healths share one
/// outward health: observers need to know whether the engine is usable, not why it is not.
pub open spec fn project(state: EngineStateInternal) -> EngineState {
    match state {
        EngineStateInternal::Synced | EngineStateInternal::Syncing => EngineState::Online,
        EngineStateInternal::Offline | EngineStateInternal::AuthFailed => EngineState::Offline,
    }
}

impl Default for EngineStateInternal {
    /// An engine is taken to be offline until an upcheck has said otherwise.
    fn default() -> (state: EngineStateInternal)
        ensures
            state == EngineStateInternal::Offline,
    {
        EngineStateInternal::Offline
    }
}

impl From<EngineStateInternal> for EngineState {
    fn from(state: EngineStateInternal) -> (out: EngineState) {
        match state {
            EngineStateInternal::Synced | EngineStateInternal::Syncing => EngineState::Online,
            EngineStateInternal::Offline | EngineStateInternal::AuthFailed => EngineState::Offline,
        }
    }
}

impl vstd::std_specs::convert::FromSpecImpl<EngineStateInternal> for EngineState {
    open spec fn obeys_from_spec() -> bool {
        true
    }

    open spec fn from_spec(state: EngineStateInternal) -> EngineState {
        project(state)
    }
}

} // verus!
