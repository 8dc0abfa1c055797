use vstd::prelude::*;

use crate::keys::AccountId;
use crate::state::ProjectState;

verus! {

/// Emitted once per successful creation, after every effect has applied.
#[derive(Debug)]
pub struct ProjectCreated {
    pub project_id: AccountId,
    pub creator: AccountId,
    pub name: Vec<u8>,
    pub total_allocation: u64,
}

/// Emitted once per successful state transition.
#[derive(Clone, Copy, Debug)]
pub struct ProjectStateUpdated {
    pub project_id: AccountId,
    pub new_state: ProjectState,
}

/// One entry of the append-only event log the operations write on success.
#[derive(Debug)]
pub enum Event {
    Created(ProjectCreated),
    StateUpdated(ProjectStateUpdated),
}

} // verus!
