//! The announcement of an agent's presence.

use vstd::prelude::*;
use vstd::std_specs::convert::FromSpecImpl;
use crate::id::Id;
use crate::messages::EventKind;

verus! {

/// What an agent's presence topic carries: the agent, and whether it is online.
#[derive(Clone, Copy, Debug, PartialEq, Eq, Structural)]
pub struct UpdateRequest {
    pub agent_id: Id,
    pub data: UpdateRequestData,
}

/// Whether the agent is online.
#[derive(Clone, Copy, Debug, PartialEq, Eq, Structural)]
pub struct UpdateRequestData {
    pub online: bool,
}

/// The event that an agent's presence changed.
#[derive(Clone, Copy, Debug, PartialEq, Eq, Structural)]
pub struct UpdateEvent {
    pub payload: UpdateRequest,
}

impl UpdateEvent {
    /// The event that the agent `agent_id` is online, or is not.
    pub fn new(agent_id: Id, online: bool) -> (r: UpdateEvent)
        ensures
            r.payload.agent_id == agent_id,
            r.payload.data.online == online,
    {
        UpdateEvent { payload: UpdateRequest { agent_id, data: UpdateRequestData { online } } }
    }

    /// The agent whose presence changed.
    pub fn agent_id(&self) -> (r: Id)
        ensures
            r == self.payload.agent_id,
    {
        self.payload.agent_id
    }

    /// Whether the agent is online now.
    pub fn is_online(&self) -> (r: bool)
        ensures
            r == self.payload.data.online,
    {
        self.payload.data.online
    }
}

impl From<UpdateEvent> for EventKind {
    fn from(event: UpdateEvent) -> (r: EventKind) {
        EventKind::StateUpdate(event)
    }
}

impl FromSpecImpl<UpdateEvent> for EventKind {
    open spec fn obeys_from_spec() -> bool {
        true
    }

    open spec fn from_spec(event: UpdateEvent) -> EventKind {
        EventKind::StateUpdate(event)
    }
}

} // verus!
