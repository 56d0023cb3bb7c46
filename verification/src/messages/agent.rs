//! Requests, responses and events about the agents of a room.

use vstd::prelude::*;
use vstd::std_specs::convert::FromSpecImpl;
use crate::id::Id;
use crate::messages::query_parameters::QueryParameters;
use crate::messages::{Event, EventKind};
use chrono::NaiveDateTime;
use crate::models::RoomAgent;

verus! {

/// A request to let an agent into a room.
#[derive(Clone, Debug, PartialEq, Eq)]
pub struct CreateRequest {
    pub room_id: Id,
    pub id: Id,
    pub data: CreateRequestData,
}

/// What a request says of an agent.
#[derive(Clone, Debug, PartialEq, Eq)]
pub struct CreateRequestData {
    pub label: String,
}

/// What is said of an agent in a response.
#[derive(Clone, Debug, PartialEq, Eq)]
pub struct CreateResponseData {
    pub label: String,
    pub created_at: NaiveDateTime,
}

/// An agent of a room, as a response or an event reports it.
#[derive(Clone, Debug, PartialEq, Eq)]
pub struct CreateResponse {
    pub id: Id,
    pub data: CreateResponseData,
}

/// The report on the agent of one membership.
pub open spec fn agent_report(agent: RoomAgent) -> CreateResponse {
    CreateResponse {
        id: agent.agent_id,
        data: CreateResponseData { label: agent.label, created_at: agent.created_at },
    }
}

/// The report on the agent of an ended membership.
pub open spec fn agent_gone(agent: RoomAgent) -> DeleteResponse {
    DeleteResponse {
        id: agent.agent_id,
        data: DeleteResponseData { label: agent.label, created_at: agent.created_at },
    }
}

pub type CreateEvent = Event<CreateResponse>;

/// A request to read an agent of a room.
#[derive(Clone, Copy, Debug, PartialEq, Eq, Structural)]
pub struct ReadRequest {
    pub room_id: Id,
    pub id: Id,
}

pub type ReadResponse = CreateResponse;

pub type ReadResponseData = CreateResponseData;

pub type UpdateRequest = CreateRequest;

pub type UpdateResponse = CreateResponse;

pub type DeleteRequest = ReadRequest;

pub type DeleteResponseData = ReadResponseData;

/// An agent that left a room, as a response or an event reports it.
#[derive(Clone, Debug, PartialEq, Eq)]
pub struct DeleteResponse {
    pub id: Id,
    pub data: DeleteResponseData,
}

pub type DeleteEvent = Event<DeleteResponse>;

pub type ListRequest = QueryParameters;

pub type ListResponseData = ReadResponse;

/// The agents of a listing, in the order of the listing.
#[derive(Clone, Debug, PartialEq, Eq)]
pub struct ListResponse(pub Vec<ListResponseData>);

impl CreateResponse {
    /// The report on the agent of the membership `agent`.
    pub fn new(agent: &RoomAgent) -> (r: CreateResponse)
        ensures
            r == agent_report(*agent),
    {
        CreateResponse {
            id: agent.agent_id,
            data: CreateResponseData { label: agent.label.clone(), created_at: agent.created_at },
        }
    }
}

impl DeleteResponse {
    /// The report on the agent of the ended membership `agent`.
    pub fn new(agent: &RoomAgent) -> (r: DeleteResponse)
        ensures
            r == agent_gone(*agent),
    {
        DeleteResponse {
            id: agent.agent_id,
            data: DeleteResponseData { label: agent.label.clone(), created_at: agent.created_at },
        }
    }
}

impl ListResponse {
    /// The reports on `agents`, one for each membership, in the same order.
    pub fn new(agents: &[RoomAgent]) -> (r: ListResponse)
        ensures
            r.0@ == agents@.map_values(|agent: RoomAgent| agent_report(agent)),
    {
        let mut data: Vec<ListResponseData> = Vec::new();
        let mut i: usize = 0;
        while i < agents.len()
            invariant
                i <= agents.len(),
                data@ == agents@.take(i as int).map_values(|agent: RoomAgent| agent_report(agent)),
            decreases agents.len() - i,
        {
            data.push(ListResponseData::new(&agents[i]));
            proof {
                assert(agents@.take(i + 1) =~= agents@.take(i as int).push(agents@[i as int]));
                assert(data@ =~= agents@.take(i + 1).map_values(
                    |agent: RoomAgent| agent_report(agent),
                ));
            }
            i += 1;
        }
        proof {
            assert(agents@.take(agents@.len() as int) =~= agents@);
        }
        ListResponse(data)
    }
}

impl From<CreateEvent> for EventKind {
    fn from(event: CreateEvent) -> (r: EventKind) {
        EventKind::AgentCreate(event)
    }
}

impl FromSpecImpl<CreateEvent> for EventKind {
    open spec fn obeys_from_spec() -> bool {
        true
    }

    open spec fn from_spec(event: CreateEvent) -> EventKind {
        EventKind::AgentCreate(event)
    }
}

impl From<DeleteEvent> for EventKind {
    fn from(event: DeleteEvent) -> (r: EventKind) {
        EventKind::AgentDelete(event)
    }
}

impl FromSpecImpl<DeleteEvent> for EventKind {
    open spec fn obeys_from_spec() -> bool {
        true
    }

    open spec fn from_spec(event: DeleteEvent) -> EventKind {
        EventKind::AgentDelete(event)
    }
}

} // verus!
