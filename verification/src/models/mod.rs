//! The records that the store keeps, as the routing logic sees them.

use vstd::prelude::*;
use chrono::NaiveDateTime;
use serde_json::Value;
use vstd::std_specs::convert::FromSpecImpl;
use crate::id::Id;
use crate::messages::track::CreateRequest;

pub mod room;

pub use crate::models::room::{NewRoom, Room, RoomCapacity};

verus! {

/// `chrono::NaiveDateTime`, the time at which a record was stored. The
/// library passes such a value on and never looks into it.
#[verifier::external_type_specification]
#[verifier::external_body]
pub struct ExNaiveDateTime(chrono::NaiveDateTime);

/// `serde_json::Value`, the metadata of a track and the session
/// descriptions and candidates of signalling. The library passes such a
/// value on and never looks into it.
#[verifier::external_type_specification]
#[verifier::external_body]
pub struct ExValue(serde_json::Value);

/// `Clone::clone` of `chrono::NaiveDateTime`: the copy is the time copied.
pub assume_specification[ <chrono::NaiveDateTime as Clone>::clone ](
    value: &chrono::NaiveDateTime,
) -> (r: chrono::NaiveDateTime)
    ensures
        r == *value,
;

/// `Clone::clone` of `serde_json::Value`: the copy is a JSON value equal
/// to the one copied.
pub assume_specification[ <serde_json::Value as Clone>::clone ](value: &serde_json::Value) -> (r:
    serde_json::Value)
    ensures
        r == *value,
;

/// A stored agent.
#[derive(Clone, Copy, Debug, PartialEq, Eq, Structural)]
pub struct Agent {
    pub id: Id,
}

impl Agent {
    /// The agent with the given identifier.
    pub fn new(id: Id) -> (r: Agent)
        ensures
            r.id == id,
    {
        Agent { id }
    }
}

/// An agent that is not stored yet.
#[derive(Clone, Copy, Debug, PartialEq, Eq, Structural)]
pub struct NewAgent {
    pub id: Id,
}

/// The membership of an agent in a room.
#[derive(Clone, Debug, PartialEq, Eq)]
pub struct RoomAgent {
    pub agent_id: Id,
    pub room_id: Id,
    pub label: String,
    pub created_at: NaiveDateTime,
}

/// A membership that is not stored yet.
#[derive(Clone, Debug, PartialEq, Eq)]
pub struct NewRoomAgent {
    pub agent_id: Id,
    pub room_id: Id,
    pub label: String,
}

/// A stored track.
#[derive(Clone, Debug, PartialEq, Eq)]
pub struct Track {
    pub id: Id,
    pub owner_id: Id,
    pub metadata: Value,
}

/// A track that is not stored yet.
#[derive(Clone, Debug, PartialEq, Eq)]
pub struct NewTrack {
    pub owner_id: Id,
    pub metadata: Value,
}

impl From<CreateRequest> for NewTrack {
    fn from(req: CreateRequest) -> (r: NewTrack) {
        let data = req.data;
        NewTrack { owner_id: data.owner_id, metadata: data.metadata }
    }
}

impl FromSpecImpl<CreateRequest> for NewTrack {
    open spec fn obeys_from_spec() -> bool {
        true
    }

    open spec fn from_spec(req: CreateRequest) -> NewTrack {
        NewTrack { owner_id: req.data.owner_id, metadata: req.data.metadata }
    }
}

/// A media track as its owner captures it.
#[derive(Clone, Debug, PartialEq, Eq)]
pub struct LocalTrack {
    pub id: Id,
    pub stream_id: String,
    pub track_id: String,
    pub device: String,
    pub kind: String,
    pub label: String,
    pub owner_id: Id,
}

/// A local track that is not stored yet.
#[derive(Clone, Debug, PartialEq, Eq)]
pub struct NewLocalTrack {
    pub stream_id: String,
    pub track_id: String,
    pub device: String,
    pub kind: String,
    pub label: String,
    pub owner_id: Id,
}

/// A local track as another agent receives it.
#[derive(Clone, Copy, Debug, PartialEq, Eq, Structural)]
pub struct RemoteTrack {
    pub id: Id,
    pub local_track_id: Id,
    pub agent_id: Id,
}

/// A remote track that is not stored yet.
#[derive(Clone, Copy, Debug, PartialEq, Eq, Structural)]
pub struct NewRemoteTrack {
    pub local_track_id: Id,
    pub agent_id: Id,
}

} // verus!
