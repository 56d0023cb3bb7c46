//! The request for the broadcast topic of a room.

use vstd::prelude::*;
use crate::id::Id;
use crate::topic::{AppTopic, ResourceKind};

verus! {

/// A request for the topic on which a kind of resource of a room is reported.
#[derive(Clone, Copy, Debug, PartialEq, Eq, Structural)]
pub struct CreateRequest {
    pub room_id: Id,
    pub agent_id: Id,
    pub data: CreateRequestData,
}

/// The kind of resource asked about.
#[derive(Clone, Copy, Debug, PartialEq, Eq, Structural)]
pub struct CreateRequestData {
    pub resource: ResourceKind,
}

/// The topic to subscribe to.
#[derive(Clone, Copy, Debug, PartialEq, Eq, Structural)]
pub struct CreateResponseData {
    pub topic: AppTopic,
}

/// The answer to a request for a broadcast topic.
#[derive(Clone, Copy, Debug, PartialEq, Eq, Structural)]
pub struct CreateResponse {
    pub data: CreateResponseData,
}

impl CreateResponse {
    /// The answer that names `topic`.
    pub fn new(topic: AppTopic) -> (r: CreateResponse)
        ensures
            r.data.topic == topic,
    {
        CreateResponse { data: CreateResponseData { topic } }
    }
}

} // verus!
