//! The broadcast topics of a room:
//! `apps/signals.netology-group.services/api/v1/rooms/{room}/{resource}`.
//! The service publishes on them and never reads one.

use vstd::prelude::*;
use crate::id::{Id, id_text};

verus! {

/// The kind of resource that a broadcast topic reports on.
#[derive(Clone, Copy, Debug, PartialEq, Eq, Structural)]
pub enum ResourceKind {
    Agents,
    Tracks,
}

/// The broadcast topic of one kind of resource in one room.
#[derive(Clone, Copy, Debug, PartialEq, Eq, Structural)]
pub struct AppTopic {
    pub room_id: Id,
    pub resource: ResourceKind,
}

/// The segment that stands for a kind of resource.
pub open spec fn resource_text(kind: ResourceKind) -> Seq<char> {
    match kind {
        ResourceKind::Agents => "agents"@,
        ResourceKind::Tracks => "tracks"@,
    }
}

/// The topic string of a broadcast topic.
pub open spec fn app_text(t: AppTopic) -> Seq<char> {
    "apps/signals.netology-group.services/api/v1/rooms/"@ + id_text(t.room_id.value) + "/"@
        + resource_text(t.resource)
}

impl ResourceKind {
    /// The segment that stands for the kind.
    pub fn to_string(&self) -> (r: String)
        ensures
            r@ == resource_text(*self),
    {
        match self {
            ResourceKind::Agents => String::from_str("agents"),
            ResourceKind::Tracks => String::from_str("tracks"),
        }
    }
}

impl AppTopic {
    /// The topic string.
    pub fn to_string(&self) -> (r: String)
        ensures
            r@ == app_text(*self),
    {
        let mut r = String::from_str("apps/signals.netology-group.services/api/v1/rooms/");
        r.append(self.room_id.to_string().as_str());
        r.append("/");
        r.append(self.resource.to_string().as_str());
        r
    }
}

} // verus!
