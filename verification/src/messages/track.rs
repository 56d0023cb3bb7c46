//! Requests, responses and events about tracks.

use vstd::prelude::*;
use vstd::std_specs::convert::FromSpecImpl;
use serde_json::Value;
use crate::id::Id;
use crate::messages::query_parameters::QueryParameters;
use crate::messages::{Event, EventKind};
use crate::models::Track;

verus! {

/// A request to create a track.
#[derive(Clone, Debug, PartialEq, Eq)]
pub struct CreateRequest {
    pub room_id: Id,
    pub data: CreateRequestData,
}

/// What is said of a track: its owner, and its metadata.
#[derive(Clone, Debug, PartialEq, Eq)]
pub struct CreateRequestData {
    pub owner_id: Id,
    pub metadata: Value,
}

pub type CreateResponseData = CreateRequestData;

/// A track, as a response or an event reports it.
#[derive(Clone, Debug, PartialEq, Eq)]
pub struct CreateResponse {
    pub id: Id,
    pub data: CreateResponseData,
}

/// The report on one track.
pub open spec fn track_report(track: Track) -> CreateResponse {
    CreateResponse {
        id: track.id,
        data: CreateResponseData { owner_id: track.owner_id, metadata: track.metadata },
    }
}

/// The report on one deleted track.
pub open spec fn track_gone(track: Track) -> DeleteResponse {
    DeleteResponse {
        id: track.id,
        data: DeleteResponseData { owner_id: track.owner_id, metadata: track.metadata },
    }
}

pub type CreateEvent = Event<CreateResponse>;

pub type UpdateResponse = CreateResponse;

pub type UpdateEvent = Event<UpdateResponse>;

/// A request to delete a track.
#[derive(Clone, Copy, Debug, PartialEq, Eq, Structural)]
pub struct DeleteRequest {
    pub room_id: Id,
    pub id: Id,
}

pub type DeleteResponseData = CreateResponseData;

/// A deleted track, as a response or an event reports it.
#[derive(Clone, Debug, PartialEq, Eq)]
pub struct DeleteResponse {
    pub id: Id,
    pub data: DeleteResponseData,
}

pub type DeleteEvent = Event<DeleteResponse>;

pub type ListRequest = QueryParameters;

pub type ListResponseData = CreateResponse;

/// The tracks of a listing, in the order of the listing.
#[derive(Clone, Debug, PartialEq, Eq)]
pub struct ListResponse(pub Vec<ListResponseData>);

impl CreateResponseData {
    /// What a stored track says of itself.
    pub fn new(track: &Track) -> (r: CreateResponseData)
        ensures
            r == (CreateResponseData { owner_id: track.owner_id, metadata: track.metadata }),
    {
        CreateResponseData { owner_id: track.owner_id, metadata: track.metadata.clone() }
    }
}

impl CreateResponse {
    /// The report on `track`.
    pub fn new(track: &Track) -> (r: CreateResponse)
        ensures
            r == track_report(*track),
    {
        CreateResponse { id: track.id, data: CreateResponseData::new(track) }
    }

    /// A copy of the report.
    pub fn copy(&self) -> (r: CreateResponse)
        ensures
            r == *self,
    {
        CreateResponse {
            id: self.id,
            data: CreateResponseData {
                owner_id: self.data.owner_id,
                metadata: self.data.metadata.clone(),
            },
        }
    }
}

impl DeleteResponse {
    /// The report on the deleted `track`.
    pub fn new(track: &Track) -> (r: DeleteResponse)
        ensures
            r == track_gone(*track),
    {
        DeleteResponse { id: track.id, data: DeleteResponseData::new(track) }
    }

    /// A copy of the report.
    pub fn copy(&self) -> (r: DeleteResponse)
        ensures
            r == *self,
    {
        DeleteResponse {
            id: self.id,
            data: DeleteResponseData {
                owner_id: self.data.owner_id,
                metadata: self.data.metadata.clone(),
            },
        }
    }
}

impl ListResponse {
    /// The reports on `tracks`, one for each track, in the same order.
    pub fn new(tracks: &[Track]) -> (r: ListResponse)
        ensures
            r.0@ == tracks@.map_values(|track: Track| track_report(track)),
    {
        let mut data: Vec<ListResponseData> = Vec::new();
        let mut i: usize = 0;
        while i < tracks.len()
            invariant
                i <= tracks.len(),
                data@ == tracks@.take(i as int).map_values(|track: Track| track_report(track)),
            decreases tracks.len() - i,
        {
            data.push(ListResponseData::new(&tracks[i]));
            proof {
                assert(tracks@.take(i + 1) =~= tracks@.take(i as int).push(tracks@[i as int]));
                assert(data@ =~= tracks@.take(i + 1).map_values(
                    |track: Track| track_report(track),
                ));
            }
            i += 1;
        }
        proof {
            assert(tracks@.take(tracks@.len() as int) =~= tracks@);
        }
        ListResponse(data)
    }
}

impl From<CreateEvent> for EventKind {
    fn from(event: CreateEvent) -> (r: EventKind) {
        EventKind::TrackCreate(event)
    }
}

impl FromSpecImpl<CreateEvent> for EventKind {
    open spec fn obeys_from_spec() -> bool {
        true
    }

    open spec fn from_spec(event: CreateEvent) -> EventKind {
        EventKind::TrackCreate(event)
    }
}

impl From<DeleteEvent> for EventKind {
    fn from(event: DeleteEvent) -> (r: EventKind) {
        EventKind::TrackDelete(event)
    }
}

impl FromSpecImpl<DeleteEvent> for EventKind {
    open spec fn obeys_from_spec() -> bool {
        true
    }

    open spec fn from_spec(event: DeleteEvent) -> EventKind {
        EventKind::TrackDelete(event)
    }
}

} // verus!
