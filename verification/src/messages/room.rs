//! Requests and responses about rooms.

use vstd::prelude::*;
use crate::id::Id;
use chrono::NaiveDateTime;
use crate::models::{Room, RoomCapacity};

verus! {

/// A request to create a room.
#[derive(Clone, Copy, Debug, PartialEq, Eq, Structural)]
pub struct CreateRequest {
    pub data: CreateRequestData,
}

/// What a request to create a room says of the room.
#[derive(Clone, Copy, Debug, PartialEq, Eq, Structural)]
pub struct CreateRequestData {
    pub capacity: RoomCapacity,
}

/// What is said of a room in a response.
#[derive(Clone, Copy, Debug, PartialEq, Eq)]
pub struct CreateResponseData {
    pub capacity: RoomCapacity,
    pub created_at: NaiveDateTime,
}

/// A room, as a response reports it.
#[derive(Clone, Copy, Debug, PartialEq, Eq)]
pub struct CreateResponse {
    pub id: Id,
    pub data: CreateResponseData,
}

/// A request to read a room.
#[derive(Clone, Copy, Debug, PartialEq, Eq, Structural)]
pub struct ReadRequest {
    pub room_id: Id,
}

pub type ReadResponse = CreateResponse;

pub type DeleteRequest = ReadRequest;

pub type DeleteResponse = ReadResponse;

/// The rooms of a listing, in the order of the listing.
#[derive(Clone, Debug, PartialEq, Eq)]
pub struct ListResponse(pub Vec<CreateResponse>);

/// The report on one room.
pub open spec fn room_report(room: Room) -> CreateResponse {
    CreateResponse {
        id: room.id,
        data: CreateResponseData { capacity: room.capacity, created_at: room.created_at },
    }
}

impl CreateResponse {
    /// The report on `room`.
    pub fn new(room: &Room) -> (r: CreateResponse)
        ensures
            r == room_report(*room),
    {
        CreateResponse {
            id: room.id,
            data: CreateResponseData { capacity: room.capacity, created_at: room.created_at },
        }
    }
}

impl ListResponse {
    /// The reports on `rooms`, one for each room, in the same order.
    pub fn new(rooms: &[Room]) -> (r: ListResponse)
        ensures
            r.0@ == rooms@.map_values(|room: Room| room_report(room)),
    {
        let mut data: Vec<CreateResponse> = Vec::new();
        let mut i: usize = 0;
        while i < rooms.len()
            invariant
                i <= rooms.len(),
                data@ == rooms@.take(i as int).map_values(|room: Room| room_report(room)),
            decreases rooms.len() - i,
        {
            data.push(CreateResponse::new(&rooms[i]));
            proof {
                assert(rooms@.take(i + 1) =~= rooms@.take(i as int).push(rooms@[i as int]));
                assert(rooms@.take(i + 1).map_values(|room: Room| room_report(room)) =~= rooms@.take(
                    i as int,
                ).map_values(|room: Room| room_report(room)).push(room_report(rooms@[i as int])));
            }
            i += 1;
        }
        proof {
            assert(rooms@.take(rooms@.len() as int) =~= rooms@);
        }
        ListResponse(data)
    }
}

} // verus!
