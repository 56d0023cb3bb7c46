//! The messages of the direct form, in which the text inside an envelope
//! is itself a tagged message and every request carries a correlation
//! identifier that its response repeats.

use vstd::prelude::*;
use crate::id::id_text;
use crate::models::{NewRoom, Room};

verus! {

pub type RoomsCreateRequestPayload = NewRoom;

pub type RoomsCreateResponseData = RoomsCreateRequestPayload;

/// A room in a response: its identifier as text, and what is said of it.
#[derive(Clone, Debug, PartialEq, Eq)]
pub struct RoomsCreateResponsePayload {
    pub id: String,
    pub data: RoomsCreateResponseData,
}

pub type RoomsReadResponsePayload = RoomsCreateResponsePayload;

pub type RoomsReadResponseData = RoomsCreateResponseData;

pub type RoomsListResponsePayload = RoomsReadResponsePayload;

pub type RoomsListResponseData = RoomsReadResponseData;

/// A request to create a room.
#[derive(Clone, Debug, PartialEq, Eq)]
pub struct RoomsCreateRequest {
    pub payload: RoomsCreateRequestPayload,
    pub cid: String,
}

/// The response to a request to create a room.
#[derive(Clone, Debug, PartialEq, Eq)]
pub struct RoomsCreateResponse {
    pub payload: RoomsCreateResponsePayload,
    pub cid: String,
}

/// A request to read a room.
#[derive(Clone, Debug, PartialEq, Eq)]
pub struct RoomsReadRequest {
    pub cid: String,
}

/// The response to a request to read a room.
#[derive(Clone, Debug, PartialEq, Eq)]
pub struct RoomsReadResponse {
    pub payload: RoomsReadResponsePayload,
    pub cid: String,
}

pub type RoomsUpdateRequest = RoomsCreateRequest;

pub type RoomsUpdateResponse = RoomsCreateResponse;

pub type RoomsDeleteRequest = RoomsReadRequest;

pub type RoomsDeleteResponse = RoomsReadResponse;

/// A request to list the rooms.
#[derive(Clone, Debug, PartialEq, Eq)]
pub struct RoomsListRequest {
    pub cid: String,
}

/// The response to a request to list the rooms.
#[derive(Clone, Debug, PartialEq, Eq)]
pub struct RoomsListResponse {
    pub payload: Vec<RoomsListResponsePayload>,
    pub cid: String,
}

/// A message of the direct form.
#[derive(Clone, Debug, PartialEq, Eq)]
pub enum Message {
    Ping,
    Pong,
    RoomsCreateRequest(RoomsCreateRequest),
    RoomsCreateResponse(RoomsCreateResponse),
    RoomsReadRequest(RoomsReadRequest),
    RoomsReadResponse(RoomsReadResponse),
    RoomsUpdateRequest(RoomsUpdateRequest),
    RoomsUpdateResponse(RoomsUpdateResponse),
    RoomsDeleteRequest(RoomsDeleteRequest),
    RoomsDeleteResponse(RoomsDeleteResponse),
    RoomsListRequest(RoomsListRequest),
    RoomsListResponse(RoomsListResponse),
}

/// Whether `payload` reports `room`: the identifier in canonical text, the
/// room's label, the room's capacity.
pub open spec fn reports_room(payload: RoomsCreateResponsePayload, room: Room) -> bool {
    &&& payload.id@ == id_text(room.id.value)
    &&& payload.data.label matches Some(label) && label@ == room.label@
    &&& payload.data.capacity == room.capacity
}

/// The tag that tells the messages apart on the wire.
pub open spec fn message_tag(message: Message) -> Seq<char> {
    match message {
        Message::Ping => "Ping"@,
        Message::Pong => "Pong"@,
        Message::RoomsCreateRequest(_) => "RoomsCreateRequest"@,
        Message::RoomsCreateResponse(_) => "RoomsCreateResponse"@,
        Message::RoomsReadRequest(_) => "RoomsReadRequest"@,
        Message::RoomsReadResponse(_) => "RoomsReadResponse"@,
        Message::RoomsUpdateRequest(_) => "RoomsUpdateRequest"@,
        Message::RoomsUpdateResponse(_) => "RoomsUpdateResponse"@,
        Message::RoomsDeleteRequest(_) => "RoomsDeleteRequest"@,
        Message::RoomsDeleteResponse(_) => "RoomsDeleteResponse"@,
        Message::RoomsListRequest(_) => "RoomsListRequest"@,
        Message::RoomsListResponse(_) => "RoomsListResponse"@,
    }
}

/// The report on `room`.
fn report(room: &Room) -> (r: RoomsCreateResponsePayload)
    ensures
        reports_room(r, *room),
{
    RoomsCreateResponsePayload {
        id: room.id.to_string(),
        data: RoomsCreateResponseData {
            label: Some(room.label.clone()),
            capacity: room.capacity,
        },
    }
}

impl RoomsCreateRequest {
    /// The response that reports `room` under the request's correlation
    /// identifier.
    pub fn build_response(self, room: &Room) -> (r: RoomsCreateResponse)
        ensures
            r.cid == self.cid,
            reports_room(r.payload, *room),
    {
        RoomsCreateResponse { payload: report(room), cid: self.cid }
    }
}

impl RoomsReadRequest {
    /// The response that reports `room` under the request's correlation
    /// identifier.
    pub fn build_response(self, room: &Room) -> (r: RoomsReadResponse)
        ensures
            r.cid == self.cid,
            reports_room(r.payload, *room),
    {
        RoomsReadResponse { payload: report(room), cid: self.cid }
    }
}

impl RoomsListRequest {
    /// The response that reports `rooms`, one report for each room in the
    /// same order, under the request's correlation identifier.
    pub fn build_response(self, rooms: &Vec<Room>) -> (r: RoomsListResponse)
        ensures
            r.cid == self.cid,
            r.payload@.len() == rooms@.len(),
            forall|i: int|
                0 <= i < rooms@.len() ==> reports_room(#[trigger] r.payload@[i], rooms@[i]),
    {
        let mut payload: Vec<RoomsListResponsePayload> = Vec::new();
        let mut i: usize = 0;
        while i < rooms.len()
            invariant
                i <= rooms.len(),
                payload@.len() == i,
                forall|j: int| 0 <= j < i ==> reports_room(#[trigger] payload@[j], rooms@[j]),
            decreases rooms.len() - i,
        {
            payload.push(report(&rooms[i]));
            i += 1;
        }
        RoomsListResponse { payload, cid: self.cid }
    }
}

impl Message {
    /// The tag that tells the message apart on the wire.
    pub fn tag(&self) -> (r: &'static str)
        ensures
            r@ == message_tag(*self),
    {
        match self {
            Message::Ping => "Ping",
            Message::Pong => "Pong",
            Message::RoomsCreateRequest(_) => "RoomsCreateRequest",
            Message::RoomsCreateResponse(_) => "RoomsCreateResponse",
            Message::RoomsReadRequest(_) => "RoomsReadRequest",
            Message::RoomsReadResponse(_) => "RoomsReadResponse",
            Message::RoomsUpdateRequest(_) => "RoomsUpdateRequest",
            Message::RoomsUpdateResponse(_) => "RoomsUpdateResponse",
            Message::RoomsDeleteRequest(_) => "RoomsDeleteRequest",
            Message::RoomsDeleteResponse(_) => "RoomsDeleteResponse",
            Message::RoomsListRequest(_) => "RoomsListRequest",
            Message::RoomsListResponse(_) => "RoomsListResponse",
        }
    }
}

} // verus!
