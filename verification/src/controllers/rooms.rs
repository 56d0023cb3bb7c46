//! The controller for rooms in the direct form. The store's work lies
//! between two steps: `call` says what a message asks of the store, and the
//! other functions say what is published once the store has done it.

use vstd::prelude::*;
use crate::controllers::Response;
use crate::id::Id;
use crate::messages::direct::{
    Message, RoomsCreateRequest, RoomsDeleteRequest, RoomsListRequest, RoomsReadRequest,
    RoomsUpdateRequest, reports_room,
};
use crate::models::Room;
use crate::rpc::error::Error;
use crate::topic::agent::{AgentTopic, agent_reversed};
use crate::topic::{Reversible, Topic};
use crate::QoS;

verus! {

/// The controller for rooms.
pub struct Controller;

/// What a request asks of the store.
#[derive(Clone, Debug, PartialEq, Eq)]
pub enum Work {
    /// Store a new room.
    Create(RoomsCreateRequest),
    /// Load every room.
    List(RoomsListRequest),
    /// Find the room.
    Read(Id, RoomsReadRequest),
    /// Find the room and change it.
    Update(Id, RoomsUpdateRequest),
    /// Find the room and remove it.
    Delete(Id, RoomsDeleteRequest),
}

/// Whether `msg` is a request about one room.
pub open spec fn is_room_request(msg: Message) -> bool {
    msg is RoomsReadRequest || msg is RoomsUpdateRequest || msg is RoomsDeleteRequest
}

/// What `msg` asks of the store where the address names the room `room_id`
/// or no room. Without a room only creating and listing are served.
pub open spec fn work_of(room_id: Option<Id>, msg: Message) -> Result<Work, Error> {
    match room_id {
        Some(id) => match msg {
            Message::RoomsReadRequest(req) => Ok(Work::Read(id, req)),
            Message::RoomsUpdateRequest(req) => Ok(Work::Update(id, req)),
            Message::RoomsDeleteRequest(req) => Ok(Work::Delete(id, req)),
            _ => Err(Error::BadRequest),
        },
        None => match msg {
            Message::RoomsCreateRequest(req) => Ok(Work::Create(req)),
            Message::RoomsListRequest(req) => Ok(Work::List(req)),
            _ => Err(Error::BadRequest),
        },
    }
}

/// Whether `response` answers a request that came on `topic`: it goes out
/// on the reverse of `topic`, at least once.
pub open spec fn answers(response: Response, topic: AgentTopic) -> bool {
    response.topic == Topic::Agent(agent_reversed(topic)) && response.qos == QoS::Level1
}

impl Controller {
    /// What `msg` asks of the store. Where the address names a room, the
    /// message is a request about one room.
    pub fn call(room_id: Option<Id>, msg: Message) -> (r: Result<Work, Error>)
        requires
            room_id is Some ==> is_room_request(msg),
        ensures
            r == work_of(room_id, msg),
    {
        match room_id {
            Some(id) => match msg {
                Message::RoomsReadRequest(req) => Ok(Work::Read(id, req)),
                Message::RoomsUpdateRequest(req) => Ok(Work::Update(id, req)),
                Message::RoomsDeleteRequest(req) => Ok(Work::Delete(id, req)),
                _ => unreached(),
            },
            None => match msg {
                Message::RoomsCreateRequest(req) => Ok(Work::Create(req)),
                Message::RoomsListRequest(req) => Ok(Work::List(req)),
                _ => Err(Error::BadRequest),
            },
        }
    }

    /// The topic and the quality of service of an answer, with `payload`.
    fn respond(topic: &AgentTopic, payload: Message) -> (r: Vec<Response>)
        ensures
            r@.len() == 1,
            answers(r@[0], *topic),
            r@[0].payload == payload,
    {
        let mut r: Vec<Response> = Vec::new();
        r.push(Response { topic: Topic::Agent(topic.get_reverse()), qos: QoS::Level1, payload });
        r
    }

    /// What is published once `room` is stored: one response, which
    /// reports the room under the request's correlation identifier.
    pub fn create(topic: &AgentTopic, req: RoomsCreateRequest, room: &Room) -> (r: Vec<Response>)
        ensures
            r@.len() == 1,
            answers(r@[0], *topic),
            r@[0].payload matches Message::RoomsCreateResponse(resp) && resp.cid == req.cid
                && reports_room(resp.payload, *room),
    {
        Self::respond(topic, Message::RoomsCreateResponse(req.build_response(room)))
    }

    /// What is published once `room` is found: one response, which reports
    /// the room under the request's correlation identifier.
    pub fn read(topic: &AgentTopic, req: RoomsReadRequest, room: &Room) -> (r: Vec<Response>)
        ensures
            r@.len() == 1,
            answers(r@[0], *topic),
            r@[0].payload matches Message::RoomsReadResponse(resp) && resp.cid == req.cid
                && reports_room(resp.payload, *room),
    {
        Self::respond(topic, Message::RoomsReadResponse(req.build_response(room)))
    }

    /// What is published once the room is changed into `room`: one
    /// response, which reports the room as it is now.
    pub fn update(topic: &AgentTopic, req: RoomsUpdateRequest, room: &Room) -> (r: Vec<Response>)
        ensures
            r@.len() == 1,
            answers(r@[0], *topic),
            r@[0].payload matches Message::RoomsUpdateResponse(resp) && resp.cid == req.cid
                && reports_room(resp.payload, *room),
    {
        Self::respond(topic, Message::RoomsUpdateResponse(req.build_response(room)))
    }

    /// What is published once `room` is removed: one response, which
    /// reports the room as it was.
    pub fn delete(topic: &AgentTopic, req: RoomsDeleteRequest, room: &Room) -> (r: Vec<Response>)
        ensures
            r@.len() == 1,
            answers(r@[0], *topic),
            r@[0].payload matches Message::RoomsDeleteResponse(resp) && resp.cid == req.cid
                && reports_room(resp.payload, *room),
    {
        Self::respond(topic, Message::RoomsDeleteResponse(req.build_response(room)))
    }

    /// What is published once the rooms are loaded: one response, which
    /// reports every room, in the order of `rooms`.
    pub fn list(topic: &AgentTopic, req: RoomsListRequest, rooms: &Vec<Room>) -> (r: Vec<Response>)
        ensures
            r@.len() == 1,
            answers(r@[0], *topic),
            r@[0].payload matches Message::RoomsListResponse(resp) && resp.cid == req.cid
                && resp.payload@.len() == rooms@.len() && forall|i: int|
                0 <= i < rooms@.len() ==> reports_room(#[trigger] resp.payload@[i], rooms@[i]),
    {
        Self::respond(topic, Message::RoomsListResponse(req.build_response(rooms)))
    }
}

} // verus!
