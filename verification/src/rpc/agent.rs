//! The handlers for agents, as far as they decide what is announced.
//! Reading and writing the store is the caller's part: a handler here takes
//! what the store returned.

use vstd::prelude::*;
use crate::error::ParseError;
use crate::id::Id;
use crate::messages::agent::{
    CreateResponse, DeleteResponse, ListRequest, agent_gone, agent_report,
};
use crate::messages::query_parameters::{Expr, Filter, expr_of};
use crate::messages::track::{DeleteResponse as TrackDeleteResponse, track_gone};
use crate::messages::{Event, EventKind, Notification};
use crate::models::{Agent, RoomAgent, Track};
use crate::rpc::error::Error;
use crate::rpc::Outcome;

verus! {

/// The handlers for agents.
pub struct RpcImpl;

/// What the store removed together with an agent: the agent's memberships
/// and the agent's tracks.
#[derive(Clone, Debug, PartialEq, Eq)]
pub struct Removed {
    pub room_agents: Vec<RoomAgent>,
    pub tracks: Vec<Track>,
}

/// The announcement that `track` is gone, for the room of `room_agent`.
pub open spec fn track_deleted(room_agent: RoomAgent, track: Track) -> Notification {
    Notification::Event(
        EventKind::TrackDelete(Event { room_id: room_agent.room_id, payload: track_gone(track) }),
    )
}

/// The announcement that the agent of `room_agent` left its room.
pub open spec fn agent_deleted(room_agent: RoomAgent) -> Notification {
    Notification::Event(
        EventKind::AgentDelete(
            Event { room_id: room_agent.room_id, payload: agent_gone(room_agent) },
        ),
    )
}

/// The announcement that the agent of `room_agent` entered its room.
pub open spec fn agent_created(room_agent: RoomAgent) -> Notification {
    Notification::Event(
        EventKind::AgentCreate(
            Event { room_id: room_agent.room_id, payload: agent_report(room_agent) },
        ),
    )
}

/// What one room is told when an agent is deleted: first that each of the
/// agent's tracks is gone, in the order of `tracks`, then that the agent left.
pub open spec fn room_cascade(room_agent: RoomAgent, tracks: Seq<Track>) -> Seq<Notification> {
    tracks.map_values(|track: Track| track_deleted(room_agent, track)).push(
        agent_deleted(room_agent),
    )
}

/// What is announced when an agent is deleted: room by room in the order
/// of the memberships, each room as `room_cascade` says.
pub open spec fn cascade(room_agents: Seq<RoomAgent>, tracks: Seq<Track>) -> Seq<Notification>
    decreases room_agents.len(),
{
    if room_agents.len() == 0 {
        Seq::empty()
    } else {
        cascade(room_agents.drop_last(), tracks) + room_cascade(room_agents.last(), tracks)
    }
}

/// Deleting an agent of one room that owns two tracks announces the two
/// tracks, then the agent, and nothing else.
pub proof fn lemma_cascade_of_two_tracks(room_agent: RoomAgent, first: Track, second: Track)
    ensures
        cascade(seq![room_agent], seq![first, second]) == seq![
            track_deleted(room_agent, first),
            track_deleted(room_agent, second),
            agent_deleted(room_agent),
        ],
{
    let room_agents = seq![room_agent];
    let tracks = seq![first, second];
    assert(room_agents.drop_last() =~= Seq::<RoomAgent>::empty());
    assert(cascade(room_agents.drop_last(), tracks) =~= Seq::<Notification>::empty());
    assert(cascade(room_agents, tracks) =~= seq![
        track_deleted(room_agent, first),
        track_deleted(room_agent, second),
        agent_deleted(room_agent),
    ]);
}

/// Deleting an agent announces, to each of its rooms, each of its tracks
/// and the agent itself, and nothing more.
pub proof fn lemma_cascade_len(room_agents: Seq<RoomAgent>, tracks: Seq<Track>)
    ensures
        cascade(room_agents, tracks).len() == room_agents.len() * (tracks.len() + 1),
    decreases room_agents.len(),
{
    if room_agents.len() > 0 {
        lemma_cascade_len(room_agents.drop_last(), tracks);
        assert((room_agents.len() - 1) * (tracks.len() + 1) + (tracks.len() + 1)
            == room_agents.len() * (tracks.len() + 1)) by (nonlinear_arith);
    } else {
        assert(0 * (tracks.len() + 1) == 0);
    }
}

/// What a listing of agents is narrowed to by the filter text `fq`: to
/// nothing without a text, and to the agents of one room for a text that is
/// a single condition on the room. A text that is no expression is an
/// invalid parameter; any other expression is a bad request.
pub open spec fn list_filter_of(fq: Option<Seq<char>>) -> Result<Option<Id>, Error> {
    match fq {
        None => Ok(None),
        Some(text) => match expr_of(text) {
            None => Err(Error::InvalidParameters(ParseError::NoAlternativeMatched)),
            Some(Expr::Value(Filter::RoomId(id))) => Ok(Some(id)),
            Some(_) => Err(Error::BadRequest),
        },
    }
}

impl RpcImpl {
    /// The room that a listing of agents is narrowed to, if it is narrowed.
    pub fn list_filter(&self, req: &ListRequest) -> (r: Result<Option<Id>, Error>)
        ensures
            r == list_filter_of(
                match req.fq {
                    Some(text) => Some(text@),
                    None => None,
                },
            ),
    {
        match &req.fq {
            None => Ok(None),
            Some(fq) => match Expr::from_str(fq.as_str()) {
                Err(e) => Err(Error::InvalidParameters(e)),
                Ok(expr) => match expr {
                    Expr::Value(filter) => match filter {
                        Filter::RoomId(id) => Ok(Some(id)),
                        _ => Err(Error::BadRequest),
                    },
                    _ => Err(Error::BadRequest),
                },
            },
        }
    }

    /// The announcements for one room of a deleted agent, added to `out`.
    fn announce_room(out: &mut Vec<Notification>, room_agent: &RoomAgent, tracks: &Vec<Track>)
        ensures
            final(out)@ == old(out)@ + room_cascade(*room_agent, tracks@),
    {
        let ghost before = out@;
        let mut j: usize = 0;
        while j < tracks.len()
            invariant
                j <= tracks.len(),
                out@ == before + tracks@.take(j as int).map_values(
                    |track: Track| track_deleted(*room_agent, track),
                ),
            decreases tracks.len() - j,
        {
            let ghost so_far = out@;
            let payload = TrackDeleteResponse::new(&tracks[j]);
            let event = Event::new(room_agent.room_id, payload);
            let kind = EventKind::TrackDelete(event);
            out.push(Notification::Event(kind));
            proof {
                assert(tracks@.take(j + 1) =~= tracks@.take(j as int).push(tracks@[j as int]));
                assert(out@ =~= so_far.push(track_deleted(*room_agent, tracks@[j as int])));
                assert(out@ =~= before + tracks@.take(j + 1).map_values(
                    |track: Track| track_deleted(*room_agent, track),
                ));
            }
            j += 1;
        }
        let ghost so_far = out@;
        let payload = DeleteResponse::new(room_agent);
        let event = Event::new(room_agent.room_id, payload);
        out.push(Notification::Event(EventKind::AgentDelete(event)));
        proof {
            assert(tracks@.take(tracks@.len() as int) =~= tracks@);
            assert(out@ =~= so_far.push(agent_deleted(*room_agent)));
            assert(out@ =~= before + room_cascade(*room_agent, tracks@));
        }
    }

    /// What follows from deleting `agent`. `removed` is the outcome of the
    /// transaction that deleted the agent with its memberships and tracks.
    /// Where the transaction failed, nothing is announced and the failure is
    /// the response. Where it succeeded, the rooms are told as `cascade`
    /// says, and the response is the deleted agent.
    pub fn delete(&self, agent: Agent, removed: Result<Removed, Error>) -> (r: Outcome<Agent>)
        ensures
            match removed {
                Ok(rows) => {
                    &&& r.notifications@ == cascade(rows.room_agents@, rows.tracks@)
                    &&& r.response == Ok::<Agent, Error>(agent)
                },
                Err(e) => {
                    &&& r.notifications@.len() == 0
                    &&& r.response == Err::<Agent, Error>(e)
                },
            },
    {
        let rows = match removed {
            Ok(rows) => rows,
            Err(e) => {
                return Outcome { notifications: Vec::new(), response: Err(e) };
            },
        };
        let mut notifications: Vec<Notification> = Vec::new();
        let mut i: usize = 0;
        proof {
            assert(rows.room_agents@.take(0) =~= Seq::<RoomAgent>::empty());
            assert(notifications@ =~= Seq::<Notification>::empty());
        }
        while i < rows.room_agents.len()
            invariant
                i <= rows.room_agents.len(),
                notifications@ == cascade(rows.room_agents@.take(i as int), rows.tracks@),
            decreases rows.room_agents.len() - i,
        {
            Self::announce_room(&mut notifications, &rows.room_agents[i], &rows.tracks);
            proof {
                let next = rows.room_agents@.take(i + 1);
                assert(next.drop_last() =~= rows.room_agents@.take(i as int));
                assert(next.last() == rows.room_agents@[i as int]);
            }
            i += 1;
        }
        proof {
            assert(rows.room_agents@.take(rows.room_agents@.len() as int) =~= rows.room_agents@);
        }
        Outcome { notifications, response: Ok(agent) }
    }

    /// What follows from letting an agent into a room. `joined` is the
    /// membership that the store created, or the store's failure. A new
    /// membership is announced to its room and reported in the response; a
    /// failure is the response, and nothing is announced.
    pub fn join_room(&self, joined: Result<RoomAgent, Error>) -> (r: Outcome<CreateResponse>)
        ensures
            match joined {
                Ok(room_agent) => {
                    &&& r.notifications@ == seq![agent_created(room_agent)]
                    &&& r.response == Ok::<CreateResponse, Error>(agent_report(room_agent))
                },
                Err(e) => {
                    &&& r.notifications@.len() == 0
                    &&& r.response == Err::<CreateResponse, Error>(e)
                },
            },
    {
        let room_agent = match joined {
            Ok(room_agent) => room_agent,
            Err(e) => {
                return Outcome { notifications: Vec::new(), response: Err(e) };
            },
        };
        let resp = CreateResponse::new(&room_agent);
        let event = Event::new(room_agent.room_id, CreateResponse::new(&room_agent));
        let mut notifications: Vec<Notification> = Vec::new();
        notifications.push(Notification::Event(EventKind::AgentCreate(event)));
        proof {
            assert(notifications@ =~= seq![agent_created(room_agent)]);
        }
        Outcome { notifications, response: Ok(resp) }
    }

    /// What follows from an agent's leaving a room. `left` is the membership
    /// that the store removed, or the store's failure. An ended membership
    /// is announced to its room and reported in the response; a failure is
    /// the response, and nothing is announced.
    pub fn leave_room(&self, left: Result<RoomAgent, Error>) -> (r: Outcome<DeleteResponse>)
        ensures
            match left {
                Ok(room_agent) => {
                    &&& r.notifications@ == seq![agent_deleted(room_agent)]
                    &&& r.response == Ok::<DeleteResponse, Error>(agent_gone(room_agent))
                },
                Err(e) => {
                    &&& r.notifications@.len() == 0
                    &&& r.response == Err::<DeleteResponse, Error>(e)
                },
            },
    {
        let room_agent = match left {
            Ok(room_agent) => room_agent,
            Err(e) => {
                return Outcome { notifications: Vec::new(), response: Err(e) };
            },
        };
        let resp = DeleteResponse::new(&room_agent);
        let event = Event::new(room_agent.room_id, DeleteResponse::new(&room_agent));
        let mut notifications: Vec<Notification> = Vec::new();
        notifications.push(Notification::Event(EventKind::AgentDelete(event)));
        proof {
            assert(notifications@ =~= seq![agent_deleted(room_agent)]);
        }
        Outcome { notifications, response: Ok(resp) }
    }
}

} // verus!
