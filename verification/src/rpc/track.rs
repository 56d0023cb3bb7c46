//! The handlers for tracks, as far as they decide what is announced.

use vstd::prelude::*;
use crate::id::Id;
use crate::error::ParseError;
use crate::messages::query_parameters::{Expr, Filter, expr_of};
use crate::messages::track::{
    CreateResponse, DeleteResponse, ListRequest, track_gone, track_report,
};
use crate::messages::{Event, EventKind, Notification};
use crate::models::Track;
use crate::rpc::error::Error;
use crate::rpc::Outcome;

verus! {

/// The handlers for tracks.
pub struct RpcImpl;

/// The announcement to the room `room_id` that `track` is new.
pub open spec fn track_created(room_id: Id, track: Track) -> Notification {
    Notification::Event(EventKind::TrackCreate(Event { room_id, payload: track_report(track) }))
}

/// The announcement to the room `room_id` that `track` is gone.
pub open spec fn track_deleted(room_id: Id, track: Track) -> Notification {
    Notification::Event(EventKind::TrackDelete(Event { room_id, payload: track_gone(track) }))
}

/// Whether a listing of tracks can be narrowed by `filter`: by room and by
/// owner it can.
pub open spec fn is_track_filter(filter: Filter) -> bool {
    filter is RoomId || filter is OwnerId
}

/// The conditions that the expression `expr` puts on a listing of tracks:
/// one condition, or two joined by `AND`. No other expression is served.
pub open spec fn track_filters(expr: Expr) -> Option<Seq<Filter>> {
    match expr {
        Expr::Value(filter) => if is_track_filter(filter) {
            Some(seq![filter])
        } else {
            None
        },
        Expr::And(lhs, rhs) => match (*lhs, *rhs) {
            (Expr::Value(first), Expr::Value(second)) => if is_track_filter(first)
                && is_track_filter(second) {
                Some(seq![first, second])
            } else {
                None
            },
            _ => None,
        },
        _ => None,
    }
}

/// The conditions that the filter text `fq` puts on a listing of tracks:
/// none without a text. A text that is no expression is an invalid
/// parameter; an expression that is not served is a bad request.
pub open spec fn list_filter_of(fq: Option<Seq<char>>) -> Result<Seq<Filter>, Error> {
    match fq {
        None => Ok(Seq::empty()),
        Some(text) => match expr_of(text) {
            None => Err(Error::InvalidParameters(ParseError::NoAlternativeMatched)),
            Some(expr) => match track_filters(expr) {
                Some(filters) => Ok(filters),
                None => Err(Error::BadRequest),
            },
        },
    }
}

/// The condition `filter`, where a listing of tracks can be narrowed by it.
fn track_filter(filter: Filter) -> (r: Option<Filter>)
    ensures
        r == if is_track_filter(filter) {
            Some(filter)
        } else {
            None
        },
{
    match filter {
        Filter::RoomId(_) => Some(filter),
        Filter::OwnerId(_) => Some(filter),
        Filter::HolderId(_) => None,
    }
}

impl RpcImpl {
    /// The conditions that a listing of tracks is narrowed by, all of which
    /// a listed track meets.
    pub fn list_filter(&self, req: &ListRequest) -> (r: Result<Vec<Filter>, Error>)
        ensures
            match r {
                Ok(filters) => list_filter_of(
                    match req.fq {
                        Some(text) => Some(text@),
                        None => None,
                    },
                ) == Ok::<Seq<Filter>, Error>(filters@),
                Err(e) => list_filter_of(
                    match req.fq {
                        Some(text) => Some(text@),
                        None => None,
                    },
                ) == Err::<Seq<Filter>, Error>(e),
            },
    {
        let fq = match &req.fq {
            None => {
                return Ok(Vec::new());
            },
            Some(fq) => fq,
        };
        let expr = match Expr::from_str(fq.as_str()) {
            Err(e) => {
                return Err(Error::InvalidParameters(e));
            },
            Ok(expr) => expr,
        };
        let mut filters: Vec<Filter> = Vec::new();
        match expr {
            Expr::Value(filter) => match track_filter(filter) {
                Some(filter) => {
                    filters.push(filter);
                },
                None => {
                    return Err(Error::BadRequest);
                },
            },
            Expr::And(lhs, rhs) => match (*lhs, *rhs) {
                (Expr::Value(first), Expr::Value(second)) => match (
                    track_filter(first),
                    track_filter(second),
                ) {
                    (Some(first), Some(second)) => {
                        filters.push(first);
                        filters.push(second);
                    },
                    _ => {
                        return Err(Error::BadRequest);
                    },
                },
                _ => {
                    return Err(Error::BadRequest);
                },
            },
            _ => {
                return Err(Error::BadRequest);
            },
        }
        proof {
            assert(filters@ =~= track_filters(expr)->0);
        }
        Ok(filters)
    }

    /// What follows from creating `track`. `room_ids` are the rooms of the
    /// track's owner, or the store's failure to list them. Each room is told
    /// of the track, in the order of `room_ids`, and the response reports the
    /// track; after a failure nothing is announced and the failure is the
    /// response.
    pub fn create(&self, track: &Track, room_ids: Result<Vec<Id>, Error>) -> (r: Outcome<
        CreateResponse,
    >)
        ensures
            match room_ids {
                Ok(ids) => {
                    &&& r.notifications@ == ids@.map_values(
                        |id: Id| track_created(id, *track),
                    )
                    &&& r.response == Ok::<CreateResponse, Error>(track_report(*track))
                },
                Err(e) => {
                    &&& r.notifications@.len() == 0
                    &&& r.response == Err::<CreateResponse, Error>(e)
                },
            },
    {
        let ids = match room_ids {
            Ok(ids) => ids,
            Err(e) => {
                return Outcome { notifications: Vec::new(), response: Err(e) };
            },
        };
        let resp = CreateResponse::new(track);
        let mut notifications: Vec<Notification> = Vec::new();
        let mut i: usize = 0;
        proof {
            assert(notifications@ =~= ids@.take(0).map_values(
                |id: Id| track_created(id, *track),
            ));
        }
        while i < ids.len()
            invariant
                i <= ids.len(),
                resp == track_report(*track),
                notifications@ == ids@.take(i as int).map_values(
                    |id: Id| track_created(id, *track),
                ),
            decreases ids.len() - i,
        {
            let ghost so_far = notifications@;
            let event = Event::new(ids[i], resp.copy());
            notifications.push(Notification::Event(EventKind::TrackCreate(event)));
            proof {
                assert(ids@.take(i + 1) =~= ids@.take(i as int).push(ids@[i as int]));
                assert(notifications@ =~= so_far.push(
                    track_created(ids@[i as int], *track),
                ));
                assert(notifications@ =~= ids@.take(i + 1).map_values(
                    |id: Id| track_created(id, *track),
                ));
            }
            i += 1;
        }
        proof {
            assert(ids@.take(ids@.len() as int) =~= ids@);
        }
        Outcome { notifications, response: Ok(resp) }
    }

    /// What follows from deleting `track`, in the same way as `create`.
    pub fn delete(&self, track: &Track, room_ids: Result<Vec<Id>, Error>) -> (r: Outcome<
        DeleteResponse,
    >)
        ensures
            match room_ids {
                Ok(ids) => {
                    &&& r.notifications@ == ids@.map_values(
                        |id: Id| track_deleted(id, *track),
                    )
                    &&& r.response == Ok::<DeleteResponse, Error>(track_gone(*track))
                },
                Err(e) => {
                    &&& r.notifications@.len() == 0
                    &&& r.response == Err::<DeleteResponse, Error>(e)
                },
            },
    {
        let ids = match room_ids {
            Ok(ids) => ids,
            Err(e) => {
                return Outcome { notifications: Vec::new(), response: Err(e) };
            },
        };
        let resp = DeleteResponse::new(track);
        let mut notifications: Vec<Notification> = Vec::new();
        let mut i: usize = 0;
        proof {
            assert(notifications@ =~= ids@.take(0).map_values(
                |id: Id| track_deleted(id, *track),
            ));
        }
        while i < ids.len()
            invariant
                i <= ids.len(),
                resp == track_gone(*track),
                notifications@ == ids@.take(i as int).map_values(
                    |id: Id| track_deleted(id, *track),
                ),
            decreases ids.len() - i,
        {
            let ghost so_far = notifications@;
            let event = Event::new(ids[i], resp.copy());
            notifications.push(Notification::Event(EventKind::TrackDelete(event)));
            proof {
                assert(ids@.take(i + 1) =~= ids@.take(i as int).push(ids@[i as int]));
                assert(notifications@ =~= so_far.push(
                    track_deleted(ids@[i as int], *track),
                ));
                assert(notifications@ =~= ids@.take(i + 1).map_values(
                    |id: Id| track_deleted(id, *track),
                ));
            }
            i += 1;
        }
        proof {
            assert(ids@.take(ids@.len() as int) =~= ids@);
        }
        Outcome { notifications, response: Ok(resp) }
    }
}

} // verus!
