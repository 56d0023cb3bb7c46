//! The dispatch table: from a method name to the handler that serves it.

use vstd::prelude::*;
use crate::messages::{EnvelopeSubject, Notification};
use crate::rpc::error::{Error, RpcError, METHOD_NOT_FOUND, error_code, error_text};
use crate::text::{chars_of, is_text};

pub mod agent;
pub mod error;
pub mod event;
pub mod subscription;
pub mod track;
pub mod webrtc;

verus! {

/// What a handler knows of the call beside its parameters: who asked.
#[derive(Clone, Copy, Debug, PartialEq, Eq, Structural)]
pub struct Meta {
    pub subject: EnvelopeSubject,
}

/// What a handler leaves behind: the notifications to publish, in order,
/// and after them the response to the caller.
#[derive(Debug)]
pub struct Outcome<T> {
    pub notifications: Vec<Notification>,
    pub response: Result<T, Error>,
}

/// The handlers.
#[derive(Clone, Copy, Debug, PartialEq, Eq, Structural)]
pub enum MethodKind {
    Ping,
    RoomCreate,
    RoomRead,
    RoomUpdate,
    RoomDelete,
    RoomList,
    AgentCreate,
    AgentRead,
    AgentUpdate,
    AgentDelete,
    AgentList,
    AgentJoinRoom,
    AgentLeaveRoom,
    TrackCreate,
    TrackDelete,
    TrackRegister,
    TrackUnregister,
    TrackList,
    WebrtcOffer,
    WebrtcAnswer,
    WebrtcCandidate,
    SubscriptionCreate,
}

/// The name under which a handler is reached.
pub open spec fn method_text(kind: MethodKind) -> Seq<char> {
    match kind {
        MethodKind::Ping => "ping"@,
        MethodKind::RoomCreate => "room.create"@,
        MethodKind::RoomRead => "room.read"@,
        MethodKind::RoomUpdate => "room.update"@,
        MethodKind::RoomDelete => "room.delete"@,
        MethodKind::RoomList => "room.list"@,
        MethodKind::AgentCreate => "agent.create"@,
        MethodKind::AgentRead => "agent.read"@,
        MethodKind::AgentUpdate => "agent.update"@,
        MethodKind::AgentDelete => "agent.delete"@,
        MethodKind::AgentList => "agent.list"@,
        MethodKind::AgentJoinRoom => "agent.join_room"@,
        MethodKind::AgentLeaveRoom => "agent.leave_room"@,
        MethodKind::TrackCreate => "track.create"@,
        MethodKind::TrackDelete => "track.delete"@,
        MethodKind::TrackRegister => "track.register"@,
        MethodKind::TrackUnregister => "track.unregister"@,
        MethodKind::TrackList => "track.list"@,
        MethodKind::WebrtcOffer => "webrtc.offer"@,
        MethodKind::WebrtcAnswer => "webrtc.answer"@,
        MethodKind::WebrtcCandidate => "webrtc.candidate"@,
        MethodKind::SubscriptionCreate => "subscription.create"@,
    }
}

/// Whether the dispatch table holds the name `name`.
pub open spec fn is_method(name: Seq<char>) -> bool {
    exists|kind: MethodKind| #[trigger] method_text(kind) == name
}

/// The handler that the dispatch table holds for `name`, if it holds one.
pub open spec fn method_of(name: Seq<char>) -> Option<MethodKind> {
    if is_method(name) {
        Some(choose|kind: MethodKind| #[trigger] method_text(kind) == name)
    } else {
        None
    }
}

/// No two handlers share a name: names of one length differ in the first
/// or in the seventh character.
pub proof fn lemma_method_names_differ(a: MethodKind, b: MethodKind)
    requires
        method_text(a) == method_text(b),
    ensures
        a == b,
{
    let s = method_text(a);
    let t = method_text(b);
    assert(s.len() == t.len());
    assert(s[0] == t[0]);
    assert(s[6] == t[6]);
    assert("ping"@.len() == 4 && "ping"@[0] == 'p') by {
        reveal_strlit("ping");
    }
    assert("room.create"@.len() == 11 && "room.create"@[0] == 'r' && "room.create"@[6] == 'r') by {
        reveal_strlit("room.create");
    }
    assert("room.read"@.len() == 9 && "room.read"@[0] == 'r' && "room.read"@[6] == 'e') by {
        reveal_strlit("room.read");
    }
    assert("room.update"@.len() == 11 && "room.update"@[0] == 'r' && "room.update"@[6] == 'p') by {
        reveal_strlit("room.update");
    }
    assert("room.delete"@.len() == 11 && "room.delete"@[0] == 'r' && "room.delete"@[6] == 'e') by {
        reveal_strlit("room.delete");
    }
    assert("room.list"@.len() == 9 && "room.list"@[0] == 'r' && "room.list"@[6] == 'i') by {
        reveal_strlit("room.list");
    }
    assert("agent.create"@.len() == 12 && "agent.create"@[0] == 'a' && "agent.create"@[6] == 'c') by {
        reveal_strlit("agent.create");
    }
    assert("agent.read"@.len() == 10 && "agent.read"@[0] == 'a' && "agent.read"@[6] == 'r') by {
        reveal_strlit("agent.read");
    }
    assert("agent.update"@.len() == 12 && "agent.update"@[0] == 'a' && "agent.update"@[6] == 'u') by {
        reveal_strlit("agent.update");
    }
    assert("agent.delete"@.len() == 12 && "agent.delete"@[0] == 'a' && "agent.delete"@[6] == 'd') by {
        reveal_strlit("agent.delete");
    }
    assert("agent.list"@.len() == 10 && "agent.list"@[0] == 'a' && "agent.list"@[6] == 'l') by {
        reveal_strlit("agent.list");
    }
    assert("agent.join_room"@.len() == 15 && "agent.join_room"@[0] == 'a' && "agent.join_room"@[6] == 'j') by {
        reveal_strlit("agent.join_room");
    }
    assert("agent.leave_room"@.len() == 16 && "agent.leave_room"@[0] == 'a' && "agent.leave_room"@[6] == 'l') by {
        reveal_strlit("agent.leave_room");
    }
    assert("track.create"@.len() == 12 && "track.create"@[0] == 't' && "track.create"@[6] == 'c') by {
        reveal_strlit("track.create");
    }
    assert("track.delete"@.len() == 12 && "track.delete"@[0] == 't' && "track.delete"@[6] == 'd') by {
        reveal_strlit("track.delete");
    }
    assert("track.register"@.len() == 14 && "track.register"@[0] == 't' && "track.register"@[6] == 'r') by {
        reveal_strlit("track.register");
    }
    assert("track.unregister"@.len() == 16 && "track.unregister"@[0] == 't' && "track.unregister"@[6] == 'u') by {
        reveal_strlit("track.unregister");
    }
    assert("track.list"@.len() == 10 && "track.list"@[0] == 't' && "track.list"@[6] == 'l') by {
        reveal_strlit("track.list");
    }
    assert("webrtc.offer"@.len() == 12 && "webrtc.offer"@[0] == 'w' && "webrtc.offer"@[6] == '.') by {
        reveal_strlit("webrtc.offer");
    }
    assert("webrtc.answer"@.len() == 13 && "webrtc.answer"@[0] == 'w' && "webrtc.answer"@[6] == '.') by {
        reveal_strlit("webrtc.answer");
    }
    assert("webrtc.candidate"@.len() == 16 && "webrtc.candidate"@[0] == 'w' && "webrtc.candidate"@[6] == '.') by {
        reveal_strlit("webrtc.candidate");
    }
    assert("subscription.create"@.len() == 19 && "subscription.create"@[0] == 's' && "subscription.create"@[6] == 'i') by {
        reveal_strlit("subscription.create");
    }
}

/// The dispatch table holds each handler under its own name, and holds
/// nothing under a name that is no handler's.
pub proof fn lemma_method_of(name: Seq<char>)
    ensures
        forall|kind: MethodKind| method_text(kind) == name ==> method_of(name) == Some(kind),
        (forall|kind: MethodKind| method_text(kind) != name) ==> method_of(name) is None,
{
    assert forall|kind: MethodKind| method_text(kind) == name implies method_of(name) == Some(
        kind,
    ) by {
        let chosen = choose|k: MethodKind| #[trigger] method_text(k) == name;
        lemma_method_names_differ(chosen, kind);
    }
}

/// Looking up a handler's name finds that handler.
pub proof fn lemma_lookup_own_name(kind: MethodKind)
    ensures
        method_of(method_text(kind)) == Some(kind),
{
    lemma_method_of(method_text(kind));
}

impl MethodKind {
    /// The name under which the handler is reached.
    pub fn name(&self) -> (r: &'static str)
        ensures
            r@ == method_text(*self),
    {
        match self {
            MethodKind::Ping => "ping",
            MethodKind::RoomCreate => "room.create",
            MethodKind::RoomRead => "room.read",
            MethodKind::RoomUpdate => "room.update",
            MethodKind::RoomDelete => "room.delete",
            MethodKind::RoomList => "room.list",
            MethodKind::AgentCreate => "agent.create",
            MethodKind::AgentRead => "agent.read",
            MethodKind::AgentUpdate => "agent.update",
            MethodKind::AgentDelete => "agent.delete",
            MethodKind::AgentList => "agent.list",
            MethodKind::AgentJoinRoom => "agent.join_room",
            MethodKind::AgentLeaveRoom => "agent.leave_room",
            MethodKind::TrackCreate => "track.create",
            MethodKind::TrackDelete => "track.delete",
            MethodKind::TrackRegister => "track.register",
            MethodKind::TrackUnregister => "track.unregister",
            MethodKind::TrackList => "track.list",
            MethodKind::WebrtcOffer => "webrtc.offer",
            MethodKind::WebrtcAnswer => "webrtc.answer",
            MethodKind::WebrtcCandidate => "webrtc.candidate",
            MethodKind::SubscriptionCreate => "subscription.create",
        }
    }
}

/// The handler that the dispatch table holds for `name`, if it holds one.
pub fn lookup(name: &str) -> (r: Option<MethodKind>)
    ensures
        r == method_of(name@),
        r matches Some(kind) ==> method_text(kind) == name@,
        r is None <==> !is_method(name@),
{
    let chars = chars_of(name);
    let r =
    if is_text(&chars, "ping") {
            Some(MethodKind::Ping)
        } else if is_text(&chars, "room.create") {
            Some(MethodKind::RoomCreate)
        } else if is_text(&chars, "room.read") {
            Some(MethodKind::RoomRead)
        } else if is_text(&chars, "room.update") {
            Some(MethodKind::RoomUpdate)
        } else if is_text(&chars, "room.delete") {
            Some(MethodKind::RoomDelete)
        } else if is_text(&chars, "room.list") {
            Some(MethodKind::RoomList)
        } else if is_text(&chars, "agent.create") {
            Some(MethodKind::AgentCreate)
        } else if is_text(&chars, "agent.read") {
            Some(MethodKind::AgentRead)
        } else if is_text(&chars, "agent.update") {
            Some(MethodKind::AgentUpdate)
        } else if is_text(&chars, "agent.delete") {
            Some(MethodKind::AgentDelete)
        } else if is_text(&chars, "agent.list") {
            Some(MethodKind::AgentList)
        } else if is_text(&chars, "agent.join_room") {
            Some(MethodKind::AgentJoinRoom)
        } else if is_text(&chars, "agent.leave_room") {
            Some(MethodKind::AgentLeaveRoom)
        } else if is_text(&chars, "track.create") {
            Some(MethodKind::TrackCreate)
        } else if is_text(&chars, "track.delete") {
            Some(MethodKind::TrackDelete)
        } else if is_text(&chars, "track.register") {
            Some(MethodKind::TrackRegister)
        } else if is_text(&chars, "track.unregister") {
            Some(MethodKind::TrackUnregister)
        } else if is_text(&chars, "track.list") {
            Some(MethodKind::TrackList)
        } else if is_text(&chars, "webrtc.offer") {
            Some(MethodKind::WebrtcOffer)
        } else if is_text(&chars, "webrtc.answer") {
            Some(MethodKind::WebrtcAnswer)
        } else if is_text(&chars, "webrtc.candidate") {
            Some(MethodKind::WebrtcCandidate)
        } else if is_text(&chars, "subscription.create") {
            Some(MethodKind::SubscriptionCreate)
        } else {
            None
        };
    proof {
        lemma_method_of(name@);
        match r {
            Some(kind) => {
                assert(method_text(kind) == name@);
            },
            None => {
                assert forall|kind: MethodKind| method_text(kind) != name@ by {}
            },
        }
    }
    r
}

/// The handlers of the dispatch table: every handler, once.
pub fn table() -> (r: Vec<MethodKind>)
    ensures
        r@.no_duplicates(),
        forall|kind: MethodKind| r@.contains(kind),
{
    let mut r: Vec<MethodKind> = Vec::new();
    r.push(MethodKind::Ping);
    r.push(MethodKind::RoomCreate);
    r.push(MethodKind::RoomRead);
    r.push(MethodKind::RoomUpdate);
    r.push(MethodKind::RoomDelete);
    r.push(MethodKind::RoomList);
    r.push(MethodKind::AgentCreate);
    r.push(MethodKind::AgentRead);
    r.push(MethodKind::AgentUpdate);
    r.push(MethodKind::AgentDelete);
    r.push(MethodKind::AgentList);
    r.push(MethodKind::AgentJoinRoom);
    r.push(MethodKind::AgentLeaveRoom);
    r.push(MethodKind::TrackCreate);
    r.push(MethodKind::TrackDelete);
    r.push(MethodKind::TrackRegister);
    r.push(MethodKind::TrackUnregister);
    r.push(MethodKind::TrackList);
    r.push(MethodKind::WebrtcOffer);
    r.push(MethodKind::WebrtcAnswer);
    r.push(MethodKind::WebrtcCandidate);
    r.push(MethodKind::SubscriptionCreate);
    proof {
        assert forall|kind: MethodKind| r@.contains(kind) by {
            match kind {
                MethodKind::Ping => {
                    assert(r@[0] == kind);
                },
                MethodKind::RoomCreate => {
                    assert(r@[1] == kind);
                },
                MethodKind::RoomRead => {
                    assert(r@[2] == kind);
                },
                MethodKind::RoomUpdate => {
                    assert(r@[3] == kind);
                },
                MethodKind::RoomDelete => {
                    assert(r@[4] == kind);
                },
                MethodKind::RoomList => {
                    assert(r@[5] == kind);
                },
                MethodKind::AgentCreate => {
                    assert(r@[6] == kind);
                },
                MethodKind::AgentRead => {
                    assert(r@[7] == kind);
                },
                MethodKind::AgentUpdate => {
                    assert(r@[8] == kind);
                },
                MethodKind::AgentDelete => {
                    assert(r@[9] == kind);
                },
                MethodKind::AgentList => {
                    assert(r@[10] == kind);
                },
                MethodKind::AgentJoinRoom => {
                    assert(r@[11] == kind);
                },
                MethodKind::AgentLeaveRoom => {
                    assert(r@[12] == kind);
                },
                MethodKind::TrackCreate => {
                    assert(r@[13] == kind);
                },
                MethodKind::TrackDelete => {
                    assert(r@[14] == kind);
                },
                MethodKind::TrackRegister => {
                    assert(r@[15] == kind);
                },
                MethodKind::TrackUnregister => {
                    assert(r@[16] == kind);
                },
                MethodKind::TrackList => {
                    assert(r@[17] == kind);
                },
                MethodKind::WebrtcOffer => {
                    assert(r@[18] == kind);
                },
                MethodKind::WebrtcAnswer => {
                    assert(r@[19] == kind);
                },
                MethodKind::WebrtcCandidate => {
                    assert(r@[20] == kind);
                },
                MethodKind::SubscriptionCreate => {
                    assert(r@[21] == kind);
                },
            }
        }
    }
    r
}

/// The handler for `name`, or the error object that says that there is none.
pub fn dispatch(name: &str) -> (r: Result<MethodKind, RpcError>)
    ensures
        match r {
            Ok(kind) => method_of(name@) == Some(kind),
            Err(e) => method_of(name@) is None && e.code == METHOD_NOT_FOUND && e.message@
                == "Method not found"@,
        },
{
    match lookup(name) {
        Some(kind) => Ok(kind),
        None => Err(RpcError::method_not_found()),
    }
}

/// What goes on the wire for the result of a handler: the response, or the
/// error object for the failure.
pub fn respond<T>(result: Result<T, Error>) -> (r: Result<T, RpcError>)
    ensures
        match result {
            Ok(response) => r == Ok::<T, RpcError>(response),
            Err(e) => r matches Err(object) && object.code == error_code(e) && object.message@
                == error_text(e),
        },
{
    match result {
        Ok(response) => Ok(response),
        Err(e) => Err(e.to_rpc_error()),
    }
}

} // verus!
