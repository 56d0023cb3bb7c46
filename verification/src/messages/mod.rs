//! The messages that travel on topics, and where notifications go.

use vstd::prelude::*;
use vstd::pervasive::unreached;
use vstd::std_specs::convert::FromSpecImpl;
use crate::id::{Id, id_text};
use crate::messages::webrtc::WebrtcMethod;
use crate::topic::{AgentTopic, AgentTopicKind, AppTopic, ResourceKind, Topic, topic_text};
use crate::version::Version;

pub mod agent;
pub mod direct;
pub mod query_parameters;
pub mod room;
pub mod state;
pub mod subscription;
pub mod track;
pub mod webrtc;

verus! {

/// What arrives on a topic: who sent it, and the message, which is opaque
/// at this level.
#[derive(Clone, Debug, PartialEq, Eq)]
pub struct Envelope {
    pub sub: EnvelopeSubject,
    pub msg: EnvelopeMessage,
}

/// The sender of a message: an agent of an account.
#[derive(Clone, Copy, Debug, PartialEq, Eq, Structural)]
pub struct EnvelopeSubject {
    pub account_id: Id,
    pub agent_id: Id,
}

/// The message inside an envelope, as it was sent.
#[derive(Clone, Debug, PartialEq, Eq)]
pub struct EnvelopeMessage(pub String);

impl EnvelopeMessage {
    /// The message inside an envelope.
    pub fn new(text: String) -> (r: EnvelopeMessage)
        ensures
            r.0 == text,
    {
        EnvelopeMessage(text)
    }

    /// The text of the message.
    pub fn as_str(&self) -> (r: &str)
        ensures
            r@ == self.0@,
    {
        self.0.as_str()
    }
}

impl Envelope {
    /// The envelope of the message `msg` sent by `sub`.
    pub fn new(sub: EnvelopeSubject, msg: EnvelopeMessage) -> (r: Envelope)
        ensures
            r.sub == sub,
            r.msg == msg,
    {
        Envelope { sub, msg }
    }
}

/// A domain event that is broadcast to a room.
#[derive(Clone, Debug, PartialEq, Eq)]
pub struct Event<T> {
    pub room_id: Id,
    pub payload: T,
}

impl<T> Event<T> {
    /// The event that reports `payload` to the room `room_id`.
    pub fn new(room_id: Id, payload: T) -> (r: Event<T>)
        ensures
            r.room_id == room_id,
            r.payload == payload,
    {
        Event { room_id, payload }
    }
}

/// The kinds of domain events.
#[derive(Clone, Debug, PartialEq, Eq)]
pub enum EventKind {
    AgentCreate(agent::CreateEvent),
    AgentDelete(agent::DeleteEvent),
    TrackCreate(track::CreateEvent),
    TrackUpdate(track::UpdateEvent),
    TrackDelete(track::DeleteEvent),
    StateUpdate(state::UpdateEvent),
}

/// A signalling message and the agent that it is for.
#[derive(Clone, Debug, PartialEq, Eq)]
pub struct Method {
    pub agent_id: Id,
    pub body: WebrtcMethod,
}

/// What the service publishes of its own accord: an event for a room, or
/// a signalling message for one agent.
#[derive(Clone, Debug, PartialEq, Eq)]
pub enum Notification {
    Event(EventKind),
    Method(Method),
}

/// The name under which an event is tagged on the wire; a change of
/// presence is received, never sent, and has its own name here.
pub open spec fn event_tag(kind: EventKind) -> Seq<char> {
    match kind {
        EventKind::AgentCreate(_) => "agent.create"@,
        EventKind::AgentDelete(_) => "agent.delete"@,
        EventKind::TrackCreate(_) => "track.create"@,
        EventKind::TrackUpdate(_) => "track.update"@,
        EventKind::TrackDelete(_) => "track.delete"@,
        EventKind::StateUpdate(_) => "state.update"@,
    }
}

/// The broadcast topic on which an event is published: that of the agents
/// or of the tracks of the event's room. A change of presence is not
/// broadcast.
pub open spec fn event_topic(kind: EventKind) -> Option<AppTopic> {
    match kind {
        EventKind::AgentCreate(e) => Some(
            AppTopic { room_id: e.room_id, resource: ResourceKind::Agents },
        ),
        EventKind::AgentDelete(e) => Some(
            AppTopic { room_id: e.room_id, resource: ResourceKind::Agents },
        ),
        EventKind::TrackCreate(e) => Some(
            AppTopic { room_id: e.room_id, resource: ResourceKind::Tracks },
        ),
        EventKind::TrackUpdate(e) => Some(
            AppTopic { room_id: e.room_id, resource: ResourceKind::Tracks },
        ),
        EventKind::TrackDelete(e) => Some(
            AppTopic { room_id: e.room_id, resource: ResourceKind::Tracks },
        ),
        EventKind::StateUpdate(_) => None,
    }
}

/// Whether a notification can be published: all can but a change of presence.
pub open spec fn is_outbound(n: Notification) -> bool {
    !(n matches Notification::Event(kind) && kind is StateUpdate)
}

/// The topic on which a notification is published: an event goes to the
/// broadcast topic of its room, a signalling message to the inbound topic
/// of the agent that it is for.
pub open spec fn destination_of(n: Notification) -> Topic
    recommends
        is_outbound(n),
{
    match n {
        Notification::Event(kind) => Topic::App(event_topic(kind)->0),
        Notification::Method(m) => Topic::Agent(
            AgentTopic { kind: AgentTopicKind::In, agent_id: m.agent_id, version: Version::V1 },
        ),
    }
}

impl EventKind {
    /// The name under which the event is tagged on the wire.
    pub fn tag(&self) -> (r: &'static str)
        ensures
            r@ == event_tag(*self),
    {
        match self {
            EventKind::AgentCreate(_) => "agent.create",
            EventKind::AgentDelete(_) => "agent.delete",
            EventKind::TrackCreate(_) => "track.create",
            EventKind::TrackUpdate(_) => "track.update",
            EventKind::TrackDelete(_) => "track.delete",
            EventKind::StateUpdate(_) => "state.update",
        }
    }

    /// The broadcast topic on which the event is published, if it is
    /// broadcast.
    pub fn topic(&self) -> (r: Option<AppTopic>)
        ensures
            r == event_topic(*self),
    {
        match self {
            EventKind::AgentCreate(e) => Some(
                AppTopic { room_id: e.room_id, resource: ResourceKind::Agents },
            ),
            EventKind::AgentDelete(e) => Some(
                AppTopic { room_id: e.room_id, resource: ResourceKind::Agents },
            ),
            EventKind::TrackCreate(e) => Some(
                AppTopic { room_id: e.room_id, resource: ResourceKind::Tracks },
            ),
            EventKind::TrackUpdate(e) => Some(
                AppTopic { room_id: e.room_id, resource: ResourceKind::Tracks },
            ),
            EventKind::TrackDelete(e) => Some(
                AppTopic { room_id: e.room_id, resource: ResourceKind::Tracks },
            ),
            EventKind::StateUpdate(_) => None,
        }
    }
}

/// The method name under which a notification is delivered: `event` for
/// every event, and its own name for a signalling message.
pub open spec fn notification_method(n: Notification) -> Seq<char> {
    match n {
        Notification::Event(_) => "event"@,
        Notification::Method(m) => webrtc::method_text(m.body),
    }
}

impl Notification {
    /// The method name under which the notification is delivered.
    pub fn method_name(&self) -> (r: &'static str)
        ensures
            r@ == notification_method(*self),
    {
        match self {
            Notification::Event(_) => "event",
            Notification::Method(m) => m.body.method_name(),
        }
    }

    /// Whether the notification can be published.
    pub fn is_outbound(&self) -> (r: bool)
        ensures
            r == is_outbound(*self),
    {
        match self {
            Notification::Event(EventKind::StateUpdate(_)) => false,
            _ => true,
        }
    }

    /// The topic on which the notification is published.
    pub fn destination(&self) -> (r: Topic)
        requires
            is_outbound(*self),
        ensures
            r == destination_of(*self),
    {
        match self {
            Notification::Event(kind) => {
                match kind.topic() {
                    Some(topic) => Topic::App(topic),
                    None => unreached(),
                }
            },
            Notification::Method(m) => Topic::Agent(AgentTopic::new_in(m.agent_id)),
        }
    }
}

/// A notification that a track was deleted goes to the broadcast topic of
/// the tracks of the event's room.
pub proof fn lemma_track_delete_destination(event: track::DeleteEvent)
    ensures
        is_outbound(Notification::Event(EventKind::TrackDelete(event))),
        destination_of(Notification::Event(EventKind::TrackDelete(event))) == Topic::App(
            AppTopic { room_id: event.room_id, resource: ResourceKind::Tracks },
        ),
        topic_text(destination_of(Notification::Event(EventKind::TrackDelete(event))))
            == "apps/signals.netology-group.services/api/v1/rooms/"@ + id_text(
            event.room_id.value,
        ) + "/"@ + "tracks"@,
{
}

/// A signalling message goes to the inbound topic of its recipient.
pub proof fn lemma_method_destination(method: Method)
    ensures
        is_outbound(Notification::Method(method)),
        destination_of(Notification::Method(method)) matches Topic::Agent(t) && t.kind
            == AgentTopicKind::In && t.agent_id == method.agent_id,
{
}

impl From<EventKind> for Notification {
    fn from(kind: EventKind) -> (r: Notification) {
        Notification::Event(kind)
    }
}

impl FromSpecImpl<EventKind> for Notification {
    open spec fn obeys_from_spec() -> bool {
        true
    }

    open spec fn from_spec(kind: EventKind) -> Notification {
        Notification::Event(kind)
    }
}

impl From<Method> for Notification {
    fn from(method: Method) -> (r: Notification) {
        Notification::Method(method)
    }
}

impl FromSpecImpl<Method> for Notification {
    open spec fn obeys_from_spec() -> bool {
        true
    }

    open spec fn from_spec(method: Method) -> Notification {
        Notification::Method(method)
    }
}

} // verus!
