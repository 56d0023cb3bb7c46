//! Topics: the addresses on which messages are published and received.
//!
//! A topic string is read by one of three grammars, told apart by how the
//! string begins, so that no string is read in two ways. A request topic has
//! a reverse, the topic on which the answer goes out; a presence topic and a
//! broadcast topic have none.

use vstd::prelude::*;
use crate::error::{ParseError, ParseErrorView};
use crate::text::{chars_of, has_at, is_text_at, matches_at};

pub mod agent;
pub mod app;
pub mod laws;
pub mod ping;
pub mod state;

pub use crate::topic::agent::{AgentTopic, AgentTopicKind};
pub use crate::topic::app::{AppTopic, ResourceKind};
pub use crate::topic::ping::PingTopicKind;
pub use crate::topic::state::StateTopic;

use crate::topic::agent::{agent_reversed, agent_text, parse_agent, parse_head, read_head};
use crate::topic::app::app_text;
use crate::topic::ping::{parse_ping, ping_reversed, ping_text};
use crate::topic::state::{parse_state, state_text};

verus! {

/// A topic.
#[derive(Clone, Copy, Debug, PartialEq, Eq, Structural)]
pub enum Topic {
    Ping(PingTopicKind),
    Agent(AgentTopic),
    App(AppTopic),
    State(StateTopic),
}

/// A request topic, which has a topic on which the answer is published.
pub trait Reversible {
    type Topic;

    /// The topic on which the answer is published.
    spec fn reversed(&self) -> Self::Topic;

    /// The topic on which the answer is published.
    fn get_reverse(&self) -> (r: Self::Topic)
        ensures
            r == self.reversed(),
    ;
}

/// The topic string of a topic.
pub open spec fn topic_text(t: Topic) -> Seq<char> {
    match t {
        Topic::Ping(kind) => ping_text(kind),
        Topic::Agent(agent) => agent_text(agent),
        Topic::App(app) => app_text(app),
        Topic::State(state) => state_text(state),
    }
}

/// The topic on which the answer to a message on `t` is published, if `t`
/// is a request topic.
pub open spec fn topic_reversed(t: Topic) -> Option<Topic> {
    match t {
        Topic::Ping(kind) => Some(Topic::Ping(ping_reversed(kind))),
        Topic::Agent(agent) => Some(Topic::Agent(agent_reversed(agent))),
        Topic::App(_) => None,
        Topic::State(_) => None,
    }
}

/// Whether messages on `t` are answered.
pub open spec fn is_reversible(t: Topic) -> bool {
    t is Ping || t is Agent
}

/// What the grammar makes of the topic string `s`. A string that begins
/// with `ping` or `pong` is read as a liveness topic. A string that begins
/// with `agents/` is read as a presence topic where the segment behind the
/// identifier is `state`, and as an agent topic otherwise. Any other string,
/// that of a broadcast topic too, is no topic that can be received.
pub open spec fn parse_topic(s: Seq<char>) -> Result<Topic, ParseErrorView> {
    if has_at(s, 0, "ping"@) || has_at(s, 0, "pong"@) {
        parse_ping(s)
    } else if parse_head(s) matches Ok(head) && head.token == "state"@ {
        parse_state(s)
    } else {
        parse_agent(s)
    }
}

/// The topic string without the one `/` that may close it.
pub open spec fn canonical(s: Seq<char>) -> Seq<char> {
    if s.len() > 0 && s.last() == '/' {
        s.drop_last()
    } else {
        s
    }
}

impl Topic {
    /// Reads a topic from its topic string.
    pub fn parse(topic_str: &str) -> (r: Result<Topic, ParseError>)
        ensures
            match r {
                Ok(t) => parse_topic(topic_str@) == Ok::<Topic, ParseErrorView>(t),
                Err(e) => parse_topic(topic_str@) == Err::<Topic, ParseErrorView>(e@),
            },
    {
        let chars = chars_of(topic_str);
        if matches_at(&chars, 0, "ping") || matches_at(&chars, 0, "pong") {
            return ping::topic(topic_str);
        }
        let is_state = match read_head(topic_str, &chars) {
            Ok(head) => is_text_at(&chars, head.from, head.to, "state"),
            Err(_) => false,
        };
        if is_state {
            state::topic(topic_str)
        } else {
            agent::topic(topic_str)
        }
    }

    /// The topic on which the answer to a message on this topic is
    /// published; `None` for a topic that is not answered.
    pub fn get_reverse(&self) -> (r: Option<Topic>)
        ensures
            r == topic_reversed(*self),
            r is Some <==> is_reversible(*self),
    {
        match *self {
            Topic::Ping(ref t) => Some(Topic::Ping(t.get_reverse())),
            Topic::Agent(ref t) => Some(Topic::Agent(t.get_reverse())),
            Topic::App(_) | Topic::State(_) => None,
        }
    }

    /// The topic string.
    pub fn to_string(&self) -> (r: String)
        ensures
            r@ == topic_text(*self),
    {
        match self {
            Topic::Ping(t) => t.to_string(),
            Topic::Agent(t) => t.to_string(),
            Topic::App(t) => t.to_string(),
            Topic::State(t) => t.to_string(),
        }
    }
}

} // verus!
