//! The request and response topics of one agent:
//! `agents/{id}/{in|out}/signals.netology-group.services/api/{version}`.

use vstd::prelude::*;
use crate::error::{ParseError, ParseErrorView};
use crate::id::{Id, canonical_value, id_text, is_canonical};
use crate::text::{
    after_slash, after_token, chars_of, first_token, has_at, is_text_at, lemma_skip, matches_at,
    slice_string, token_end,
};
use crate::topic::{Reversible, Topic};
use crate::version::{Version, version_of, version_text};

verus! {

/// The direction of an agent topic, seen from the agent: the service
/// publishes on `In` and listens on `Out`.
#[derive(Clone, Copy, Debug, PartialEq, Eq, Structural)]
pub enum AgentTopicKind {
    In,
    Out,
}

/// The topic of one agent in one direction.
#[derive(Clone, Copy, Debug, PartialEq, Eq, Structural)]
pub struct AgentTopic {
    pub kind: AgentTopicKind,
    pub agent_id: Id,
    pub version: Version,
}

/// The segment that stands for a direction.
pub open spec fn kind_text(kind: AgentTopicKind) -> Seq<char> {
    match kind {
        AgentTopicKind::In => "in"@,
        AgentTopicKind::Out => "out"@,
    }
}

/// The direction that a segment stands for, if any.
pub open spec fn kind_of(token: Seq<char>) -> Option<AgentTopicKind> {
    if token == "in"@ {
        Some(AgentTopicKind::In)
    } else if token == "out"@ {
        Some(AgentTopicKind::Out)
    } else {
        None
    }
}

/// The other direction.
pub open spec fn kind_reversed(kind: AgentTopicKind) -> AgentTopicKind {
    match kind {
        AgentTopicKind::In => AgentTopicKind::Out,
        AgentTopicKind::Out => AgentTopicKind::In,
    }
}

/// The topic string of an agent topic.
pub open spec fn agent_text(t: AgentTopic) -> Seq<char> {
    "agents/"@ + id_text(t.agent_id.value) + "/"@ + kind_text(t.kind)
        + "/signals.netology-group.services/api/"@ + version_text(t.version)
}

/// The same agent and version in the other direction.
pub open spec fn agent_reversed(t: AgentTopic) -> AgentTopic {
    AgentTopic { kind: kind_reversed(t.kind), agent_id: t.agent_id, version: t.version }
}

/// The start of an address under `agents/`: the agent, the segment that
/// follows the agent's identifier, and what follows that segment.
pub struct Head {
    pub agent_id: Id,
    pub token: Seq<char>,
    pub rest: Seq<char>,
}

/// What the grammar makes of the start of `s`: `agents/`, then a canonical
/// identifier up to the next `/`, then one more segment.
pub open spec fn parse_head(s: Seq<char>) -> Result<Head, ParseErrorView> {
    if !has_at(s, 0, "agents/"@) {
        Err(ParseErrorView::NoAlternativeMatched)
    } else {
        let r = s.skip("agents/"@.len() as int);
        let segment = first_token(r);
        if !is_canonical(segment) {
            Err(ParseErrorView::MalformedUuid(segment))
        } else {
            let r2 = after_slash(after_token(r));
            Ok(
                Head {
                    agent_id: Id { value: canonical_value(segment) as u128 },
                    token: first_token(r2),
                    rest: after_token(r2),
                },
            )
        }
    }
}

/// What the agent grammar makes of `s`. After the head come the fixed
/// service path and a version; one `/` may close the topic, and anything
/// else behind the version fails as trailing input.
pub open spec fn parse_agent(s: Seq<char>) -> Result<Topic, ParseErrorView> {
    match parse_head(s) {
        Err(e) => Err(e),
        Ok(head) => match kind_of(head.token) {
            None => Err(ParseErrorView::UnknownDirectionToken(head.token)),
            Some(kind) => if !has_at(head.rest, 0, "/signals.netology-group.services/api/"@) {
                Err(ParseErrorView::NoAlternativeMatched)
            } else {
                let r = head.rest.skip("/signals.netology-group.services/api/"@.len() as int);
                match version_of(first_token(r)) {
                    Err(e) => Err(e),
                    Ok(version) => if after_token(r).len() <= 1 {
                        Ok(Topic::Agent(AgentTopic { kind, agent_id: head.agent_id, version }))
                    } else {
                        Err(ParseErrorView::UnexpectedTrailingInput(after_slash(after_token(r))))
                    },
                }
            },
        },
    }
}

/// The agent and the bounds of the segment behind its identifier.
pub(crate) struct HeadAt {
    pub agent_id: Id,
    pub from: usize,
    pub to: usize,
}

/// Reads the start of an address under `agents/`.
pub(crate) fn read_head(text: &str, chars: &Vec<char>) -> (r: Result<HeadAt, ParseError>)
    requires
        chars@ == text@,
    ensures
        match r {
            Ok(at) => {
                &&& parse_head(text@) matches Ok(head)
                &&& head.agent_id == at.agent_id
                &&& at.from <= at.to <= chars.len()
                &&& head.token == chars@.subrange(at.from as int, at.to as int)
                &&& head.rest == chars@.skip(at.to as int)
            },
            Err(e) => parse_head(text@) == Err::<Head, ParseErrorView>(e@),
        },
{
    if !matches_at(chars, 0, "agents/") {
        return Err(ParseError::NoAlternativeMatched);
    }
    let start = "agents/".unicode_len();
    let end = token_end(chars, start);
    proof {
        lemma_skip(chars@, start as int, end - start, Seq::empty());
    }
    let segment = text.substring_char(start, end);
    let agent_id = match Id::parse(segment) {
        Some(id) => id,
        None => {
            return Err(ParseError::MalformedUuid(String::from_str(segment)));
        },
    };
    let from = if end < chars.len() {
        end + 1
    } else {
        end
    };
    let to = token_end(chars, from);
    proof {
        let r = chars@.skip(start as int);
        lemma_skip(chars@, start as int, end - start, Seq::empty());
        if end < chars.len() {
            lemma_skip(chars@, end as int, 1, Seq::empty());
        }
        assert(after_slash(after_token(r)) == chars@.skip(from as int));
        lemma_skip(chars@, from as int, to - from, Seq::empty());
    }
    Ok(HeadAt { agent_id, from, to })
}

impl AgentTopicKind {
    /// The segment that stands for the direction.
    pub fn to_string(&self) -> (r: String)
        ensures
            r@ == kind_text(*self),
    {
        match self {
            AgentTopicKind::In => String::from_str("in"),
            AgentTopicKind::Out => String::from_str("out"),
        }
    }
}

impl AgentTopic {
    /// The topic on which the service publishes to the agent.
    pub fn new_in(agent_id: Id) -> (r: AgentTopic)
        ensures
            r == (AgentTopic { kind: AgentTopicKind::In, agent_id, version: Version::V1 }),
    {
        AgentTopic { kind: AgentTopicKind::In, agent_id, version: Version::V1 }
    }

    /// The topic string.
    pub fn to_string(&self) -> (r: String)
        ensures
            r@ == agent_text(*self),
    {
        let mut r = String::from_str("agents/");
        r.append(self.agent_id.to_string().as_str());
        r.append("/");
        r.append(self.kind.to_string().as_str());
        r.append("/signals.netology-group.services/api/");
        r.append(self.version.as_str());
        r
    }
}

impl Reversible for AgentTopic {
    type Topic = AgentTopic;

    open spec fn reversed(&self) -> AgentTopic {
        agent_reversed(*self)
    }

    fn get_reverse(&self) -> (r: AgentTopic) {
        let kind = match self.kind {
            AgentTopicKind::In => AgentTopicKind::Out,
            AgentTopicKind::Out => AgentTopicKind::In,
        };
        AgentTopic { kind, agent_id: self.agent_id, version: self.version }
    }
}

/// Reads the topic of an agent.
pub fn topic(text: &str) -> (r: Result<Topic, ParseError>)
    ensures
        match r {
            Ok(t) => parse_agent(text@) == Ok::<Topic, ParseErrorView>(t),
            Err(e) => parse_agent(text@) == Err::<Topic, ParseErrorView>(e@),
        },
{
    let chars = chars_of(text);
    let head = match read_head(text, &chars) {
        Ok(head) => head,
        Err(e) => {
            return Err(e);
        },
    };
    let kind = if is_text_at(&chars, head.from, head.to, "in") {
        AgentTopicKind::In
    } else if is_text_at(&chars, head.from, head.to, "out") {
        AgentTopicKind::Out
    } else {
        return Err(
            ParseError::UnknownDirectionToken(slice_string(text, head.from, head.to)),
        );
    };
    proof {
        lemma_skip(chars@, head.to as int, 0, "/signals.netology-group.services/api/"@);
    }
    if !matches_at(&chars, head.to, "/signals.netology-group.services/api/") {
        return Err(ParseError::NoAlternativeMatched);
    }
    let start = head.to + "/signals.netology-group.services/api/".unicode_len();
    let end = token_end(&chars, start);
    proof {
        lemma_skip(chars@, head.to as int, start - head.to, Seq::empty());
        lemma_skip(chars@, start as int, end - start, Seq::empty());
    }
    let version = match Version::parse(text.substring_char(start, end)) {
        Ok(version) => version,
        Err(e) => {
            return Err(e);
        },
    };
    if chars.len() - end <= 1 {
        Ok(Topic::Agent(AgentTopic { kind, agent_id: head.agent_id, version }))
    } else {
        proof {
            lemma_skip(chars@, end as int, 1, Seq::empty());
            assert(chars@.skip(end + 1) =~= chars@.subrange(end + 1, chars@.len() as int));
        }
        Err(ParseError::UnexpectedTrailingInput(slice_string(text, end + 1, chars.len())))
    }
}

} // verus!
