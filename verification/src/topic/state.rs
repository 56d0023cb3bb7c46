//! The topic on which an agent's presence is announced:
//! `agents/{id}/state/api/{version}`. Nothing is published in answer to it.

use vstd::prelude::*;
use crate::error::{ParseError, ParseErrorView};
use crate::id::{Id, id_text};
use crate::text::{
    after_token, chars_of, first_token, has_at, is_text_at, lemma_skip, matches_at, slice_string,
    token_end,
};
use crate::topic::agent::{parse_head, read_head};
use crate::topic::Topic;
use crate::version::{Version, version_of, version_text};

verus! {

/// The presence topic of one agent.
#[derive(Clone, Copy, Debug, PartialEq, Eq, Structural)]
pub struct StateTopic {
    pub agent_id: Id,
    pub version: Version,
}

/// The topic string of a presence topic.
pub open spec fn state_text(t: StateTopic) -> Seq<char> {
    "agents/"@ + id_text(t.agent_id.value) + "/state/api/"@ + version_text(t.version)
}

/// What the presence grammar makes of `s`. The segment behind the
/// identifier is `state`; then come `/api/` and a version, and the topic
/// ends there: whatever follows, a single `/` too, fails as trailing input.
pub open spec fn parse_state(s: Seq<char>) -> Result<Topic, ParseErrorView> {
    match parse_head(s) {
        Err(e) => Err(e),
        Ok(head) => if head.token != "state"@ {
            Err(ParseErrorView::UnknownDirectionToken(head.token))
        } else if !has_at(head.rest, 0, "/api/"@) {
            Err(ParseErrorView::NoAlternativeMatched)
        } else {
            let r = head.rest.skip("/api/"@.len() as int);
            match version_of(first_token(r)) {
                Err(e) => Err(e),
                Ok(version) => if after_token(r).len() == 0 {
                    Ok(Topic::State(StateTopic { agent_id: head.agent_id, version }))
                } else {
                    Err(ParseErrorView::UnexpectedTrailingInput(after_token(r)))
                },
            }
        },
    }
}

impl StateTopic {
    /// The presence topic of an agent, at the current version.
    pub fn new(agent_id: Id) -> (r: StateTopic)
        ensures
            r == (StateTopic { agent_id, version: Version::V1 }),
    {
        StateTopic { agent_id, version: Version::V1 }
    }

    /// The topic string.
    pub fn to_string(&self) -> (r: String)
        ensures
            r@ == state_text(*self),
    {
        let mut r = String::from_str("agents/");
        r.append(self.agent_id.to_string().as_str());
        r.append("/state/api/");
        r.append(self.version.as_str());
        r
    }
}

/// Reads a presence topic.
pub fn topic(text: &str) -> (r: Result<Topic, ParseError>)
    ensures
        match r {
            Ok(t) => parse_state(text@) == Ok::<Topic, ParseErrorView>(t),
            Err(e) => parse_state(text@) == Err::<Topic, ParseErrorView>(e@),
        },
{
    let chars = chars_of(text);
    let head = match read_head(text, &chars) {
        Ok(head) => head,
        Err(e) => {
            return Err(e);
        },
    };
    if !is_text_at(&chars, head.from, head.to, "state") {
        return Err(
            ParseError::UnknownDirectionToken(slice_string(text, head.from, head.to)),
        );
    }
    proof {
        lemma_skip(chars@, head.to as int, 0, "/api/"@);
    }
    if !matches_at(&chars, head.to, "/api/") {
        return Err(ParseError::NoAlternativeMatched);
    }
    let start = head.to + "/api/".unicode_len();
    let end = token_end(&chars, start);
    proof {
        lemma_skip(chars@, head.to as int, start - head.to, Seq::empty());
        lemma_skip(chars@, start as int, end - start, Seq::empty());
    }
    let version = match Version::parse(text.substring_char(start, end)) {
        Ok(version) => version,
        Err(e) => {
            return Err(e);
        },
    };
    if end == chars.len() {
        Ok(Topic::State(StateTopic { agent_id: head.agent_id, version }))
    } else {
        proof {
            assert(chars@.skip(end as int) =~= chars@.subrange(end as int, chars@.len() as int));
        }
        Err(ParseError::UnexpectedTrailingInput(slice_string(text, end, chars.len())))
    }
}

} // verus!
