//! The two liveness topics, `ping` and `pong`.

use vstd::prelude::*;
use crate::error::{ParseError, ParseErrorView};
use crate::text::{chars_of, is_text, matches_at, slice_string, has_at};
use crate::topic::{Reversible, Topic};

verus! {

/// Which of the two liveness topics.
#[derive(Clone, Copy, Debug, PartialEq, Eq, Structural)]
pub enum PingTopicKind {
    Ping,
    Pong,
}

/// The topic string of a liveness topic.
pub open spec fn ping_text(kind: PingTopicKind) -> Seq<char> {
    match kind {
        PingTopicKind::Ping => "ping"@,
        PingTopicKind::Pong => "pong"@,
    }
}

/// The liveness topic that answers `kind`.
pub open spec fn ping_reversed(kind: PingTopicKind) -> PingTopicKind {
    match kind {
        PingTopicKind::Ping => PingTopicKind::Pong,
        PingTopicKind::Pong => PingTopicKind::Ping,
    }
}

/// What the liveness grammar makes of `s`: the literal `ping` or `pong` and
/// nothing else is a topic; either literal with more behind it fails on what
/// is behind it; any other text is no liveness topic.
pub open spec fn parse_ping(s: Seq<char>) -> Result<Topic, ParseErrorView> {
    if s == "ping"@ {
        Ok(Topic::Ping(PingTopicKind::Ping))
    } else if s == "pong"@ {
        Ok(Topic::Ping(PingTopicKind::Pong))
    } else if has_at(s, 0, "ping"@) {
        Err(ParseErrorView::UnexpectedTrailingInput(s.skip("ping"@.len() as int)))
    } else if has_at(s, 0, "pong"@) {
        Err(ParseErrorView::UnexpectedTrailingInput(s.skip("pong"@.len() as int)))
    } else {
        Err(ParseErrorView::NoAlternativeMatched)
    }
}

impl PingTopicKind {
    /// The topic string.
    pub fn to_string(&self) -> (r: String)
        ensures
            r@ == ping_text(*self),
    {
        match self {
            PingTopicKind::Ping => String::from_str("ping"),
            PingTopicKind::Pong => String::from_str("pong"),
        }
    }
}

impl Reversible for PingTopicKind {
    type Topic = PingTopicKind;

    open spec fn reversed(&self) -> PingTopicKind {
        ping_reversed(*self)
    }

    fn get_reverse(&self) -> (r: PingTopicKind) {
        match *self {
            PingTopicKind::Ping => PingTopicKind::Pong,
            PingTopicKind::Pong => PingTopicKind::Ping,
        }
    }
}

/// Reads a liveness topic.
pub fn topic(text: &str) -> (r: Result<Topic, ParseError>)
    ensures
        match r {
            Ok(t) => parse_ping(text@) == Ok::<Topic, ParseErrorView>(t),
            Err(e) => parse_ping(text@) == Err::<Topic, ParseErrorView>(e@),
        },
{
    let chars = chars_of(text);
    if is_text(&chars, "ping") {
        Ok(Topic::Ping(PingTopicKind::Ping))
    } else if is_text(&chars, "pong") {
        Ok(Topic::Ping(PingTopicKind::Pong))
    } else if matches_at(&chars, 0, "ping") {
        let from = "ping".unicode_len();
        proof {
            assert(text@.skip(from as int) =~= text@.subrange(from as int, text@.len() as int));
        }
        Err(ParseError::UnexpectedTrailingInput(slice_string(text, from, chars.len())))
    } else if matches_at(&chars, 0, "pong") {
        let from = "pong".unicode_len();
        proof {
            assert(text@.skip(from as int) =~= text@.subrange(from as int, text@.len() as int));
        }
        Err(ParseError::UnexpectedTrailingInput(slice_string(text, from, chars.len())))
    } else {
        Err(ParseError::NoAlternativeMatched)
    }
}

} // verus!
