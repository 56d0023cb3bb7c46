//! The protocol version tag that appears in topic strings.

use vstd::prelude::*;
use crate::error::{ParseError, ParseErrorView};
use crate::text::{chars_of, is_text};

verus! {

/// A protocol version. The set is closed; a new version is a new variant
/// with a new token, which leaves the existing tokens as they are.
#[derive(Clone, Copy, Debug, PartialEq, Eq, Structural)]
pub enum Version {
    V1,
}

/// The token that stands for a version in a topic string.
pub open spec fn version_text(v: Version) -> Seq<char> {
    match v {
        Version::V1 => "v1"@,
    }
}

/// The version that a token stands for, or the token as an error.
pub open spec fn version_of(token: Seq<char>) -> Result<Version, ParseErrorView> {
    if token == "v1"@ {
        Ok(Version::V1)
    } else {
        Err(ParseErrorView::UnknownVersionToken(token))
    }
}

/// Reading a version's own token gives the version back.
pub proof fn lemma_version_round_trip(v: Version)
    ensures
        version_of(version_text(v)) == Ok::<Version, ParseErrorView>(v),
{
}

impl Version {
    /// The token of the version.
    pub fn as_str(&self) -> (r: &'static str)
        ensures
            r@ == version_text(*self),
    {
        match self {
            Version::V1 => "v1",
        }
    }

    /// The token of the version, as an owned string.
    pub fn to_string(&self) -> (r: String)
        ensures
            r@ == version_text(*self),
    {
        String::from_str(self.as_str())
    }

    /// Reads a version from its token.
    pub fn parse(token: &str) -> (r: Result<Version, ParseError>)
        ensures
            match r {
                Ok(v) => version_of(token@) == Ok::<Version, ParseErrorView>(v),
                Err(e) => version_of(token@) == Err::<Version, ParseErrorView>(e@),
            },
    {
        let chars = chars_of(token);
        if is_text(&chars, "v1") {
            Ok(Version::V1)
        } else {
            Err(ParseError::UnknownVersionToken(String::from_str(token)))
        }
    }
}

} // verus!
