//! Why a topic string was turned down.

use vstd::prelude::*;

verus! {

/// A failure to read a topic string. Each variant but the last carries the
/// part of the input that was at fault.
#[derive(Clone, Debug, PartialEq, Eq)]
pub enum ParseError {
    /// The identifier segment is not a canonical identifier text.
    MalformedUuid(String),
    /// The version token is not one of the known versions.
    UnknownVersionToken(String),
    /// The segment after the identifier names no direction and no sub-resource.
    UnknownDirectionToken(String),
    /// The topic was complete and more input followed.
    UnexpectedTrailingInput(String),
    /// The input has the form of no topic.
    NoAlternativeMatched,
}

/// A `ParseError` with the carried text as a sequence of characters.
pub enum ParseErrorView {
    MalformedUuid(Seq<char>),
    UnknownVersionToken(Seq<char>),
    UnknownDirectionToken(Seq<char>),
    UnexpectedTrailingInput(Seq<char>),
    NoAlternativeMatched,
}

impl View for ParseError {
    type V = ParseErrorView;

    open spec fn view(&self) -> ParseErrorView {
        match *self {
            ParseError::MalformedUuid(s) => ParseErrorView::MalformedUuid(s@),
            ParseError::UnknownVersionToken(s) => ParseErrorView::UnknownVersionToken(s@),
            ParseError::UnknownDirectionToken(s) => ParseErrorView::UnknownDirectionToken(s@),
            ParseError::UnexpectedTrailingInput(s) => ParseErrorView::UnexpectedTrailingInput(s@),
            ParseError::NoAlternativeMatched => ParseErrorView::NoAlternativeMatched,
        }
    }
}

impl ParseError {
    /// A line of text that describes the failure.
    pub fn to_string(&self) -> (r: String)
        ensures
            r@ == describe(self@),
    {
        match self {
            ParseError::MalformedUuid(s) => String::from_str("malformed uuid: ").concat(
                s.as_str(),
            ),
            ParseError::UnknownVersionToken(s) => String::from_str(
                "unknown version token: ",
            ).concat(s.as_str()),
            ParseError::UnknownDirectionToken(s) => String::from_str(
                "unknown direction token: ",
            ).concat(s.as_str()),
            ParseError::UnexpectedTrailingInput(s) => String::from_str(
                "unexpected trailing input: ",
            ).concat(s.as_str()),
            ParseError::NoAlternativeMatched => String::from_str("no alternative matched"),
        }
    }
}

/// The line of text that describes a failure.
pub open spec fn describe(e: ParseErrorView) -> Seq<char> {
    match e {
        ParseErrorView::MalformedUuid(s) => "malformed uuid: "@ + s,
        ParseErrorView::UnknownVersionToken(s) => "unknown version token: "@ + s,
        ParseErrorView::UnknownDirectionToken(s) => "unknown direction token: "@ + s,
        ParseErrorView::UnexpectedTrailingInput(s) => "unexpected trailing input: "@ + s,
        ParseErrorView::NoAlternativeMatched => "no alternative matched"@,
    }
}

} // verus!
