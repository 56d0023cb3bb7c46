//! The failures of a handler, and the error objects they become on the wire.

use vstd::prelude::*;
use vstd::std_specs::convert::FromSpecImpl;
use crate::error::ParseError;

verus! {

/// What kind of failure the store reported.
#[derive(Clone, Copy, Debug, PartialEq, Eq, Structural)]
pub enum DbErrorKind {
    /// The record asked for does not exist.
    NotFound,
    /// Anything else, such as a constraint that a value breaks.
    Other,
}

/// A failure of the store, with the store's own description of it.
#[derive(Clone, Debug, PartialEq, Eq)]
pub struct DbError {
    pub kind: DbErrorKind,
    pub message: String,
}

/// A failure of a handler.
#[derive(Clone, Debug, PartialEq, Eq)]
pub enum Error {
    BadRequest,
    Db(DbError),
    InvalidParameters(ParseError),
}

/// An error object of the wire protocol.
#[derive(Clone, Debug, PartialEq, Eq)]
pub struct RpcError {
    pub code: i64,
    pub message: String,
}

/// The code for a method name that the dispatch table does not hold.
pub const METHOD_NOT_FOUND: i64 = -32601;

/// The code of the error object for a failure: 404 where the store found
/// nothing, 422 for any other failure of the store, 500 for the rest.
pub open spec fn error_code(e: Error) -> i64 {
    match e {
        Error::Db(db) => match db.kind {
            DbErrorKind::NotFound => 404,
            DbErrorKind::Other => 422,
        },
        _ => 500,
    }
}

/// The message of the error object for a failure.
pub open spec fn error_text(e: Error) -> Seq<char> {
    match e {
        Error::BadRequest => "Bad request"@,
        Error::Db(db) => db.message@,
        Error::InvalidParameters(_) => "Invalid parameters"@,
    }
}

impl Error {
    /// The message that describes the failure.
    pub fn to_string(&self) -> (r: String)
        ensures
            r@ == error_text(*self),
    {
        match self {
            Error::BadRequest => String::from_str("Bad request"),
            Error::Db(db) => db.message.clone(),
            Error::InvalidParameters(_) => String::from_str("Invalid parameters"),
        }
    }

    /// The code of the error object for the failure.
    pub fn code(&self) -> (r: i64)
        ensures
            r == error_code(*self),
            r == 404 || r == 422 || r == 500,
    {
        match self {
            Error::Db(db) => match db.kind {
                DbErrorKind::NotFound => 404,
                DbErrorKind::Other => 422,
            },
            _ => 500,
        }
    }

    /// The error object for the failure.
    pub fn to_rpc_error(&self) -> (r: RpcError)
        ensures
            r.code == error_code(*self),
            r.message@ == error_text(*self),
    {
        RpcError { code: self.code(), message: self.to_string() }
    }
}

impl RpcError {
    /// The error object for a method name that the dispatch table does not hold.
    pub fn method_not_found() -> (r: RpcError)
        ensures
            r.code == METHOD_NOT_FOUND,
            r.message@ == "Method not found"@,
    {
        RpcError { code: METHOD_NOT_FOUND, message: String::from_str("Method not found") }
    }

    /// Whether the error object says that the method was not found.
    pub fn is_method_not_found(&self) -> (r: bool)
        ensures
            r == (self.code == METHOD_NOT_FOUND),
    {
        self.code == METHOD_NOT_FOUND
    }
}

impl From<DbError> for Error {
    fn from(e: DbError) -> (r: Error) {
        Error::Db(e)
    }
}

impl FromSpecImpl<DbError> for Error {
    open spec fn obeys_from_spec() -> bool {
        true
    }

    open spec fn from_spec(e: DbError) -> Error {
        Error::Db(e)
    }
}

impl From<ParseError> for Error {
    fn from(e: ParseError) -> (r: Error) {
        Error::InvalidParameters(e)
    }
}

impl FromSpecImpl<ParseError> for Error {
    open spec fn obeys_from_spec() -> bool {
        true
    }

    open spec fn from_spec(e: ParseError) -> Error {
        Error::InvalidParameters(e)
    }
}

} // verus!
