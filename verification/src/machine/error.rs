//! Machine error definitions.

use vstd::prelude::*;

use crate::machine::LocationInfo;

verus! {

/// Kinds of errors raised while building or running machine logic.
#[derive(Debug, Clone)]
pub enum ErrorKind {
    CommandSearchFailed(String),
    ParseError(String),
    InvalidCommandBody(String),
    NoCommandPresent,
    UnknownCommand(String),
    /// A known command whose kind is not built here.
    CommandNotAvailable(String),
    CoreError(String),
    Other(String),
}

/// Machine error: what went wrong and where.
#[derive(Debug, Clone)]
pub struct Error {
    pub location: LocationInfo,
    pub kind: ErrorKind,
}

impl Error {
    /// Creates a new error at the given location.
    pub fn new(location: LocationInfo, kind: ErrorKind) -> (res: Error)
        ensures
            res.location == location,
            res.kind == kind,
    {
        Error { location, kind }
    }
}

/// Result type of machine operations.
pub type Result<T> = core::result::Result<T, Error>;

} // verus!
