//! Library-wide error type.

use vstd::prelude::*;

use crate::address::Address;
use crate::{CompName, EntityName, StringId};

verus! {

/// Errors of the library's operations.
#[derive(Debug)]
pub enum Error {
    UnexpectedResponse(String),
    FailedConversion(String),
    Other(String),
    IntParseError(String),
    SemverError(String),
    LeaderNotInitialized(String),
    WorkerNotInitialized(String),
    ScenarioMissingModule(String),
    NoEntityPrefab(EntityName),
    NoComponentModel(CompName),
    FailedGettingVarFromEntityStorage((CompName, StringId)),
    FailedGettingVar(Address),
    LeaderNotSelected(String),
    Forbidden(String),
    WorkerNotConnected(String),
    Unknown,
}

/// Result type of the library's operations.
pub type Result<T> = core::result::Result<T, Error>;

} // verus!
