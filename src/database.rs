//! Failures of the storage collaborator, as the rest of the core sees them.
use crate::config;
use vstd::prelude::*;

verus! {

/// A failure of the storage layer. Each carries the driver's message for the
/// log; none of it reaches a client.
#[derive(Clone, Debug)]
pub enum Error {
    ConnectionError(String),
    MigrateError(String),
    InvalidDatabaseConfiguration(config::Error),
}

/// What the storage layer reported when a statement failed.
#[derive(Clone, Debug)]
pub struct StorageFailure {
    /// The statement broke a unique constraint.
    pub unique_violation: bool,
    /// The driver's message, for the log.
    pub detail: String,
}

} // verus!
