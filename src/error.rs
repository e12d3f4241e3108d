//! The error of the whole service, into which every layer's error converts,
//! so that one logging stage can read any of them.
use crate::auth;
use crate::config;
use crate::controller;
use crate::database;
use crate::response::{is_internal_server_error, ErrorResponse};
use vstd::prelude::*;

verus! {

/// Any error of the service.
#[derive(Debug)]
pub enum Error {
    Config(config::Error),
    Database(database::Error),
    Controller(controller::Error),
    /// An I/O failure; its message.
    Io(String),
    /// Any other failure; its message.
    Other(String),
}

impl Error {
    /// At this level nothing more specific than 500 can be answered.
    pub fn response(&self) -> (r: ErrorResponse)
        ensures
            is_internal_server_error(r),
    {
        ErrorResponse::internal_server_error()
    }
}

impl From<auth::Error> for Error {
    fn from(e: auth::Error) -> (r: Error) {
        Error::Controller(controller::Error::Auth(e))
    }
}

impl vstd::std_specs::convert::FromSpecImpl<auth::Error> for Error {
    open spec fn obeys_from_spec() -> bool {
        true
    }

    open spec fn from_spec(e: auth::Error) -> Error {
        Error::Controller(controller::Error::Auth(e))
    }
}

impl From<config::Error> for Error {
    fn from(e: config::Error) -> (r: Error) {
        Error::Config(e)
    }
}

impl vstd::std_specs::convert::FromSpecImpl<config::Error> for Error {
    open spec fn obeys_from_spec() -> bool {
        true
    }

    open spec fn from_spec(e: config::Error) -> Error {
        Error::Config(e)
    }
}

impl From<database::Error> for Error {
    fn from(e: database::Error) -> (r: Error) {
        Error::Database(e)
    }
}

impl vstd::std_specs::convert::FromSpecImpl<database::Error> for Error {
    open spec fn obeys_from_spec() -> bool {
        true
    }

    open spec fn from_spec(e: database::Error) -> Error {
        Error::Database(e)
    }
}

} // verus!
