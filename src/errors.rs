//! The error taxonomy of the request pipeline, and the process's errors.
use vstd::prelude::*;
use crate::config::ConfigError;
use crate::storage::StorageError;

verus! {

/// How a request fails, as the client sees it.
#[derive(Debug, Clone, Copy, PartialEq, Eq, Structural)]
pub enum ServerError {
    /// The cache key is malformed.
    BadRequest,
    /// The bearer credential is missing, malformed or unknown.
    Unauthorized,
    /// An artifact is already stored under the key.
    Conflict,
    /// No artifact is stored under the key.
    NotFound,
    /// The storage backend failed; its details stay on the server.
    Internal,
}

/// The HTTP status code that answers each failure.
pub open spec fn status_of(e: ServerError) -> u16 {
    match e {
        ServerError::BadRequest => 400,
        ServerError::Unauthorized => 401,
        ServerError::Conflict => 409,
        ServerError::NotFound => 404,
        ServerError::Internal => 500,
    }
}

impl ServerError {
    /// The HTTP status code of this failure.
    pub fn status_code(&self) -> (r: u16)
        ensures
            r == status_of(*self),
    {
        match self {
            ServerError::BadRequest => 400,
            ServerError::Unauthorized => 401,
            ServerError::Conflict => 409,
            ServerError::NotFound => 404,
            ServerError::Internal => 500,
        }
    }
}

/// The errors of the process as a whole.
#[derive(Debug)]
pub enum AppError {
    /// The storage backend failed.
    Storage(StorageError),
    /// The configuration was refused.
    Config(ConfigError),
    /// The server could not run.
    Server(String),
}

impl From<StorageError> for AppError {
    fn from(e: StorageError) -> (r: AppError)
        ensures
            r == AppError::Storage(e),
    {
        AppError::Storage(e)
    }
}

impl vstd::std_specs::convert::FromSpecImpl<StorageError> for AppError {
    open spec fn obeys_from_spec() -> bool {
        true
    }

    open spec fn from_spec(v: StorageError) -> AppError {
        AppError::Storage(v)
    }
}

impl From<ConfigError> for AppError {
    fn from(e: ConfigError) -> (r: AppError)
        ensures
            r == AppError::Config(e),
    {
        AppError::Config(e)
    }
}

impl vstd::std_specs::convert::FromSpecImpl<ConfigError> for AppError {
    open spec fn obeys_from_spec() -> bool {
        true
    }

    open spec fn from_spec(v: ConfigError) -> AppError {
        AppError::Config(v)
    }
}

} // verus!
