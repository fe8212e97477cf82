//! The closed set of failures a route can end in, and the status each is
//! answered with.

use crate::state::Setting;
use crate::status::Response;
use crate::status::StatusCode;
use crate::store::Query;
use vstd::prelude::*;
use vstd::std_specs::convert::FromSpecImpl;

verus! {

/// The six kinds of failure. The kind alone decides the status a client sees.
#[derive(Clone, Copy, Debug, PartialEq, Eq, Structural)]
pub enum ErrorKind {
    AuthorizationFailure,
    MalformedInput,
    SerializationFailure,
    BackendUnavailable,
    BackendError,
    ConfigurationMissing,
}

impl ErrorKind {
    /// `401` for a refused caller, `400` for input that cannot be used, `500`
    /// for everything else.
    pub open spec fn status(self) -> StatusCode {
        match self {
            ErrorKind::AuthorizationFailure => StatusCode(401),
            ErrorKind::MalformedInput => StatusCode(400),
            _ => StatusCode(500),
        }
    }

    /// The status a failure of this kind is answered with.
    pub fn status_code(self) -> (status: StatusCode)
        ensures
            status == self.status(),
    {
        match self {
            ErrorKind::AuthorizationFailure => StatusCode::unauthorized(),
            ErrorKind::MalformedInput => StatusCode::bad_request(),
            ErrorKind::SerializationFailure => StatusCode::internal_server_error(),
            ErrorKind::BackendUnavailable => StatusCode::internal_server_error(),
            ErrorKind::BackendError => StatusCode::internal_server_error(),
            ErrorKind::ConfigurationMissing => StatusCode::internal_server_error(),
        }
    }
}

/// Why a caller was not let in.
#[derive(Clone, Copy, Debug, PartialEq, Eq, Structural)]
pub enum AuthFault {
    /// The request presents no secret at all.
    MissingToken,
    /// The secret presented is not the configured one.
    WrongToken,
}

/// What was wrong with the form of a request.
#[derive(Debug)]
pub enum InputFault {
    /// The token header holds bytes that are not header text.
    TokenNotText,
    /// The body did not decode; the cause is kept for the log.
    Body(String),
    /// The body decoded, but names no bucket.
    EmptyBucket,
}

/// Which field of a span could not be put into text.
#[derive(Debug)]
pub enum SerializationFault {
    /// The payload, or a location, could not be written as JSON.
    Payload(serde_json::Error),
    /// The instant to stamp a measurement with could not be had.
    Timestamp(jiff::Error),
}

/// How the store let a query down after it was reached.
#[derive(Debug)]
pub enum BackendFault {
    /// It answered with a status outside the success class; the body it sent
    /// is kept for the log.
    Status { query: Query, status: StatusCode, body: Vec<u8> },
    /// It answered with success, but the body is not JSON.
    Undecodable { query: Query, cause: serde_json::Error },
}

/// A failure, with what is needed to diagnose it.
#[derive(Debug)]
pub enum AppError {
    /// No secret was presented, or not the configured one.
    AuthorizationFailure(AuthFault),
    /// The request cannot be read as its route requires.
    MalformedInput(InputFault),
    /// A span could not be built from an accepted request.
    SerializationFailure(SerializationFault),
    /// The store could not be reached for a query; the cause is kept for the log.
    BackendUnavailable { query: Query, cause: String },
    /// The store was reached and failed the query.
    BackendError(BackendFault),
    /// A required secret or credential was not provisioned.
    ConfigurationMissing(Setting),
}

impl AppError {
    /// The kind of this failure.
    pub open spec fn kind_of(self) -> ErrorKind {
        match self {
            AppError::AuthorizationFailure(_) => ErrorKind::AuthorizationFailure,
            AppError::MalformedInput(_) => ErrorKind::MalformedInput,
            AppError::SerializationFailure(_) => ErrorKind::SerializationFailure,
            AppError::BackendUnavailable { .. } => ErrorKind::BackendUnavailable,
            AppError::BackendError(_) => ErrorKind::BackendError,
            AppError::ConfigurationMissing(_) => ErrorKind::ConfigurationMissing,
        }
    }

    /// The status this failure is answered with.
    pub open spec fn status(self) -> StatusCode {
        self.kind_of().status()
    }

    /// The kind of this failure.
    pub fn kind(&self) -> (kind: ErrorKind)
        ensures
            kind == self.kind_of(),
    {
        match self {
            AppError::AuthorizationFailure(_) => ErrorKind::AuthorizationFailure,
            AppError::MalformedInput(_) => ErrorKind::MalformedInput,
            AppError::SerializationFailure(_) => ErrorKind::SerializationFailure,
            AppError::BackendUnavailable { .. } => ErrorKind::BackendUnavailable,
            AppError::BackendError(_) => ErrorKind::BackendError,
            AppError::ConfigurationMissing(_) => ErrorKind::ConfigurationMissing,
        }
    }

    /// The status this failure is answered with.
    pub fn status_code(&self) -> (status: StatusCode)
        ensures
            status == self.status(),
    {
        self.kind().status_code()
    }

    /// The response a client gets for this failure: the status of its kind
    /// and an empty body. Diagnostics are for the operator's log, not for
    /// the client.
    pub fn into_response(self) -> (response: Response)
        ensures
            response.status == self.status(),
            response.body@ == Seq::<u8>::empty(),
    {
        Response { status: self.status_code(), body: Vec::new() }
    }
}

impl From<serde_json::Error> for AppError {
    fn from(cause: serde_json::Error) -> (error: AppError) {
        AppError::SerializationFailure(SerializationFault::Payload(cause))
    }
}

impl FromSpecImpl<serde_json::Error> for AppError {
    open spec fn obeys_from_spec() -> bool {
        true
    }

    open spec fn from_spec(cause: serde_json::Error) -> AppError {
        AppError::SerializationFailure(SerializationFault::Payload(cause))
    }
}

impl From<jiff::Error> for AppError {
    fn from(cause: jiff::Error) -> (error: AppError) {
        AppError::SerializationFailure(SerializationFault::Timestamp(cause))
    }
}

impl FromSpecImpl<jiff::Error> for AppError {
    open spec fn obeys_from_spec() -> bool {
        true
    }

    open spec fn from_spec(cause: jiff::Error) -> AppError {
        AppError::SerializationFailure(SerializationFault::Timestamp(cause))
    }
}

} // verus!
