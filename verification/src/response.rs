//! What a client receives: a status with a body.
//!
//! A client is shown the status, the message and the detail of an error
//! under a correlation identifier. The chain of causes and the capture point
//! never leave the server; an internal fault is handed back to be logged
//! under the same identifier.

use crate::apierror::{clone_detail, ApiError, HTTP_BACKEND_FAILURE};
use vstd::prelude::*;

verus! {

/// A universally unique identifier. Values of this type are only carried
/// along: nothing here reads them.
#[verifier::external_type_specification]
#[verifier::external_body]
pub struct ExUuid(uuid::Uuid);

/// `uuid::Uuid::new_v4` makes a random identifier. The result depends on
/// chance, so nothing is stated of it.
#[verifier::external_body]
fn new_correlation_id() -> (id: uuid::Uuid) {
    uuid::Uuid::new_v4()
}

/// Status of a successful response.
pub const HTTP_OK: u16 = 200;

/// The body of an error response.
#[derive(Debug)]
pub struct ResponseError {
    /// The identifier under which the error is logged
    pub uuid: uuid::Uuid,
    /// The message of the error
    pub message: String,
    /// The detail of the error, if any
    pub details: Option<String>,
}

impl ResponseError {
    /// A body with the given identifier, message and detail.
    pub fn new(uuid: uuid::Uuid, message: String, details: Option<String>) -> (body: ResponseError)
        ensures
            body == (ResponseError { uuid, message, details }),
    {
        ResponseError { uuid, message, details }
    }
}

/// An error response: the status, the body, and the error itself where it
/// must be logged.
#[derive(Debug)]
pub struct ErrorResponse {
    /// The status of the response
    pub status: u16,
    /// The body of the response
    pub body: ResponseError,
    /// The error to log under the identifier of the body, if any
    pub to_log: Option<ApiError>,
}

/// Defines an API response
pub type ApiResult<T> = Result<(u16, T), ErrorResponse>;

/// Whether an error that is answered with this status is logged: internal
/// faults are, and nothing else.
pub open spec fn is_logged(http: u16) -> bool {
    http == HTTP_BACKEND_FAILURE
}

/// The error response of `error` under the status `http` and the identifier
/// `uuid`. The body shows the message and the detail of the error and
/// nothing else of it.
pub open spec fn error_response_of(http: u16, error: ApiError, uuid: uuid::Uuid) -> ErrorResponse {
    ErrorResponse {
        status: http,
        body: ResponseError { uuid, message: error.message, details: error.details },
        to_log: if is_logged(http) {
            Some(error)
        } else {
            None
        },
    }
}

/// Produces the error response of `error` under the status `http` and the
/// identifier `uuid`.
pub fn error_response(http: u16, error: ApiError, uuid: uuid::Uuid) -> (response: ErrorResponse)
    ensures
        response == error_response_of(http, error, uuid),
{
    let body = ResponseError::new(uuid, error.message.clone(), clone_detail(&error.details));
    let to_log = if http == HTTP_BACKEND_FAILURE {
        Some(error)
    } else {
        None
    };
    ErrorResponse { status: http, body, to_log }
}

/// Produces an error response under a fresh identifier.
pub fn response_error_http(http: u16, error: ApiError) -> (response: ErrorResponse)
    ensures
        response == error_response_of(http, error, response.body.uuid),
{
    let uuid = new_correlation_id();
    error_response(http, error, uuid)
}

/// Produces an error response under the status of the error.
pub fn response_error(error: ApiError) -> (response: ErrorResponse)
    ensures
        response == error_response_of(error.http, error, response.body.uuid),
{
    let http = error.http;
    response_error_http(http, error)
}

/// Produces an OK response
pub fn response_ok<T>(data: T) -> (response: (u16, T))
    ensures
        response == (HTTP_OK, data),
{
    (HTTP_OK, data)
}

/// Maps a service result to a web api result: a value to an OK response, an
/// error to its error response.
pub fn response<T>(result: Result<T, ApiError>) -> (mapped: ApiResult<T>)
    ensures
        match result {
            Ok(data) => mapped == Ok::<(u16, T), ErrorResponse>((HTTP_OK, data)),
            Err(error) => mapped matches Err(r) && r == error_response_of(
                error.http,
                error,
                r.body.uuid,
            ),
        },
{
    match result {
        Ok(data) => Ok(response_ok(data)),
        Err(error) => Err(response_error(error)),
    }
}

} // verus!
