//! Status codes and error replies of the REST layer.
use vstd::prelude::*;

verus! {

/// The HTTP statuses with which the asset service refuses a request.
#[derive(Clone, Copy, Debug, PartialEq, Eq, Structural)]
pub enum StatusCode {
    BadRequest,
    NotFound,
    InternalServerError,
    ServiceUnavailable,
}

/// The numeric HTTP code of a status.
pub open spec fn status_number(s: StatusCode) -> u16 {
    match s {
        StatusCode::BadRequest => 400,
        StatusCode::NotFound => 404,
        StatusCode::InternalServerError => 500,
        StatusCode::ServiceUnavailable => 503,
    }
}

impl StatusCode {
    /// The numeric HTTP code, as sent on the wire.
    pub fn as_u16(&self) -> (code: u16)
        ensures
            code == status_number(*self),
    {
        match self {
            StatusCode::BadRequest => 400,
            StatusCode::NotFound => 404,
            StatusCode::InternalServerError => 500,
            StatusCode::ServiceUnavailable => 503,
        }
    }
}

/// A refused request: the status and the text sent with it.
#[derive(Debug)]
pub struct ApiError {
    pub status: StatusCode,
    pub message: String,
}

impl ApiError {
    /// This error carries `status` and the text `message`.
    pub open spec fn is(self, status: StatusCode, message: Seq<char>) -> bool {
        self.status == status && self.message@ == message
    }
}

/// What went wrong in a failed call to the storage service, as far as the
/// request's reply depends on it.
#[derive(Clone, Copy, Debug, PartialEq, Eq, Structural)]
pub enum StorageErrorKind {
    /// Storage holds no record with the id asked for.
    NotFound,
    /// Any other failure.
    Other,
}

/// A failed call to the storage service: its kind and its text.
#[derive(Debug)]
pub struct StorageError {
    pub kind: StorageErrorKind,
    pub message: String,
}

/// The text sent when the storage service cannot be reached.
pub open spec fn storage_unavailable_text() -> Seq<char> {
    "svc-storage unavailable."@
}

/// An error made of a status and a text.
pub fn api_error(status: StatusCode, message: String) -> (e: ApiError)
    ensures
        e.status == status,
        e.message@ == message@,
{
    ApiError { status, message }
}

/// The reply to a request that needs storage while the storage client is missing.
pub fn storage_unavailable() -> (e: ApiError)
    ensures
        e.is(StatusCode::ServiceUnavailable, storage_unavailable_text()),
{
    api_error(StatusCode::ServiceUnavailable, "svc-storage unavailable.".to_owned())
}

/// The reply to a storage call that failed: its error text, with status 500.
pub fn storage_failure(message: String) -> (e: ApiError)
    ensures
        e.is(StatusCode::InternalServerError, message@),
{
    api_error(StatusCode::InternalServerError, message)
}

} // verus!
