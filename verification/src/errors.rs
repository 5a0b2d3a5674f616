//! Error values of the server layer and their public-facing HTTP shape.
//!
//! Internal errors carry what went wrong; what a client sees is fixed by
//! [`Error::response_parts`]: a status code and an [`ErrorDetail`] payload
//! that never leaks internals beyond the chosen wording.

use vstd::prelude::*;

verus! {

/// One validation failure of a model, by error code and optional message.
pub struct ModelValidation {
    /// Machine-readable error code.
    pub code: String,
    /// Optional human-readable message.
    pub message: Option<String>,
}

/// The public-facing payload of an error response.
pub struct ErrorDetail {
    /// Machine-readable error tag.
    pub error: Option<String>,
    /// Human-readable description.
    pub description: Option<String>,
}

/// The contents of an optional string field.
pub open spec fn opt_view(p: &Option<String>) -> Option<Seq<char>> {
    match p {
        Some(s) => Some(s@),
        None => None,
    }
}

impl ErrorDetail {
    /// A payload with both an error tag and a description.
    pub fn new(error: &str, description: &str) -> (r: ErrorDetail)
        ensures
            opt_view(&r.error) == Some(error@),
            opt_view(&r.description) == Some(description@),
    {
        ErrorDetail { error: Some(error.to_owned()), description: Some(description.to_owned()) }
    }

    /// A payload with an error tag alone.
    pub fn with_reason(error: &str) -> (r: ErrorDetail)
        ensures
            opt_view(&r.error) == Some(error@),
            r.description is None,
    {
        ErrorDetail { error: Some(error.to_owned()), description: None }
    }
}

/// An error of the server layer.
pub enum Error {
    /// A plain message.
    Message(String),
    /// The caller may not access the resource; the string is logged, never
    /// shown.
    Unauthorized(String),
    /// The resource does not exist.
    NotFound,
    /// The request was malformed; the string is internal.
    BadRequest(String),
    /// An error with a caller-chosen status code and payload.
    CustomError(u16, ErrorDetail),
    /// An unspecified internal failure.
    InternalServerError,
}

impl Error {
    /// An error from a plain message.
    pub fn string(s: &str) -> (r: Error)
        ensures
            r matches Error::Message(m) && m@ == s@,
    {
        Error::Message(s.to_owned())
    }

    /// The status code and public-facing payload of this error's HTTP
    /// response: not-found and internal errors keep their own wording,
    /// unauthorized hides its reason, a custom error passes through, and
    /// everything else is answered as a generic bad request.
    pub fn response_parts(self) -> (r: (u16, ErrorDetail))
        ensures
            self is NotFound ==> r.0 == 404 && opt_view(&r.1.error) == Some("not_found"@)
                && opt_view(&r.1.description) == Some("Resource was not found"@),
            self is InternalServerError ==> r.0 == 500 && opt_view(&r.1.error) == Some(
                "internal_server_error"@,
            ) && opt_view(&r.1.description) == Some("Internal Server Error"@),
            self is Unauthorized ==> r.0 == 401 && opt_view(&r.1.error) == Some("unauthorized"@)
                && opt_view(&r.1.description) == Some(
                "You do not have permission to access this resource"@,
            ),
            self matches Error::CustomError(code, detail) ==> r.0 == code && r.1 == detail,
            self is Message || self is BadRequest ==> r.0 == 400 && opt_view(&r.1.error) == Some(
                "Bad Request"@,
            ) && r.1.description is None,
    {
        match self {
            Error::NotFound => (404, ErrorDetail::new("not_found", "Resource was not found")),
            Error::InternalServerError => (
                500,
                ErrorDetail::new("internal_server_error", "Internal Server Error"),
            ),
            Error::Unauthorized(_) => (
                401,
                ErrorDetail::new(
                    "unauthorized",
                    "You do not have permission to access this resource",
                ),
            ),
            Error::CustomError(code, detail) => (code, detail),
            Error::Message(_) | Error::BadRequest(_) => (
                400,
                ErrorDetail::with_reason("Bad Request"),
            ),
        }
    }
}

} // verus!
