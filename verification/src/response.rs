//! The public response envelope and the one place errors are translated
//! into it.

use vstd::prelude::*;

use crate::error::{spec_message_for, spec_name_for, spec_status_for, Error};

verus! {

/// Where the field that caused a request failure was located.
#[derive(Debug, Clone, Copy, PartialEq, Eq, Structural)]
pub enum ErrorLocation {
    Body,
    Header,
    Path,
}

/// Whether the envelope reports success or failure.
#[derive(Debug, Clone, Copy, PartialEq, Eq, Structural)]
pub enum ResponseStatus {
    Success,
    Failure,
}

/// One offending request field in a failure envelope.
#[derive(Debug)]
pub struct ErrorField {
    pub field: String,
    pub description: String,
    pub location: ErrorLocation,
}

/// One error entry in a failure envelope.
#[derive(Debug)]
pub struct ResponseError {
    pub name: String,
    pub message: String,
}

/// The response envelope: a success or failure marker, the HTTP status that
/// carries the semantic result, and, on failure, the errors and offending
/// fields.
#[derive(Debug)]
pub struct Response {
    pub status: ResponseStatus,
    pub status_code: u16,
    pub errors: Option<Vec<ResponseError>>,
    pub fields: Option<Vec<ErrorField>>,
}

impl Response {
    /// A success envelope carrying the given HTTP status.
    pub fn new_success(status: u16) -> (r: Response)
        ensures
            r.status == ResponseStatus::Success,
            r.status_code == status,
            r.errors is None,
            r.fields is None,
    {
        Response { status: ResponseStatus::Success, status_code: status, errors: None, fields: None }
    }

    /// A failure envelope carrying the given HTTP status, errors and
    /// offending fields.
    pub fn new_failure(status: u16, errors: Vec<ResponseError>, fields: Vec<ErrorField>) -> (r:
        Response)
        ensures
            r.status == ResponseStatus::Failure,
            r.status_code == status,
            r.errors matches Some(e) && e@ == errors@,
            r.fields matches Some(f) && f@ == fields@,
    {
        Response {
            status: ResponseStatus::Failure,
            status_code: status,
            errors: Some(errors),
            fields: Some(fields),
        }
    }
}

impl Default for Response {
    /// A plain success envelope with HTTP status 200.
    fn default() -> (r: Response)
        ensures
            r.status == ResponseStatus::Success,
            r.status_code == 200,
            r.errors is None,
            r.fields is None,
    {
        Response::new_success(200)
    }
}

/// Translates an error into the public failure envelope, once, at the
/// boundary: the envelope carries the error's taxonomy name and the HTTP
/// status class the taxonomy assigns.
pub fn response_for_error(e: &Error) -> (r: Response)
    ensures
        r.status == ResponseStatus::Failure,
        r.status_code == spec_status_for(*e),
        r.errors matches Some(v) && v@.len() == 1 && v@[0].name@ == spec_name_for(*e)
            && v@[0].message@ == spec_message_for(*e),
        r.fields matches Some(f) && f@.len() == 0,
{
    let mut errors: Vec<ResponseError> = Vec::new();
    errors.push(ResponseError { name: e.name(), message: e.message() });
    Response::new_failure(e.status(), errors, Vec::new())
}

} // verus!
