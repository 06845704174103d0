//! Failed requests: what the client is told, and what the log is told.

use vstd::prelude::*;
use vstd::string::*;

verus! {

/// A failed request.
#[derive(Debug)]
pub struct HttpFailure {
    /// The HTTP status of the response.
    pub status_code: u16,
    /// A short code that programs can test.
    pub error_code: Option<String>,
    /// The message for the client.
    pub external_message: String,
    /// The message for the log.
    pub internal_message: String,
}

/// What an [`HttpFailure`] holds.
pub struct HttpFailureView {
    pub status_code: u16,
    pub error_code: Option<Seq<char>>,
    pub external_message: Seq<char>,
    pub internal_message: Seq<char>,
}

impl View for HttpFailure {
    type V = HttpFailureView;

    open spec fn view(&self) -> HttpFailureView {
        HttpFailureView {
            status_code: self.status_code,
            error_code: match self.error_code {
                Some(code) => Some(code@),
                None => None,
            },
            external_message: self.external_message@,
            internal_message: self.internal_message@,
        }
    }
}

pub const BAD_REQUEST: u16 = 400;

pub const UNAUTHORIZED: u16 = 401;

pub const CONFLICT: u16 = 409;

/// The request was at fault: one message, for the client and for the log.
pub open spec fn client_failure(status_code: u16, message: Seq<char>) -> HttpFailureView {
    HttpFailureView {
        status_code,
        error_code: None,
        external_message: message,
        internal_message: message,
    }
}

/// The service was at fault: the message is for the log alone.
pub open spec fn internal_failure(message: Seq<char>) -> HttpFailureView {
    HttpFailureView {
        status_code: 500,
        error_code: Some("Internal"@),
        external_message: "Internal Server Error"@,
        internal_message: message,
    }
}

/// Calls `dropshot::HttpError::for_client_error`, which keeps the code and the
/// status that it is given, and uses the one message for both messages.  It
/// panics on a status that is not in the 400s.
#[verifier::external_body]
fn for_client_error(error_code: Option<String>, status_code: u16, message: String) -> (failure:
    HttpFailure)
    requires
        400 <= status_code < 500,
    ensures
        failure.status_code == status_code,
        failure.error_code == error_code,
        failure.external_message@ == message@,
        failure.internal_message@ == message@,
{
    let status = hyper::StatusCode::from_u16(status_code).unwrap();
    let error = dropshot::HttpError::for_client_error(error_code, status, message);
    HttpFailure {
        status_code: error.status_code.as_u16(),
        error_code: error.error_code,
        external_message: error.external_message,
        internal_message: error.internal_message,
    }
}

/// Calls `dropshot::HttpError::for_internal_error`, which keeps the message for
/// the log and fills in the rest: status 500, the code "Internal", and the
/// standard phrase of that status as the message for the client.
#[verifier::external_body]
pub(crate) fn for_internal_error(internal_message: String) -> (failure: HttpFailure)
    ensures
        failure@ == internal_failure(internal_message@),
{
    let error = dropshot::HttpError::for_internal_error(internal_message);
    HttpFailure {
        status_code: error.status_code.as_u16(),
        error_code: error.error_code,
        external_message: error.external_message,
        internal_message: error.internal_message,
    }
}

/// The failure of a request that was at fault.
pub fn client_error(status_code: u16, message: &str) -> (failure: HttpFailure)
    requires
        400 <= status_code < 500,
    ensures
        failure@ == client_failure(status_code, message@),
        failure.status_code == status_code,
        failure.error_code is None,
        failure.external_message@ == message@,
        failure.internal_message@ == message@,
{
    for_client_error(None, status_code, message.to_owned())
}

/// Passes a success on, and turns an error, written out, into a failure of the
/// service.
pub fn or_500<T>(result: Result<T, String>) -> (r: Result<T, HttpFailure>)
    ensures
        match result {
            Ok(value) => r == Ok::<T, HttpFailure>(value),
            Err(detail) => r matches Err(failure) && {
                &&& failure@ == internal_failure("internal error: "@ + detail@)
                &&& failure.status_code == 500
                &&& failure.error_code matches Some(code) && code@ == "Internal"@
                &&& failure.external_message@ == "Internal Server Error"@
                &&& failure.internal_message@ == "internal error: "@ + detail@
            },
        },
{
    match result {
        Ok(value) => Ok(value),
        Err(detail) => Err(
            for_internal_error("internal error: ".to_owned().concat(detail.as_str())),
        ),
    }
}

} // verus!
