use vstd::prelude::*;
use crate::error::{ErrorView, ValyuError};
use crate::text::decimal;

verus! {

/// The remote operations of the API.
#[derive(Clone, Copy, Debug, PartialEq, Eq, Structural)]
pub enum Endpoint {
    Search,
    Contents,
    Answer,
    CreateTask,
    TaskStatus,
    ListTasks,
    UpdateTask,
    CancelTask,
    DeleteTask,
}

/// The HTTP statuses on which an endpoint goes on to read its response body.
pub open spec fn accepts(e: Endpoint, code: u16) -> bool {
    code == 200 || (code == 206 && (e == Endpoint::Search || e == Endpoint::Contents)) || ((code
        == 201 || code == 202) && e == Endpoint::CreateTask)
}

/// The endpoints that report HTTP 400 as an invalid request of their own.
pub open spec fn tells_invalid_request(e: Endpoint) -> bool {
    e == Endpoint::Contents || e == Endpoint::Answer || e == Endpoint::CreateTask
}

/// A fixed API error message that an endpoint gives for a status, if any.
pub open spec fn fixed_failure(e: Endpoint, code: u16) -> Option<Seq<char>> {
    if code == 402 && tells_invalid_request(e) {
        Some("Insufficient credits"@)
    } else if code == 422 && e == Endpoint::Contents {
        Some("All URLs failed processing"@)
    } else if code == 404 && (e == Endpoint::TaskStatus || e == Endpoint::UpdateTask || e
        == Endpoint::CancelTask || e == Endpoint::DeleteTask) {
        Some("Task not found"@)
    } else {
        None
    }
}

/// The texts of an optional string.
pub open spec fn text_of(o: Option<String>) -> Option<Seq<char>> {
    match o {
        Some(s) => Some(s@),
        None => None,
    }
}

/// The text of `o`, or `default` when there is none.
pub open spec fn text_or(o: Option<Seq<char>>, default: Seq<char>) -> Seq<char> {
    match o {
        Some(s) => s,
        None => default,
    }
}

/// The reason phrase that `http`'s `StatusCode` displays after a valid
/// code: its canonical reason, or a fixed text for a code without one.
pub uninterp spec fn status_reason(code: u16) -> Seq<char>;

/// How a status appears in a generic error message: a valid code in
/// decimal, a space and its reason phrase; any other code in decimal.
pub open spec fn status_label(code: u16) -> Seq<char> {
    if 100 <= code <= 999 {
        decimal(code as nat) + " "@ + status_reason(code)
    } else {
        decimal(code as nat)
    }
}

/// The error for a status that the endpoint does not accept, given the
/// response body's text (`None` where it could not be read).
pub open spec fn status_error(e: Endpoint, code: u16, body: Option<Seq<char>>) -> ErrorView {
    if code == 400 && tells_invalid_request(e) {
        ErrorView::InvalidRequest(text_or(body, "Invalid request parameters"@))
    } else if code == 401 || code == 403 {
        ErrorView::InvalidApiKey
    } else if fixed_failure(e, code) is Some {
        ErrorView::ApiError(fixed_failure(e, code)->0)
    } else if code == 429 {
        ErrorView::RateLimitExceeded
    } else if code == 503 {
        ErrorView::ServiceUnavailable
    } else {
        ErrorView::ApiError(
            "HTTP "@ + status_label(code) + ": "@ + text_or(body, "Unknown error"@),
        )
    }
}

/// The error for a response envelope whose `success` flag is false.
pub open spec fn envelope_error(error: Option<Seq<char>>) -> ErrorView {
    ErrorView::ApiError(text_or(error, "API request was not successful"@))
}

/// Relies on `StatusCode::from_u16` (http, re-exported by reqwest), which
/// accepts exactly the codes 100 to 999, and on its `Display`, which writes
/// the code in decimal, a space, then the reason phrase.
#[verifier::external_body]
fn status_text(code: u16) -> (r: Option<String>)
    ensures
        r is Some <==> 100 <= code <= 999,
        r is Some ==> r->0@ == decimal(code as nat) + " "@ + status_reason(code),
{
    reqwest::StatusCode::from_u16(code).ok().map(|s| s.to_string())
}

/// Maps the HTTP status of a response to the error taxonomy: `Ok` on the
/// statuses the endpoint accepts, the endpoint's error for that status
/// otherwise. `body` is the response text, or `None` where it could not be read.
pub fn check_status(endpoint: Endpoint, code: u16, body: Option<String>) -> (r: Result<
    (),
    ValyuError,
>)
    ensures
        r is Ok <==> accepts(endpoint, code),
        r is Err ==> r->Err_0@ == status_error(endpoint, code, text_of(body)),
{
    if code == 200 || (code == 206 && (endpoint == Endpoint::Search || endpoint
        == Endpoint::Contents)) || ((code == 201 || code == 202) && endpoint
        == Endpoint::CreateTask) {
        return Ok(());
    }
    let distinguishes = endpoint == Endpoint::Contents || endpoint == Endpoint::Answer || endpoint
        == Endpoint::CreateTask;
    if code == 400 && distinguishes {
        let detail = match body {
            Some(t) => t,
            None => String::from_str("Invalid request parameters"),
        };
        return Err(ValyuError::InvalidRequest(detail));
    }
    if code == 401 || code == 403 {
        return Err(ValyuError::InvalidApiKey);
    }
    if code == 402 && distinguishes {
        return Err(ValyuError::ApiError(String::from_str("Insufficient credits")));
    }
    if code == 422 && endpoint == Endpoint::Contents {
        return Err(ValyuError::ApiError(String::from_str("All URLs failed processing")));
    }
    if code == 404 && (endpoint == Endpoint::TaskStatus || endpoint == Endpoint::UpdateTask
        || endpoint == Endpoint::CancelTask || endpoint == Endpoint::DeleteTask) {
        return Err(ValyuError::ApiError(String::from_str("Task not found")));
    }
    if code == 429 {
        return Err(ValyuError::RateLimitExceeded);
    }
    if code == 503 {
        return Err(ValyuError::ServiceUnavailable);
    }
    let label = match status_text(code) {
        Some(t) => t,
        None => crate::text::u64_to_decimal(code as u64),
    };
    let detail = match body {
        Some(t) => t,
        None => String::from_str("Unknown error"),
    };
    let message = String::from_str("HTTP ").concat(label.as_str()).concat(": ").concat(
        detail.as_str(),
    );
    Err(ValyuError::ApiError(message))
}

/// Checks the `success` flag of a decoded response envelope: an API error
/// with the envelope's `error` text (or a generic message) when it is false.
pub fn check_success(success: bool, error: &Option<String>) -> (r: Result<(), ValyuError>)
    ensures
        r is Ok <==> success,
        r is Err ==> r->Err_0@ == envelope_error(text_of(*error)),
{
    if success {
        return Ok(());
    }
    match error {
        Some(e) => Err(ValyuError::ApiError(e.clone())),
        None => Err(ValyuError::ApiError(String::from_str("API request was not successful"))),
    }
}

/// The error for a response body that could not be decoded.
pub fn parse_failure(detail: &str) -> (r: ValyuError)
    ensures
        r@ == ErrorView::ParseError("Failed to parse API response: "@ + detail@),
{
    ValyuError::ParseError(String::from_str("Failed to parse API response: ").concat(detail))
}

/// The error kinds of refused statuses, for every endpoint: 401 and 403 are
/// an invalid key, 429 the rate limit, 503 an unavailable service, 400 an
/// invalid request on the endpoints that tell it apart, and any other refused
/// status an API error.
pub proof fn refused_status_kinds(e: Endpoint, code: u16, body: Option<Seq<char>>)
    requires
        !accepts(e, code),
    ensures
        code == 401 || code == 403 ==> status_error(e, code, body) == ErrorView::InvalidApiKey,
        code == 429 ==> status_error(e, code, body) == ErrorView::RateLimitExceeded,
        code == 503 ==> status_error(e, code, body) == ErrorView::ServiceUnavailable,
        code == 400 ==> (status_error(e, code, body) is InvalidRequest <==> tells_invalid_request(e)),
        code == 400 && !tells_invalid_request(e) ==> status_error(e, code, body) is ApiError,
        code != 400 && code != 401 && code != 403 && code != 429 && code != 503 ==> status_error(
            e,
            code,
            body,
        ) is ApiError,
{
}

} // verus!
