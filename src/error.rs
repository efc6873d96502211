use vstd::prelude::*;

verus! {

#[verifier::external_type_specification]
#[verifier::external_body]
pub struct ExReqwestError(reqwest::Error);

/// Errors that can occur when using the Valyu API.
#[derive(Debug)]
pub enum ValyuError {
    /// The HTTP request could not be completed (network, DNS, TLS).
    RequestFailed(reqwest::Error),
    /// The API answered with an error, or the task ended without success.
    ApiError(String),
    /// The response body did not have the expected shape.
    ParseError(String),
    /// The API key was refused (HTTP 401 or 403).
    InvalidApiKey,
    /// The request parameters were refused (HTTP 400 where it is told apart).
    InvalidRequest(String),
    /// Too many requests (HTTP 429).
    RateLimitExceeded,
    /// The service is unavailable (HTTP 503).
    ServiceUnavailable,
}

/// What an error says, with its texts as character sequences.
pub ghost enum ErrorView {
    RequestFailed,
    ApiError(Seq<char>),
    ParseError(Seq<char>),
    InvalidApiKey,
    InvalidRequest(Seq<char>),
    RateLimitExceeded,
    ServiceUnavailable,
}

impl View for ValyuError {
    type V = ErrorView;

    open spec fn view(&self) -> ErrorView {
        match self {
            ValyuError::RequestFailed(_) => ErrorView::RequestFailed,
            ValyuError::ApiError(s) => ErrorView::ApiError(s@),
            ValyuError::ParseError(s) => ErrorView::ParseError(s@),
            ValyuError::InvalidApiKey => ErrorView::InvalidApiKey,
            ValyuError::InvalidRequest(s) => ErrorView::InvalidRequest(s@),
            ValyuError::RateLimitExceeded => ErrorView::RateLimitExceeded,
            ValyuError::ServiceUnavailable => ErrorView::ServiceUnavailable,
        }
    }
}

impl ValyuError {
    /// The message that describes this error.
    pub fn message(&self) -> (r: String)
        ensures
            r@ == self@.message(),
    {
        match self {
            ValyuError::RequestFailed(_) => String::from_str("HTTP request failed"),
            ValyuError::ApiError(s) => String::from_str("API error: ").concat(s.as_str()),
            ValyuError::ParseError(s) => String::from_str("Failed to parse API response: ").concat(
                s.as_str(),
            ),
            ValyuError::InvalidApiKey => String::from_str("Invalid API key provided"),
            ValyuError::InvalidRequest(s) => String::from_str("Invalid request parameters: ").concat(
                s.as_str(),
            ),
            ValyuError::RateLimitExceeded => String::from_str("Rate limit exceeded"),
            ValyuError::ServiceUnavailable => String::from_str("Service unavailable"),
        }
    }
}

impl ErrorView {
    /// The message of an error: a fixed prefix per kind, then the detail.
    pub open spec fn message(self) -> Seq<char> {
        match self {
            ErrorView::RequestFailed => "HTTP request failed"@,
            ErrorView::ApiError(s) => "API error: "@ + s,
            ErrorView::ParseError(s) => "Failed to parse API response: "@ + s,
            ErrorView::InvalidApiKey => "Invalid API key provided"@,
            ErrorView::InvalidRequest(s) => "Invalid request parameters: "@ + s,
            ErrorView::RateLimitExceeded => "Rate limit exceeded"@,
            ErrorView::ServiceUnavailable => "Service unavailable"@,
        }
    }
}

} // verus!
