//! What one HTTP GET came to. The request itself is made by the caller; this
//! module gives its outcome a class and a text.

use vstd::prelude::*;
use crate::text::join;

verus! {

/// Model of [`ApiError`].
pub enum TransportError {
    /// The request did not complete: connection, name resolution or TLS.
    Network(Seq<char>),
    /// A body arrived that is not of the expected shape; the decoder's words.
    DecodeFailure(Seq<char>),
    /// The request ran out of time.
    Timeout,
}

/// The text that `{:?}` gives for a string: the string in double quotes, with
/// the characters escaped that Rust escapes there.
pub uninterp spec fn debug_quoted(text: Seq<char>) -> Seq<char>;

/// Text of an undecodable reply, given the decoder's words already quoted.
pub open spec fn invalid_response_text(quoted: Seq<char>) -> Seq<char> {
    "InvalidResponse("@ + quoted + ")"@
}

impl TransportError {
    /// The error as it is shown inside a failure message.
    pub open spec fn rendered(self) -> Seq<char> {
        match self {
            TransportError::Network(detail) => "NetworkError("@ + detail + ")"@,
            TransportError::DecodeFailure(message) => invalid_response_text(debug_quoted(message)),
            TransportError::Timeout => "Timeout"@,
        }
    }
}

/// Why a GET gave no value.
#[derive(Debug, PartialEq, Eq)]
pub enum ApiError {
    /// The request did not complete. Holds the transport's own description.
    NetworkError(String),
    /// A body arrived and did not decode. Holds the decoder's diagnostic, and
    /// nothing of what was decoded before it gave up.
    InvalidResponse(String),
    /// The request ran out of time.
    Timeout,
}

impl View for ApiError {
    type V = TransportError;

    open spec fn view(&self) -> TransportError {
        match self {
            ApiError::NetworkError(detail) => TransportError::Network(detail@),
            ApiError::InvalidResponse(message) => TransportError::DecodeFailure(message@),
            ApiError::Timeout => TransportError::Timeout,
        }
    }
}

/// What came back from one GET, before it is given a meaning.
pub enum Exchange<T> {
    /// No body arrived. `detail` is the transport's description of the failure.
    Failed { timed_out: bool, detail: String },
    /// The whole body arrived and did not decode into `T`.
    Undecodable(String),
    /// The whole body arrived and decoded.
    Decoded(T),
}

/// Calls `<str as Debug>::fmt` through `format!`. Trusted: the result is the
/// Debug text of `text`, which depends on the characters of `text` alone.
#[verifier::external_body]
fn quote(text: &str) -> (shown: String)
    ensures
        shown@ == debug_quoted(text@),
{
    format!("{:?}", text)
}

/// Text of an undecodable reply, given the decoder's words already quoted.
pub fn render_invalid_response(quoted: &str) -> (shown: String)
    ensures
        shown@ == invalid_response_text(quoted@),
{
    let head = join("InvalidResponse(", quoted);
    join(head.as_str(), ")")
}

impl ApiError {
    /// The error as it is shown inside a failure message.
    pub fn describe(&self) -> (shown: String)
        ensures
            shown@ == self@.rendered(),
    {
        match self {
            ApiError::NetworkError(detail) => {
                let head = join("NetworkError(", detail.as_str());
                join(head.as_str(), ")")
            },
            ApiError::InvalidResponse(message) => {
                let quoted = quote(message.as_str());
                render_invalid_response(quoted.as_str())
            },
            ApiError::Timeout => "Timeout".to_owned(),
        }
    }
}

/// Classifies the outcome of one GET. A request that failed is a timeout if the
/// transport says so and a network error otherwise; a body that did not decode
/// is an invalid response; a decoded body is the value. Nothing is retried.
pub fn get<T>(exchange: Exchange<T>) -> (outcome: Result<T, ApiError>)
    ensures
        outcome == match exchange {
            Exchange::Failed { timed_out, detail } => if timed_out {
                Err(ApiError::Timeout)
            } else {
                Err(ApiError::NetworkError(detail))
            },
            Exchange::Undecodable(message) => Err(ApiError::InvalidResponse(message)),
            Exchange::Decoded(value) => Ok(value),
        },
{
    match exchange {
        Exchange::Failed { timed_out, detail } => {
            if timed_out {
                Err(ApiError::Timeout)
            } else {
                Err(ApiError::NetworkError(detail))
            }
        },
        Exchange::Undecodable(message) => Err(ApiError::InvalidResponse(message)),
        Exchange::Decoded(value) => Ok(value),
    }
}

} // verus!
