//! Failures of indexer requests and how responses and transport errors map
//! onto them.

use vstd::prelude::*;
use vstd::string::*;

use super::transport::{
    error_is_builder, error_is_timeout, http_error_from_builder, http_error_message, http_error_text,
    http_error_times_out,
};
use crate::text::{decimal_digits, decimal_text, lossy_text, utf8_lossy};
use vstd::utf8::{decode_utf8, valid_utf8};

verus! {

/// Why a request to the indexer failed.
#[derive(Debug)]
pub enum IndexerClientError {
    /// The HTTP client could not be built from the configuration.
    InvalidConfig(String),
    /// The request did not complete within the configured timeout.
    Timeout,
    /// The request could not be sent or its response could not be read.
    Transport(String),
    /// The indexer answered 404; the message it gave.
    NotFound(String),
    /// The indexer answered with another non-success status.
    Api { status: u16, code: String, message: String },
    /// The response body is not the JSON that was expected.
    Decode(String),
}

/// The `error` object of the indexer's error envelope.
#[derive(Debug, Clone)]
pub struct ApiErrorDetail {
    pub code: String,
    pub message: String,
}

/// The indexer's error envelope: `{"error": {"code": .., "message": ..}}`.
#[derive(Debug, Clone)]
pub struct ApiErrorBody {
    pub error: ApiErrorDetail,
}

/// The error code reported for a failed response: the envelope's, or
/// "unknown" when the body is not an envelope.
pub open spec fn api_error_code(envelope: Option<ApiErrorBody>) -> Seq<char> {
    match envelope {
        Some(e) => e.error.code@,
        None => "unknown"@,
    }
}

/// The message reported for a failed response: the envelope's, or the body
/// itself, decoded as UTF-8 with invalid sequences replaced.
pub open spec fn api_error_message(envelope: Option<ApiErrorBody>, body: Seq<u8>) -> Seq<char> {
    match envelope {
        Some(e) => e.error.message@,
        None => utf8_lossy(body),
    }
}

/// `e` is the error that a failed response with `status`, reporting `code`
/// and `message`, maps to: `NotFound` for 404, `Api` otherwise.
pub open spec fn is_api_failure(
    e: IndexerClientError,
    status: u16,
    code: Seq<char>,
    message: Seq<char>,
) -> bool {
    if status == 404 {
        e matches IndexerClientError::NotFound(m) && m@ == message
    } else {
        e matches IndexerClientError::Api { status: s, code: c, message: m } && s == status && c@
            == code && m@ == message
    }
}

/// Maps a failed response onto an error. `envelope` is the body read as the
/// indexer's error envelope, or `None` when it is not one; the body's raw
/// text then stands in for the message and the code is "unknown".
pub fn map_api_error(status: u16, envelope: Option<ApiErrorBody>, body: &[u8]) -> (e:
    IndexerClientError)
    ensures
        is_api_failure(e, status, api_error_code(envelope), api_error_message(envelope, body@)),
        e is NotFound <==> status == 404,
        e is Api <==> status != 404,
        envelope is None && valid_utf8(body@) ==> api_error_message(envelope, body@)
            == decode_utf8(body@),
{
    let (code, message) = match envelope {
        Some(parsed) => (parsed.error.code, parsed.error.message),
        None => (String::from_str("unknown"), lossy_text(body)),
    };
    if status == 404 {
        IndexerClientError::NotFound(message)
    } else {
        IndexerClientError::Api { status, code, message }
    }
}

/// `e` is the error for a transport failure with these traits: a timeout
/// wins over a builder failure, and anything else is a transport error.
pub open spec fn is_transport_failure(
    e: IndexerClientError,
    is_timeout: bool,
    is_builder: bool,
    text: Seq<char>,
) -> bool {
    if is_timeout {
        e is Timeout
    } else if is_builder {
        e matches IndexerClientError::InvalidConfig(m) && m@ == text
    } else {
        e matches IndexerClientError::Transport(m) && m@ == text
    }
}

/// What a failed response maps to: `NotFound` exactly for status 404 and
/// `Api` with the response's own status for every other one. The code and
/// message are the envelope's whenever there is an envelope, whatever the
/// status; without one the code is "unknown" and the message is the body's
/// text.
pub proof fn lemma_api_failure_cases(
    e: IndexerClientError,
    status: u16,
    envelope: Option<ApiErrorBody>,
    body: Seq<u8>,
)
    requires
        is_api_failure(e, status, api_error_code(envelope), api_error_message(envelope, body)),
    ensures
        e is NotFound <==> status == 404,
        e is Api <==> status != 404,
        envelope is Some && status != 404 ==> (e matches IndexerClientError::Api {
            status: s,
            code: c,
            message: m,
        } && s == status && c@ == envelope->0.error.code@ && m@ == envelope->0.error.message@),
        envelope is Some && status == 404 ==> (e matches IndexerClientError::NotFound(m)
            && m@ == envelope->0.error.message@),
        envelope is None && status != 404 ==> (e matches IndexerClientError::Api {
            status: s,
            code: c,
            message: m,
        } && s == status && c@ == "unknown"@ && m@ == utf8_lossy(body)),
        envelope is None && status == 404 ==> (e matches IndexerClientError::NotFound(m) && m@
            == utf8_lossy(body)),
{
}

/// What a transport failure maps to: `Timeout` whenever it timed out,
/// whether or not it also arose while building the client, and only then;
/// otherwise `InvalidConfig` with the failure's text for a builder failure,
/// and `Transport` with that text for any other.
pub proof fn lemma_transport_failure_cases(
    e: IndexerClientError,
    is_timeout: bool,
    is_builder: bool,
    text: Seq<char>,
)
    requires
        is_transport_failure(e, is_timeout, is_builder, text),
    ensures
        e is Timeout <==> is_timeout,
        !is_timeout && is_builder ==> (e matches IndexerClientError::InvalidConfig(m) && m@
            == text),
        !is_timeout && !is_builder ==> (e matches IndexerClientError::Transport(m) && m@ == text),
{
}

/// The error for a failure of the HTTP layer, from what the failure reports
/// of itself: whether it is a timeout, whether it arose while building the
/// client, and its text.
pub fn classify_transport_failure(is_timeout: bool, is_builder: bool, text: String) -> (e:
    IndexerClientError)
    ensures
        is_transport_failure(e, is_timeout, is_builder, text@),
        e is Timeout <==> is_timeout,
{
    if is_timeout {
        IndexerClientError::Timeout
    } else if is_builder {
        IndexerClientError::InvalidConfig(text)
    } else {
        IndexerClientError::Transport(text)
    }
}

/// The error for a response body that could not be decoded.
pub fn decode_failure(reason: String) -> (e: IndexerClientError)
    ensures
        e matches IndexerClientError::Decode(m) && m@ == reason@,
{
    IndexerClientError::Decode(reason)
}

/// The human-readable text of an error.
pub open spec fn error_text(e: IndexerClientError) -> Seq<char> {
    match e {
        IndexerClientError::InvalidConfig(m) => "invalid client configuration: "@ + m@,
        IndexerClientError::Timeout => "request timed out"@,
        IndexerClientError::Transport(m) => "transport error: "@ + m@,
        IndexerClientError::NotFound(m) => "resource not found: "@ + m@,
        IndexerClientError::Api { status, code, message } => "indexer API error (status "@
            + decimal_digits(status as nat) + ", code "@ + code@ + "): "@ + message@,
        IndexerClientError::Decode(m) => "failed to decode response: "@ + m@,
    }
}

impl IndexerClientError {
    /// The error for a failure of the HTTP layer: `Timeout` when it timed
    /// out, `InvalidConfig` when it arose while building the client, and
    /// `Transport` otherwise, with the failure's text.
    pub fn from_http_error(error: reqwest::Error) -> (e: IndexerClientError)
        ensures
            is_transport_failure(
                e,
                http_error_times_out(error),
                http_error_from_builder(error),
                http_error_message(error),
            ),
    {
        let timed_out = error_is_timeout(&error);
        let from_builder = error_is_builder(&error);
        let text = http_error_text(&error);
        classify_transport_failure(timed_out, from_builder, text)
    }

    /// The human-readable text of the error.
    pub fn to_display_string(&self) -> (s: String)
        ensures
            s@ == error_text(*self),
    {
        match self {
            IndexerClientError::InvalidConfig(m) => {
                let mut s = String::from_str("invalid client configuration: ");
                s.append(m.as_str());
                s
            },
            IndexerClientError::Timeout => String::from_str("request timed out"),
            IndexerClientError::Transport(m) => {
                let mut s = String::from_str("transport error: ");
                s.append(m.as_str());
                s
            },
            IndexerClientError::NotFound(m) => {
                let mut s = String::from_str("resource not found: ");
                s.append(m.as_str());
                s
            },
            IndexerClientError::Api { status, code, message } => {
                let mut s = String::from_str("indexer API error (status ");
                let digits = decimal_text(*status as u64);
                s.append(digits.as_str());
                s.append(", code ");
                s.append(code.as_str());
                s.append("): ");
                s.append(message.as_str());
                s
            },
            IndexerClientError::Decode(m) => {
                let mut s = String::from_str("failed to decode response: ");
                s.append(m.as_str());
                s
            },
        }
    }
}

} // verus!
