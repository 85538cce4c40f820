//! The errors a call can end in, and the mapping of a failed answer's body
//! to one of them.

use crate::api::ErrorMessage;
use crate::decode::FromJson;
use crate::json::{error_text, json_parse, parse, Json, JsonValue};
use vstd::prelude::*;
use vstd::string::StringExecFns;

verus! {

/// The placeholder for the message of an error answer without a body.
pub const UNKNOWN: &'static str = "Unknown";

/// The message of a schema error for a well-formed document of another
/// shape than the one expected.
pub const UNEXPECTED_SHAPE: &'static str = "the document does not have the expected shape";

/// The message of a schema error for a text that is no UTF-8.
pub const NOT_UTF8: &'static str = "the body is not valid UTF-8";

/// How a call can fail.
#[derive(Debug, Clone, PartialEq)]
pub enum ApiError {
    /// The request could not be built or sent, or the answer not read.
    Transport(String),
    /// The server answered with another status than the operation's success
    /// status; the message is the server's own, or [`UNKNOWN`].
    Server(String),
    /// A body could not be read as the shape it should have.
    Schema(String),
}

/// The mathematical value of an [`ApiError`].
pub ghost enum ApiErrorView {
    Transport(Seq<char>),
    Server(Seq<char>),
    Schema(Seq<char>),
}

impl DeepView for ApiError {
    type V = ApiErrorView;

    open spec fn deep_view(&self) -> ApiErrorView {
        match self {
            ApiError::Transport(m) => ApiErrorView::Transport(m@),
            ApiError::Server(m) => ApiErrorView::Server(m@),
            ApiError::Schema(m) => ApiErrorView::Schema(m@),
        }
    }
}

impl View for ApiError {
    type V = ApiErrorView;

    open spec fn view(&self) -> ApiErrorView {
        self.deep_view()
    }
}

/// The text that reports an error of the given kind and message.
pub open spec fn report_of(e: ApiErrorView) -> Seq<char> {
    match e {
        ApiErrorView::Transport(m) => "Transport error: "@ + m,
        ApiErrorView::Server(m) => "Server error: "@ + m,
        ApiErrorView::Schema(m) => "Schema error: "@ + m,
    }
}

impl ApiError {
    /// The text that reports the error.
    pub fn to_string(&self) -> (text: String)
        ensures
            text@ == report_of(self@),
    {
        match self {
            ApiError::Transport(m) => String::from_str("Transport error: ").concat(m.as_str()),
            ApiError::Server(m) => String::from_str("Server error: ").concat(m.as_str()),
            ApiError::Schema(m) => String::from_str("Schema error: ").concat(m.as_str()),
        }
    }
}

/// The error that a well-formed error document stands for: the server's
/// message, or a schema error where the document is no `{"message": ...}`.
pub open spec fn error_of_document(document: JsonValue) -> ApiErrorView {
    match ErrorMessage::decoded(document) {
        Some(m) => ApiErrorView::Server(m.message),
        None => ApiErrorView::Schema(UNEXPECTED_SHAPE@),
    }
}

/// Whether `e` is the error that the body of a failed answer maps to.
///
/// An empty body is never parsed and gives the placeholder. A body that is
/// no JSON gives a schema error, whose message is the parser's.
pub open spec fn is_error_of_body(body: Seq<u8>, e: ApiErrorView) -> bool {
    if body.len() == 0 {
        e == ApiErrorView::Server(UNKNOWN@)
    } else {
        match json_parse(body) {
            Some(document) => e == error_of_document(document),
            None => e is Schema,
        }
    }
}

/// Maps a well-formed error document to the error it stands for.
pub fn error_from_document(document: &Json) -> (e: ApiError)
    ensures
        e@ == error_of_document(document@),
{
    match ErrorMessage::from_json(document) {
        Some(m) => ApiError::Server(m.message),
        None => ApiError::Schema(String::from_str(UNEXPECTED_SHAPE)),
    }
}

/// Maps the body of a failed answer to an error.
pub fn err(bytes: &[u8]) -> (e: ApiError)
    ensures
        is_error_of_body(bytes@, e@),
{
    if bytes.len() == 0 {
        return ApiError::Server(String::from_str(UNKNOWN));
    }
    match parse(bytes) {
        Ok(document) => error_from_document(&document),
        Err(failure) => ApiError::Schema(error_text(&failure)),
    }
}

} // verus!
