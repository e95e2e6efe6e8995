//! The single error type of the library and the mapping of error responses to it.
use vstd::prelude::*;
use vstd::string::*;

use crate::json::{json_as_string, json_is_object, json_member, parse_json};

verus! {

#[verifier::external_type_specification]
#[verifier::external_body]
pub struct ExHttpError(reqwest::Error);

#[verifier::external_type_specification]
#[verifier::external_body]
pub struct ExInvalidHeaderValue(reqwest::header::InvalidHeaderValue);

/// The one error type of the library: initialisation, authentication and API
/// calls all report it.
#[derive(Debug)]
pub enum SdkError {
    HttpError(reqwest::Error),
    InvalidHeaderValue(reqwest::header::InvalidHeaderValue),
    SerializationError(serde_json::Error),
    ApiError {
        /// HTTP status code of the answer.
        status: u16,
        code: String,
        message: String,
        /// Identifier of the request, to quote when contacting support. The
        /// OAuth2 token endpoint does not give one.
        request_id: Option<String>,
    },
    Unknown(String),
}

impl SdkError {
    /// Maps a non-2xx answer (status and body) to an `ApiError`.
    ///
    /// Business endpoints use the envelope `{"error": {"code", "message", "requestId", ...}}`,
    /// the OAuth2 token endpoint the standard `{"error": "...", "error_description": "..."}`.
    /// A body that is not JSON, or of neither form, is kept whole as the message.
    pub fn from_error_response(status: u16, content: &str) -> (r: SdkError)
        ensures
            r.api_error_view() == Some(
                (status, error_response_fields(content@).0, error_response_fields(content@).1, error_response_fields(content@).2),
            ),
    {
        let body = read_error_body(content);
        api_error_from_body(status, content, body)
    }

    /// Status, code, message and request identifier of an `ApiError`; `None` for the other variants.
    pub open spec fn api_error_view(self) -> Option<(u16, Seq<char>, Seq<char>, Option<Seq<char>>)> {
        match self {
            SdkError::ApiError { status, code, message, request_id } => Some(
                (status, code@, message@, crate::text::opt_text(request_id)),
            ),
            _ => None,
        }
    }

    /// The message of an `Unknown` error; `None` for the other variants.
    pub open spec fn unknown_view(self) -> Option<Seq<char>> {
        match self {
            SdkError::Unknown(m) => Some(m@),
            _ => None,
        }
    }
}

/// `opt`'s value, or `default` where it is absent.
pub open spec fn or_else(opt: Option<Seq<char>>, default: Seq<char>) -> Seq<char> {
    match opt {
        Some(v) => v,
        None => default,
    }
}

/// The key path of the document's root.
pub open spec fn root_path() -> Seq<Seq<char>> {
    Seq::empty()
}

/// The key path of the root's member `error`.
pub open spec fn error_path() -> Seq<Seq<char>> {
    Seq::empty().push("error"@)
}

/// The string held by the member `key` of the value at `path`; `None` where there
/// is no such member or it holds no string.
pub open spec fn member_string(text: Seq<char>, path: Seq<Seq<char>>, key: Seq<char>) -> Option<Seq<char>> {
    if crate::json::json_has_member(text, path, key) {
        crate::json::json_string_at(text, path.push(key))
    } else {
        None
    }
}

/// The body is a JSON document whose member `error` is an object (the envelope of the business endpoints).
pub open spec fn has_error_object(text: Seq<char>) -> bool {
    &&& crate::json::json_accepts(text)
    &&& crate::json::json_has_member(text, root_path(), "error"@)
    &&& crate::json::json_is_object_at(text, error_path())
}

/// The string in the member `error` of a JSON document (the OAuth2 error format).
pub open spec fn error_string(text: Seq<char>) -> Option<Seq<char>> {
    if crate::json::json_accepts(text) {
        member_string(text, root_path(), "error"@)
    } else {
        None
    }
}

/// Code, message and request identifier that an error answer with body `text` is reported with.
///
/// - The envelope `{"error": {"code", "message", "requestId"}}`: its fields; a
///   missing code reads `UNKNOWN`, a missing message is the whole body.
/// - The OAuth2 format `{"error": "...", "error_description": "..."}`: the error as
///   code, the description (else the error) as message, no request identifier.
/// - Anything else, JSON or not: code `UNKNOWN`, the whole body as message.
pub open spec fn error_response_fields(text: Seq<char>) -> (Seq<char>, Seq<char>, Option<Seq<char>>) {
    if has_error_object(text) {
        (
            or_else(member_string(text, error_path(), "code"@), "UNKNOWN"@),
            or_else(member_string(text, error_path(), "message"@), text),
            member_string(text, error_path(), "requestId"@),
        )
    } else {
        match error_string(text) {
            Some(code) => (code, or_else(member_string(text, root_path(), "error_description"@), code), None),
            None => ("UNKNOWN"@, text, None),
        }
    }
}

/// What the body of an error answer holds.
#[derive(Debug, Clone)]
pub enum ErrorBody {
    /// `{"error": {...}}`: the members `code`, `message` and `requestId` where they hold strings.
    Envelope { code: Option<String>, message: Option<String>, request_id: Option<String> },
    /// `{"error": "...", ...}`: the error and the member `error_description` where it holds a string.
    OAuth2 { error: String, description: Option<String> },
    /// Neither form, or no JSON at all.
    Unrecognized,
}

impl ErrorBody {
    /// This is what the body `text` holds.
    pub open spec fn describes(self, text: Seq<char>) -> bool {
        match self {
            ErrorBody::Envelope { code, message, request_id } => {
                &&& has_error_object(text)
                &&& crate::text::opt_text(code) == member_string(text, error_path(), "code"@)
                &&& crate::text::opt_text(message) == member_string(text, error_path(), "message"@)
                &&& crate::text::opt_text(request_id) == member_string(text, error_path(), "requestId"@)
            },
            ErrorBody::OAuth2 { error, description } => {
                &&& !has_error_object(text)
                &&& error_string(text) == Some(error@)
                &&& crate::text::opt_text(description) == member_string(text, root_path(), "error_description"@)
            },
            ErrorBody::Unrecognized => !has_error_object(text) && error_string(text) is None,
        }
    }

    /// Code, message and request identifier reported for this body, where `text` is the whole body.
    pub open spec fn reported_fields(self, text: Seq<char>) -> (Seq<char>, Seq<char>, Option<Seq<char>>) {
        match self {
            ErrorBody::Envelope { code, message, request_id } => (
                or_else(crate::text::opt_text(code), "UNKNOWN"@),
                or_else(crate::text::opt_text(message), text),
                crate::text::opt_text(request_id),
            ),
            ErrorBody::OAuth2 { error, description } => (
                error@,
                or_else(crate::text::opt_text(description), error@),
                None,
            ),
            ErrorBody::Unrecognized => ("UNKNOWN"@, text, None),
        }
    }
}

/// Reads the string held by the member `key` of `node`.
fn member_text(node: &crate::json::JsonNode, key: &str) -> (r: Option<String>)
    ensures
        crate::text::opt_text(r) == member_string(node.text(), node.path(), key@),
{
    match json_member(node, key) {
        Some(m) => json_as_string(&m),
        None => None,
    }
}

/// Reads the error body `content` with `serde_json`.
pub fn read_error_body(content: &str) -> (r: ErrorBody)
    ensures
        r.describes(content@),
{
    let root = match parse_json(content) {
        Some(root) => root,
        None => return ErrorBody::Unrecognized,
    };
    let err = match json_member(&root, "error") {
        Some(err) => err,
        None => return ErrorBody::Unrecognized,
    };
    assert(root.path().push("error"@) == error_path());
    if json_is_object(&err) {
        let code = member_text(&err, "code");
        let message = member_text(&err, "message");
        let request_id = member_text(&err, "requestId");
        ErrorBody::Envelope { code, message, request_id }
    } else {
        match json_as_string(&err) {
            Some(error) => {
                let description = member_text(&root, "error_description");
                ErrorBody::OAuth2 { error, description }
            },
            None => ErrorBody::Unrecognized,
        }
    }
}

fn text_or(opt: Option<String>, default: &str) -> (r: String)
    ensures
        r@ == or_else(crate::text::opt_text(opt), default@),
{
    match opt {
        Some(v) => v,
        None => String::from_str(default),
    }
}

/// The `ApiError` reported for an error answer with HTTP status `status`, whole
/// body `content`, and `body` read from it.
pub fn api_error_from_body(status: u16, content: &str, body: ErrorBody) -> (r: SdkError)
    ensures
        r.api_error_view() == Some(
            (status, body.reported_fields(content@).0, body.reported_fields(content@).1, body.reported_fields(content@).2),
        ),
{
    match body {
        ErrorBody::Envelope { code, message, request_id } => SdkError::ApiError {
            status,
            code: text_or(code, "UNKNOWN"),
            message: text_or(message, content),
            request_id,
        },
        ErrorBody::OAuth2 { error, description } => {
            let message = match description {
                Some(d) => d,
                None => error.clone(),
            };
            SdkError::ApiError { status, code: error, message, request_id: None }
        },
        ErrorBody::Unrecognized => SdkError::ApiError {
            status,
            code: String::from_str("UNKNOWN"),
            message: String::from_str(content),
            request_id: None,
        },
    }
}

/// Whether an HTTP status code is a success (2xx), as `reqwest::StatusCode::is_success` answers.
pub open spec fn spec_is_success(status: u16) -> bool {
    200 <= status <= 299
}

#[verifier::when_used_as_spec(spec_is_success)]
pub fn is_success(status: u16) -> (r: bool)
    ensures
        r == spec_is_success(status),
{
    200 <= status && status <= 299
}

/// A body that is no JSON document is kept whole as the message, with code
/// `UNKNOWN` and no request identifier: nothing of it is lost.
pub proof fn lemma_non_json_body_kept_whole(text: Seq<char>)
    requires
        !crate::json::json_accepts(text),
    ensures
        error_response_fields(text) == ("UNKNOWN"@, text, None::<Seq<char>>),
{
}

/// Only the envelope of the business endpoints carries a request identifier; an
/// error in the OAuth2 format, or of no known form, carries none.
pub proof fn lemma_request_id_only_from_envelope(text: Seq<char>)
    ensures
        !has_error_object(text) ==> error_response_fields(text).2 is None,
        has_error_object(text) ==> error_response_fields(text).2 == member_string(text, error_path(), "requestId"@),
{
}

} // verus!
