//! What came back from the generation server, and what it means for the
//! request: the reply text, or the reason why there is none.
//!
//! The server answers in JSON. Documents are parsed by `serde_json`; a parsed
//! document is opaque here, and what it holds is known by the names below:
//! the members of an object, the elements of an array, the text of a string.

use vstd::prelude::*;
use vstd::string::StringExecFns;
use crate::text::join;

verus! {

/// `serde_json::Value`: a parsed JSON document, or a part of one. Nothing of
/// its inside is visible here.
#[verifier::external_type_specification]
#[verifier::external_body]
pub struct ExJsonValue(serde_json::Value);

/// The document that a text of JSON stands for, if it is one.
pub uninterp spec fn json_document(bytes: Seq<u8>) -> Option<serde_json::Value>;

/// The members of a JSON object, each under its key; empty for a value that
/// is no object.
pub uninterp spec fn json_members(value: serde_json::Value) -> Map<Seq<char>, serde_json::Value>;

/// The elements of a JSON array, in order; empty for a value that is no
/// array.
pub uninterp spec fn json_elements(value: serde_json::Value) -> Seq<serde_json::Value>;

/// The text of a JSON string; `None` for a value that is no string.
pub uninterp spec fn json_string(value: serde_json::Value) -> Option<Seq<char>>;

/// `serde_json::from_slice` for a `Value`: the parsed document, or `None`
/// where the bytes are not one JSON document. What is claimed of it is that
/// the result depends on the bytes alone.
#[verifier::external_body]
fn parse_document(bytes: &[u8]) -> (parsed: Option<serde_json::Value>)
    ensures
        parsed == json_document(bytes@),
{
    serde_json::from_slice(bytes).ok()
}

/// `serde_json::Value::get` with a text as index: the member of an object
/// under that key, `None` where the value is no object or has no such
/// member.
#[verifier::external_body]
fn member<'a>(value: &'a serde_json::Value, key: &str) -> (found: Option<&'a serde_json::Value>)
    ensures
        match found {
            Some(inner) => json_members(*value).contains_key(key@) && json_members(*value)[key@]
                == *inner,
            None => !json_members(*value).contains_key(key@),
        },
{
    value.get(key)
}

/// `serde_json::Value::get` with a number as index: the element of an array
/// at that position, `None` where the value is no array or is shorter.
#[verifier::external_body]
fn element<'a>(value: &'a serde_json::Value, index: usize) -> (found: Option<
    &'a serde_json::Value,
>)
    ensures
        match found {
            Some(inner) => index < json_elements(*value).len() && json_elements(*value)[index as int]
                == *inner,
            None => index >= json_elements(*value).len(),
        },
{
    value.get(index)
}

/// `serde_json::Value::as_str`: the text of a string value, `None` where the
/// value is no string.
#[verifier::external_body]
fn string_of<'a>(value: &'a serde_json::Value) -> (found: Option<&'a str>)
    ensures
        match found {
            Some(text) => json_string(*value) == Some(text@),
            None => json_string(*value) is None,
        },
{
    value.as_str()
}

/// The member of a JSON value under a key, if the value is an object that
/// has one.
pub open spec fn member_of(value: serde_json::Value, key: Seq<char>) -> Option<serde_json::Value> {
    if json_members(value).contains_key(key) {
        Some(json_members(value)[key])
    } else {
        None
    }
}

/// The first element of a JSON value, if the value is an array that has one.
pub open spec fn first_of(value: serde_json::Value) -> Option<serde_json::Value> {
    if json_elements(value).len() > 0 {
        Some(json_elements(value)[0])
    } else {
        None
    }
}

/// The reply in a response document: the text under `content` in the
/// `message` of the first of the `choices`.
pub open spec fn reply_in(document: serde_json::Value) -> Option<Seq<char>> {
    match member_of(document, "choices"@) {
        Some(choices) => match first_of(choices) {
            Some(choice) => match member_of(choice, "message"@) {
                Some(message) => match member_of(message, "content"@) {
                    Some(content) => json_string(content),
                    None => None,
                },
                None => None,
            },
            None => None,
        },
        None => None,
    }
}

/// The reply in the body of a response, where the body is a JSON document
/// that holds one.
pub open spec fn reply_text(body: Seq<u8>) -> Option<Seq<char>> {
    match json_document(body) {
        Some(document) => reply_in(document),
        None => None,
    }
}

/// The view of a text that may be absent.
pub open spec fn optional_text(text: Option<String>) -> Option<Seq<char>> {
    match text {
        Some(t) => Some(t@),
        None => None,
    }
}

/// Finds the reply in a response document.
pub fn reply_content(document: &serde_json::Value) -> (reply: Option<String>)
    ensures
        optional_text(reply) == reply_in(*document),
{
    let choices = match member(document, "choices") {
        Some(choices) => choices,
        None => { return None; },
    };
    let choice = match element(choices, 0) {
        Some(choice) => choice,
        None => { return None; },
    };
    let message = match member(choice, "message") {
        Some(message) => message,
        None => { return None; },
    };
    let content = match member(message, "content") {
        Some(content) => content,
        None => { return None; },
    };
    match string_of(content) {
        Some(text) => Some(String::from_str(text)),
        None => None,
    }
}

/// Why a request to the generation server gave no reply.
#[derive(Clone, Debug, PartialEq, Eq)]
pub enum GenerationError {
    /// The server could not be reached, or the connection failed; with what
    /// the transport said of it.
    Transport(String),
    /// The server answered with a status other than success; with the body
    /// of its answer.
    Upstream(String),
    /// The server answered with success, but its answer is no JSON document
    /// or holds no reply where one is expected.
    MalformedResponse,
}

/// What a [`GenerationError`] holds, as a mathematical value.
pub enum GenerationErrorView {
    Transport(Seq<char>),
    Upstream(Seq<char>),
    MalformedResponse,
}

impl View for GenerationError {
    type V = GenerationErrorView;

    open spec fn view(&self) -> GenerationErrorView {
        match self {
            GenerationError::Transport(detail) => GenerationErrorView::Transport(detail@),
            GenerationError::Upstream(body) => GenerationErrorView::Upstream(body@),
            GenerationError::MalformedResponse => GenerationErrorView::MalformedResponse,
        }
    }
}

impl GenerationErrorView {
    /// The text that describes the error. A rejection by the server is
    /// described by the body of its answer.
    pub open spec fn text(self) -> Seq<char> {
        match self {
            GenerationErrorView::Transport(detail) => detail,
            GenerationErrorView::Upstream(body) => "API request failed: "@ + body,
            GenerationErrorView::MalformedResponse => "Failed to extract content from response"@,
        }
    }
}

impl GenerationError {
    /// Describes the error in words.
    pub fn message(&self) -> (text: String)
        ensures
            text@ == self@.text(),
    {
        match self {
            GenerationError::Transport(detail) => detail.clone(),
            GenerationError::Upstream(body) => join("API request failed: ", body.as_str()),
            GenerationError::MalformedResponse => String::from_str(
                "Failed to extract content from response",
            ),
        }
    }
}

/// Tells whether an HTTP status stands for success: one of the codes from
/// 200 to 299.
pub fn is_success(status: u16) -> (success: bool)
    ensures
        success == (200 <= status < 300),
{
    200 <= status && status < 300
}

/// How one attempt to reach the generation server ended.
#[derive(Clone, Debug, PartialEq, Eq)]
pub enum UpstreamOutcome {
    /// No answer came; with what the transport said of it.
    Unreachable(String),
    /// An answer came with a status other than success; with its body.
    Rejected(String),
    /// An answer came with a status of success; with its body.
    Answered(Vec<u8>),
}

/// What an [`UpstreamOutcome`] holds, as a mathematical value.
pub enum UpstreamOutcomeView {
    Unreachable(Seq<char>),
    Rejected(Seq<char>),
    Answered(Seq<u8>),
}

impl View for UpstreamOutcome {
    type V = UpstreamOutcomeView;

    open spec fn view(&self) -> UpstreamOutcomeView {
        match self {
            UpstreamOutcome::Unreachable(detail) => UpstreamOutcomeView::Unreachable(detail@),
            UpstreamOutcome::Rejected(body) => UpstreamOutcomeView::Rejected(body@),
            UpstreamOutcome::Answered(body) => UpstreamOutcomeView::Answered(body@),
        }
    }
}

impl UpstreamOutcomeView {
    /// What an outcome means for the request: the reply, or the error.
    pub open spec fn generated(self) -> Result<Seq<char>, GenerationErrorView> {
        match self {
            UpstreamOutcomeView::Unreachable(detail) => Err(GenerationErrorView::Transport(detail)),
            UpstreamOutcomeView::Rejected(body) => Err(GenerationErrorView::Upstream(body)),
            UpstreamOutcomeView::Answered(body) => match reply_text(body) {
                Some(reply) => Ok(reply),
                None => Err(GenerationErrorView::MalformedResponse),
            },
        }
    }
}

/// The view of a reply or the error in its place.
pub open spec fn generated_view(generated: Result<String, GenerationError>) -> Result<
    Seq<char>,
    GenerationErrorView,
> {
    match generated {
        Ok(reply) => Ok(reply@),
        Err(error) => Err(error@),
    }
}

/// Reads the reply out of the body of a successful response.
pub fn read_reply(body: &[u8]) -> (generated: Result<String, GenerationError>)
    ensures
        generated_view(generated) == UpstreamOutcomeView::Answered(body@).generated(),
{
    match parse_document(body) {
        Some(document) => match reply_content(&document) {
            Some(reply) => Ok(reply),
            None => Err(GenerationError::MalformedResponse),
        },
        None => Err(GenerationError::MalformedResponse),
    }
}

/// Turns the outcome of one attempt into the reply or the error. There is
/// one attempt for a request: no outcome is retried.
pub fn interpret_outcome(outcome: UpstreamOutcome) -> (generated: Result<String, GenerationError>)
    ensures
        generated_view(generated) == outcome@.generated(),
{
    match outcome {
        UpstreamOutcome::Unreachable(detail) => Err(GenerationError::Transport(detail)),
        UpstreamOutcome::Rejected(body) => Err(GenerationError::Upstream(body)),
        UpstreamOutcome::Answered(body) => read_reply(body.as_slice()),
    }
}

} // verus!
