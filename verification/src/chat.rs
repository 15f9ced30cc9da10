//! One turn of a chat, in two steps around the call to the generation
//! server: what is recorded and asked before the call, and what is recorded
//! and answered after it.
//!
//! The call itself is not made here. Between the two steps the store is free
//! for other sessions.

use vstd::prelude::*;
use vstd::string::StringExecFns;
use crate::history::{assistant_prefix, assistant_turn, user_prefix, user_turn};
use crate::model::{GenerationRequest, LlamaModel};
use crate::models::{ChatRequest, ChatResponse};
use crate::reply::{generated_view, GenerationError, GenerationErrorView};
use crate::sessions::{appended, turns_of, HistoryStore};
use crate::text::join;

verus! {

/// The response length asked for where a request names none and none is
/// configured.
pub const FALLBACK_MAX_TOKENS: usize = 512;

/// The bits of a session identifier that hold the version and the variant of
/// a UUID.
pub const UUID_FORM_MASK: u128 = 0x0000_0000_0000_f000_c000_0000_0000_0000;

/// The version and variant bits of a random UUID: version 4, variant 1.
pub const UUID_RANDOM_FORM: u128 = 0x0000_0000_0000_4000_8000_0000_0000_0000;

/// `uuid::Uuid::new_v4`, read as a number by `Uuid::as_u128`: a random UUID.
/// What is claimed of it is its form alone: the bits of the version and the
/// variant are those of a random UUID, and nothing is said of the others.
/// It panics where the operating system gives no random bytes.
#[verifier::external_body]
fn fresh_session_id() -> (id: u128)
    ensures
        id & UUID_FORM_MASK == UUID_RANDOM_FORM,
{
    uuid::Uuid::new_v4().as_u128()
}

/// The session of a request: the one it names, or a new one with a random
/// identifier.
pub fn resolve_session(requested: Option<u128>) -> (id: u128)
    ensures
        requested matches Some(named) ==> id == named,
        requested is None ==> id & UUID_FORM_MASK == UUID_RANDOM_FORM,
{
    match requested {
        Some(named) => named,
        None => fresh_session_id(),
    }
}

/// The response length that a request asks for: its own, or the default.
pub open spec fn requested_max_tokens(
    requested: Option<usize>,
    default_max_tokens: usize,
) -> usize {
    match requested {
        Some(max_tokens) => max_tokens,
        None => default_max_tokens,
    }
}

/// Picks the response length that a request asks for: its own, or the
/// default.
pub fn requested_or(requested: Option<usize>, default_max_tokens: usize) -> (max_tokens: usize)
    ensures
        max_tokens == requested_max_tokens(requested, default_max_tokens),
{
    match requested {
        Some(max_tokens) => max_tokens,
        None => default_max_tokens,
    }
}

/// What is added to a message to ask for a thorough answer.
pub open spec fn prompt_suffix() -> Seq<char> {
    "\n\nPlease provide a detailed and comprehensive answer."@
}

/// The prompt that is sent for a message of the user.
pub fn enhanced_prompt(message: &str) -> (prompt: String)
    ensures
        prompt@ == message@ + prompt_suffix(),
{
    join(message, "\n\nPlease provide a detailed and comprehensive answer.")
}

/// A turn that waits for the generation server: the session it belongs to
/// and the request to send.
#[derive(Clone, Debug, PartialEq, Eq)]
pub struct PendingTurn {
    pub session_id: u128,
    pub request: GenerationRequest,
}

/// Records the message of the user in the transcript of a session, and puts
/// together the request for it from the transcript as it then stands. The
/// message is recorded as the user wrote it; the prompt of the request is
/// the message with the request for a thorough answer added.
pub fn start_turn(
    store: &mut HistoryStore,
    model: &LlamaModel,
    session_id: u128,
    message: &str,
    max_tokens: usize,
) -> (request: GenerationRequest)
    ensures
        final(store)@ == appended(old(store)@, session_id, user_prefix() + message@),
        request@ == model@.request(
            message@ + prompt_suffix(),
            max_tokens,
            turns_of(final(store)@, session_id),
        ),
        model@.limits.min_tokens <= request.max_tokens <= model@.limits.max_tokens,
{
    store.append(session_id, user_turn(message));
    let history: Vec<String> = store.snapshot(session_id);
    let prompt: String = enhanced_prompt(message);
    model.prepare(prompt.as_str(), max_tokens, &history)
}

/// The first step of a turn: settles the session of the request, records
/// the message of the user in its transcript, and puts together the request
/// for the generation server. A request that names no session opens a new
/// one.
pub fn begin_turn(
    store: &mut HistoryStore,
    model: &LlamaModel,
    request: &ChatRequest,
    default_max_tokens: usize,
) -> (turn: PendingTurn)
    ensures
        request.session_id matches Some(named) ==> turn.session_id == named,
        request.session_id is None ==> turn.session_id & UUID_FORM_MASK == UUID_RANDOM_FORM,
        final(store)@ == appended(
            old(store)@,
            turn.session_id,
            user_prefix() + request.message@,
        ),
        turn.request@ == model@.request(
            request.message@ + prompt_suffix(),
            requested_max_tokens(request.max_tokens, default_max_tokens),
            turns_of(final(store)@, turn.session_id),
        ),
{
    let session_id: u128 = resolve_session(request.session_id);
    let max_tokens: usize = requested_or(request.max_tokens, default_max_tokens);
    let generation: GenerationRequest = start_turn(
        store,
        model,
        session_id,
        request.message.as_str(),
        max_tokens,
    );
    PendingTurn { session_id, request: generation }
}

/// Why a turn gave no answer.
#[derive(Clone, Debug, PartialEq, Eq)]
pub enum TurnError {
    /// The history store could not be had: its guard is unusable.
    StoreUnavailable,
    /// The generation server gave no reply.
    Generation(GenerationError),
}

/// What a [`TurnError`] holds, as a mathematical value.
pub enum TurnErrorView {
    StoreUnavailable,
    Generation(GenerationErrorView),
}

impl View for TurnError {
    type V = TurnErrorView;

    open spec fn view(&self) -> TurnErrorView {
        match self {
            TurnError::StoreUnavailable => TurnErrorView::StoreUnavailable,
            TurnError::Generation(error) => TurnErrorView::Generation(error@),
        }
    }
}

impl TurnErrorView {
    /// What the caller is told of the error. Of a failed generation the
    /// caller is told what the generation error says of itself.
    pub open spec fn text(self) -> Seq<char> {
        match self {
            TurnErrorView::StoreUnavailable => "Internal server error"@,
            TurnErrorView::Generation(error) => "Failed to generate response: "@ + error.text(),
        }
    }
}

impl TurnError {
    /// Describes the error to the caller.
    pub fn message(&self) -> (text: String)
        ensures
            text@ == self@.text(),
    {
        match self {
            TurnError::StoreUnavailable => String::from_str("Internal server error"),
            TurnError::Generation(error) => {
                let described: String = error.message();
                join("Failed to generate response: ", described.as_str())
            },
        }
    }
}

/// What the caller is told of a turn, as a mathematical value: the reply and
/// the session, or the error.
pub open spec fn answer_view(answer: Result<ChatResponse, TurnError>) -> Result<
    (Seq<char>, u128),
    TurnErrorView,
> {
    match answer {
        Ok(response) => Ok((response.response@, response.session_id)),
        Err(error) => Err(error@),
    }
}

/// The answer that a turn ends with: the reply with its session, or the
/// generation error.
pub open spec fn answered(
    session_id: u128,
    generated: Result<Seq<char>, GenerationErrorView>,
) -> Result<(Seq<char>, u128), TurnErrorView> {
    match generated {
        Ok(reply) => Ok((reply, session_id)),
        Err(error) => Err(TurnErrorView::Generation(error)),
    }
}

/// A store after a turn has ended. A reply is appended to the transcript of
/// its session, if the store knows the session. A failure changes nothing:
/// the message of the user, recorded before the call, stays.
pub open spec fn concluded(
    store: Map<u128, Seq<Seq<char>>>,
    session_id: u128,
    generated: Result<Seq<char>, GenerationErrorView>,
) -> Map<u128, Seq<Seq<char>>> {
    match generated {
        Ok(reply) => if store.contains_key(session_id) {
            appended(store, session_id, assistant_prefix() + reply)
        } else {
            store
        },
        Err(_) => store,
    }
}

/// Makes the answer of a turn from what the generation server gave.
pub fn turn_answer(
    session_id: u128,
    generated: Result<String, GenerationError>,
) -> (answer: Result<ChatResponse, TurnError>)
    ensures
        answer_view(answer) == answered(session_id, generated_view(generated)),
{
    match generated {
        Ok(reply) => Ok(ChatResponse { response: reply, session_id }),
        Err(error) => Err(TurnError::Generation(error)),
    }
}

/// The second step of a turn: records the reply in the transcript of the
/// session, and makes the answer for the caller. After a failure the store
/// is left as it is.
pub fn finish_turn(
    store: &mut HistoryStore,
    session_id: u128,
    generated: Result<String, GenerationError>,
) -> (answer: Result<ChatResponse, TurnError>)
    ensures
        answer_view(answer) == answered(session_id, generated_view(generated)),
        final(store)@ == concluded(old(store)@, session_id, generated_view(generated)),
{
    match &generated {
        Ok(reply) => {
            store.append_if_present(session_id, assistant_turn(reply.as_str()));
        },
        Err(_) => {},
    }
    turn_answer(session_id, generated)
}

/// A failed turn does not take back what the user said: after the message
/// was recorded and the call failed, the message is still the last turn of
/// its session.
pub proof fn failure_keeps_user_turn(
    store: Map<u128, Seq<Seq<char>>>,
    session_id: u128,
    message: Seq<char>,
    error: GenerationErrorView,
)
    ensures
        turns_of(
            concluded(
                appended(store, session_id, user_prefix() + message),
                session_id,
                Err(error),
            ),
            session_id,
        ) == turns_of(store, session_id).push(user_prefix() + message),
{
}

/// A turn that succeeds adds two turns to its session, the message of the
/// user and then the reply, and leaves every other session as it was.
pub proof fn success_records_exchange(
    store: Map<u128, Seq<Seq<char>>>,
    session_id: u128,
    message: Seq<char>,
    reply: Seq<char>,
    other: u128,
)
    requires
        other != session_id,
    ensures
        turns_of(
            concluded(
                appended(store, session_id, user_prefix() + message),
                session_id,
                Ok(reply),
            ),
            session_id,
        ) == turns_of(store, session_id).push(user_prefix() + message).push(
            assistant_prefix() + reply,
        ),
        turns_of(
            concluded(
                appended(store, session_id, user_prefix() + message),
                session_id,
                Ok(reply),
            ),
            other,
        ) == turns_of(store, other),
{
}

} // verus!
