//! The model behind the chat: where the generation server is, the limits it
//! is used under, and how one request to it is put together.

use std::sync::Arc;
use vstd::prelude::*;
use vstd::string::StringExecFns;
use crate::history::{
    parse_turn, retained_count_bounded, retained_turns, retained_turns_fit, total_estimate,
    truncate_history, turn_messages, turn_messages_bounded,
};
use crate::limits::{Adjustment, ConfigError, TokenLimits};
use crate::models::{message_views, text_views, Message, MessageView, Role};
use crate::text::{decimal_string, decimal_text, join};
use crate::tokens::{estimate_tokens, token_estimate};

verus! {

/// The path of the chat-completion endpoint below the server's address.
pub open spec fn completions_path() -> Seq<char> {
    "/v1/chat/completions"@
}

/// The name under which requests ask for the model.
pub open spec fn model_name() -> Seq<char> {
    "local-model"@
}

/// The system message up to the response length.
pub open spec fn system_prompt_head() -> Seq<char> {
    "You are a helpful AI assistant. When responding to the user, please be thorough and detailed in your explanations. Aim to use close to the maximum token length of "@
}

/// The system message after the response length.
pub open spec fn system_prompt_tail() -> Seq<char> {
    " tokens when appropriate for the question."@
}

/// The system message for a response of at most `max_tokens` tokens.
pub open spec fn system_prompt_text(max_tokens: nat) -> Seq<char> {
    system_prompt_head() + decimal_text(max_tokens) + system_prompt_tail()
}

/// Writes the system message, which tells the server the response length
/// that it may use.
pub fn system_prompt(max_tokens: usize) -> (text: String)
    ensures
        text@ == system_prompt_text(max_tokens as nat),
{
    let mut text: String = String::from_str(
        "You are a helpful AI assistant. When responding to the user, please be thorough and detailed in your explanations. Aim to use close to the maximum token length of ",
    );
    let count: String = decimal_string(max_tokens);
    text.append(count.as_str());
    text.append(" tokens when appropriate for the question.");
    text
}

/// The messages of one request, in the order in which they are sent: the
/// system message, then the turns of the transcript that fit the budget
/// which `prompt` leaves, oldest first and malformed ones left out, then the
/// prompt itself as a message of the user.
pub open spec fn assembled(
    limits: TokenLimits,
    prompt: Seq<char>,
    history: Seq<Seq<char>>,
    max_tokens: usize,
) -> Seq<MessageView> {
    let budget = limits.history_budget(token_estimate(prompt));
    seq![MessageView { role: Role::System, content: system_prompt_text(max_tokens as nat) }]
        + turn_messages(retained_turns(history, budget)) + seq![
        MessageView { role: Role::User, content: prompt },
    ]
}

/// Builds the messages of one request from the prompt and a snapshot of the
/// session's transcript. `max_tokens` is the response length that goes into
/// the system message.
pub fn assemble(
    limits: &TokenLimits,
    prompt: &str,
    history: &Vec<String>,
    max_tokens: usize,
) -> (messages: Vec<Message>)
    ensures
        message_views(messages@) == assembled(
            *limits,
            prompt@,
            text_views(history@),
            max_tokens,
        ),
{
    let budget: usize = limits.available_history_tokens(estimate_tokens(prompt));
    let kept: Vec<String> = truncate_history(history, budget);
    let ghost turns = text_views(kept@);
    let ghost system = MessageView {
        role: Role::System,
        content: system_prompt_text(max_tokens as nat),
    };
    let mut messages: Vec<Message> = Vec::new();
    messages.push(Message { role: Role::System, content: system_prompt(max_tokens) });
    assert(message_views(messages@) =~= seq![system]);
    let mut i: usize = 0;
    assert(turns.take(0) =~= Seq::<Seq<char>>::empty());
    while i < kept.len()
        invariant
            i <= kept.len(),
            turns == text_views(kept@),
            message_views(messages@) == seq![system] + turn_messages(turns.take(i as int)),
        decreases kept.len() - i,
    {
        let ghost before = messages@;
        let parsed: Option<Message> = parse_turn(kept[i].as_str());
        proof {
            let upto = turns.take(i + 1);
            assert(upto.last() == kept@[i as int]@);
            assert(upto.drop_last() =~= turns.take(i as int));
        }
        match parsed {
            Some(message) => {
                messages.push(message);
                proof {
                    assert(messages@ =~= before.push(message));
                    assert(message_views(messages@) =~= message_views(before).push(message@));
                    assert(message_views(messages@) =~= seq![system] + turn_messages(
                        turns.take(i + 1),
                    ));
                }
            },
            None => {},
        }
        i += 1;
    }
    assert(turns.take(kept.len() as int) =~= turns);
    let ghost before = messages@;
    let last: Message = Message { role: Role::User, content: String::from_str(prompt) };
    messages.push(last);
    proof {
        assert(messages@ =~= before.push(last));
        assert(message_views(messages@) =~= message_views(before).push(last@));
        assert(message_views(messages@) =~= assembled(
            *limits,
            prompt@,
            text_views(history@),
            max_tokens,
        ));
    }
    messages
}

/// With no history, a request holds exactly two messages: the system message
/// and the prompt.
pub proof fn assembled_without_history(limits: TokenLimits, prompt: Seq<char>, max_tokens: usize)
    ensures
        assembled(limits, prompt, Seq::empty(), max_tokens) == seq![
            MessageView { role: Role::System, content: system_prompt_text(max_tokens as nat) },
            MessageView { role: Role::User, content: prompt },
        ],
{
    let budget = limits.history_budget(token_estimate(prompt));
    let none = Seq::<Seq<char>>::empty();
    assert(retained_turns(none, budget) =~= none);
    assert(turn_messages(none) =~= Seq::<MessageView>::empty());
    assert(assembled(limits, prompt, none, max_tokens) =~= seq![
        MessageView { role: Role::System, content: system_prompt_text(max_tokens as nat) },
        MessageView { role: Role::User, content: prompt },
    ]);
}

/// Every request opens with the system message and closes with the prompt,
/// and holds no more messages between them than the transcript has turns.
pub proof fn assembled_frame(
    limits: TokenLimits,
    prompt: Seq<char>,
    history: Seq<Seq<char>>,
    max_tokens: usize,
)
    ensures
        2 <= assembled(limits, prompt, history, max_tokens).len() <= history.len() + 2,
        assembled(limits, prompt, history, max_tokens).first() == (MessageView {
            role: Role::System,
            content: system_prompt_text(max_tokens as nat),
        }),
        assembled(limits, prompt, history, max_tokens).last() == (MessageView {
            role: Role::User,
            content: prompt,
        }),
{
    let budget = limits.history_budget(token_estimate(prompt));
    retained_count_bounded(history, budget);
    turn_messages_bounded(retained_turns(history, budget));
}

/// A request stays within the context window: under valid limits, and for a
/// prompt that fits in what the reserves leave, the reserves, the prompt and
/// the turns kept do not add up to more than the window.
pub proof fn request_within_window(limits: TokenLimits, prompt: Seq<char>, history: Seq<Seq<char>>)
    requires
        limits.valid(),
        token_estimate(prompt) <= limits.max_context_window - limits.total_reserve(),
    ensures
        limits.total_reserve() + token_estimate(prompt) + total_estimate(
            retained_turns(history, limits.history_budget(token_estimate(prompt))),
        ) <= limits.max_context_window,
{
    retained_turns_fit(history, limits.history_budget(token_estimate(prompt)));
}

/// What is sent upstream for one prompt.
#[derive(Clone, Debug, PartialEq, Eq)]
pub struct GenerationRequest {
    /// The address of the chat-completion endpoint.
    pub url: String,
    /// The name of the model asked for.
    pub model: String,
    /// The messages, in the order in which the server reads them.
    pub messages: Vec<Message>,
    /// The cap on the length of the response.
    pub max_tokens: usize,
    /// How the cap relates to the length that was requested.
    pub adjustment: Adjustment,
}

/// What a [`GenerationRequest`] holds, as a mathematical value.
pub struct GenerationRequestView {
    pub url: Seq<char>,
    pub model: Seq<char>,
    pub messages: Seq<MessageView>,
    pub max_tokens: usize,
    pub adjustment: Adjustment,
}

impl View for GenerationRequest {
    type V = GenerationRequestView;

    open spec fn view(&self) -> GenerationRequestView {
        GenerationRequestView {
            url: self.url@,
            model: self.model@,
            messages: message_views(self.messages@),
            max_tokens: self.max_tokens,
            adjustment: self.adjustment,
        }
    }
}

/// What a [`LlamaModel`] is made of, as a mathematical value.
pub struct ModelView {
    pub server_url: Seq<char>,
    pub limits: TokenLimits,
}

impl ModelView {
    /// The request that a model makes for a prompt: addressed to the
    /// endpoint below the server's address, with the response length
    /// clamped and the messages assembled under the model's limits.
    pub open spec fn request(
        self,
        prompt: Seq<char>,
        max_tokens: usize,
        history: Seq<Seq<char>>,
    ) -> GenerationRequestView {
        GenerationRequestView {
            url: self.server_url + completions_path(),
            model: model_name(),
            messages: assembled(self.limits, prompt, history, self.limits.clamped(max_tokens)),
            max_tokens: self.limits.clamped(max_tokens),
            adjustment: self.limits.adjustment(max_tokens),
        }
    }
}

/// A generation server and the limits under which it is used. The limits of
/// a model are always valid.
pub struct LlamaModel {
    server_url: String,
    limits: TokenLimits,
}

impl View for LlamaModel {
    type V = ModelView;

    closed spec fn view(&self) -> ModelView {
        ModelView { server_url: self.server_url@, limits: self.limits }
    }
}

impl LlamaModel {
    #[verifier::type_invariant]
    spec fn sound(self) -> bool {
        self.limits.valid()
    }

    /// Makes a model for the server at `server_url`, if the limits are
    /// valid; else names the first rule that they break.
    pub fn new(server_url: String, limits: TokenLimits) -> (made: Result<LlamaModel, ConfigError>)
        ensures
            match made {
                Ok(model) => limits.valid() && model@ == (ModelView {
                    server_url: server_url@,
                    limits,
                }),
                Err(error) => !limits.valid() && limits.checked() == Err::<(), ConfigError>(error),
            },
    {
        match limits.check() {
            Ok(()) => Ok(LlamaModel { server_url, limits }),
            Err(error) => Err(error),
        }
    }

    /// The limits of the model.
    pub fn limits(&self) -> (limits: TokenLimits)
        ensures
            limits == self@.limits,
            limits.valid(),
    {
        proof {
            use_type_invariant(self);
        }
        self.limits
    }

    /// The address of the generation server.
    pub fn server_url(&self) -> (url: &str)
        ensures
            url@ == self@.server_url,
    {
        self.server_url.as_str()
    }

    /// The address of the chat-completion endpoint.
    pub fn endpoint(&self) -> (url: String)
        ensures
            url@ == self@.server_url + completions_path(),
    {
        join(self.server_url.as_str(), "/v1/chat/completions")
    }

    /// Puts together the request for one prompt: clamps the requested
    /// response length, works out what the prompt leaves for history, keeps
    /// the most recent turns of the transcript that fit, and lines up the
    /// messages.
    pub fn prepare(&self, prompt: &str, max_tokens: usize, history: &Vec<String>) -> (request:
        GenerationRequest)
        ensures
            request@ == self@.request(prompt@, max_tokens, text_views(history@)),
            self@.limits.min_tokens <= request.max_tokens <= self@.limits.max_tokens,
    {
        proof {
            use_type_invariant(self);
        }
        let (adjusted, adjustment) = self.limits.adjust_max_tokens(max_tokens);
        let messages: Vec<Message> = assemble(&self.limits, prompt, history, adjusted);
        GenerationRequest {
            url: self.endpoint(),
            model: String::from_str("local-model"),
            messages,
            max_tokens: adjusted,
            adjustment,
        }
    }
}

/// A model that is shared among the handlers of requests.
pub struct ModelManager {
    pub model: Arc<LlamaModel>,
}

impl ModelManager {
    /// Makes a model for the server at `server_url` and shares it, if the
    /// limits are valid; else names the first rule that they break.
    pub fn new(server_url: String, limits: TokenLimits) -> (made: Result<ModelManager, ConfigError>)
        ensures
            match made {
                Ok(manager) => limits.valid() && manager.model@ == (ModelView {
                    server_url: server_url@,
                    limits,
                }),
                Err(error) => !limits.valid() && limits.checked() == Err::<(), ConfigError>(error),
            },
    {
        match LlamaModel::new(server_url, limits) {
            Ok(model) => Ok(ModelManager { model: Arc::new(model) }),
            Err(error) => Err(error),
        }
    }
}

} // verus!
