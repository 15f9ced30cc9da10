//! Token limits: the context window, what is set aside of it, and the bounds
//! on the length of a response.

use vstd::prelude::*;
use vstd::string::StringExecFns;

verus! {

/// Default size of the context window, in tokens.
pub const DEFAULT_MAX_CONTEXT_WINDOW: usize = 4096;

/// Default number of tokens set aside for the system message.
pub const DEFAULT_SYSTEM_MESSAGE_RESERVE: usize = 200;

/// Default number of tokens set aside for the response.
pub const DEFAULT_RESPONSE_RESERVE: usize = 500;

/// Default lower bound on the length of a response.
pub const DEFAULT_MIN_TOKENS: usize = 100;

/// Default upper bound on the length of a response.
pub const DEFAULT_MAX_TOKENS: usize = 4096;

/// The least room that the reserves must leave in the context window: enough
/// for one exchange.
pub const MIN_MESSAGE_SPACE: usize = 100;

/// The limits that a model is configured with, all counted in tokens.
#[derive(Clone, Copy, Debug, PartialEq, Eq, Structural)]
pub struct TokenLimits {
    pub max_context_window: usize,
    pub system_message_reserve: usize,
    pub response_reserve: usize,
    pub min_tokens: usize,
    pub max_tokens: usize,
}

/// Why a set of limits is refused.
#[derive(Clone, Copy, Debug, PartialEq, Eq, Structural)]
pub enum ConfigError {
    /// One of the limits is zero.
    NonPositiveLimit,
    /// The lower bound on a response is above the upper bound.
    MinTokensAboveMax,
    /// The upper bound on a response is above the context window.
    MaxTokensAboveWindow,
    /// The two reserves together take the whole context window.
    ReservesFillWindow,
    /// The reserves leave less than [`MIN_MESSAGE_SPACE`] tokens.
    InsufficientMessageSpace,
}

impl ConfigError {
    /// The text that describes the error.
    pub open spec fn text(self) -> Seq<char> {
        match self {
            ConfigError::NonPositiveLimit => {
                "Invalid token limits: every limit must be positive"@
            },
            ConfigError::MinTokensAboveMax => {
                "Invalid token limits: MIN_TOKENS > MAX_TOKENS"@
            },
            ConfigError::MaxTokensAboveWindow => {
                "Invalid token limits: MAX_TOKENS > MAX_CONTEXT_WINDOW"@
            },
            ConfigError::ReservesFillWindow => {
                "Invalid token limits: SYSTEM_MESSAGE_RESERVE + RESPONSE_RESERVE >= MAX_CONTEXT_WINDOW"@
            },
            ConfigError::InsufficientMessageSpace => {
                "Insufficient space for messages: less than 100 tokens available after reserves"@
            },
        }
    }

    /// Describes the error in words.
    pub fn message(&self) -> (text: String)
        ensures
            text@ == self.text(),
    {
        match self {
            ConfigError::NonPositiveLimit => String::from_str(
                "Invalid token limits: every limit must be positive",
            ),
            ConfigError::MinTokensAboveMax => String::from_str(
                "Invalid token limits: MIN_TOKENS > MAX_TOKENS",
            ),
            ConfigError::MaxTokensAboveWindow => String::from_str(
                "Invalid token limits: MAX_TOKENS > MAX_CONTEXT_WINDOW",
            ),
            ConfigError::ReservesFillWindow => String::from_str(
                "Invalid token limits: SYSTEM_MESSAGE_RESERVE + RESPONSE_RESERVE >= MAX_CONTEXT_WINDOW",
            ),
            ConfigError::InsufficientMessageSpace => String::from_str(
                "Insufficient space for messages: less than 100 tokens available after reserves",
            ),
        }
    }
}

/// How a requested response length was brought within the limits.
#[derive(Clone, Copy, Debug, PartialEq, Eq, Structural)]
pub enum Adjustment {
    /// The request was within the limits and stands.
    Unchanged,
    /// The request was below the lower bound and was raised to it.
    Raised,
    /// The request was above the upper bound and was capped at it.
    Capped,
}

impl TokenLimits {
    /// The limits that hold where nothing else is configured.
    pub open spec fn standard() -> TokenLimits {
        TokenLimits {
            max_context_window: DEFAULT_MAX_CONTEXT_WINDOW,
            system_message_reserve: DEFAULT_SYSTEM_MESSAGE_RESERVE,
            response_reserve: DEFAULT_RESPONSE_RESERVE,
            min_tokens: DEFAULT_MIN_TOKENS,
            max_tokens: DEFAULT_MAX_TOKENS,
        }
    }

    /// Every limit is positive.
    pub open spec fn positive(self) -> bool {
        &&& self.max_context_window > 0
        &&& self.system_message_reserve > 0
        &&& self.response_reserve > 0
        &&& self.min_tokens > 0
        &&& self.max_tokens > 0
    }

    /// What both reserves take of the context window.
    pub open spec fn total_reserve(self) -> nat {
        (self.system_message_reserve + self.response_reserve) as nat
    }

    /// The limits are usable: all positive, the bounds on a response in
    /// order and within the window, and at least [`MIN_MESSAGE_SPACE`]
    /// tokens of the window left free by the reserves.
    pub open spec fn valid(self) -> bool {
        &&& self.positive()
        &&& self.min_tokens <= self.max_tokens
        &&& self.max_tokens <= self.max_context_window
        &&& self.total_reserve() < self.max_context_window
        &&& self.max_context_window - self.total_reserve() >= MIN_MESSAGE_SPACE
    }

    /// The first rule that the limits break, taking the rules in the order
    /// in which `valid` lists them; `Ok` if they break none.
    pub open spec fn checked(self) -> Result<(), ConfigError> {
        if !self.positive() {
            Err(ConfigError::NonPositiveLimit)
        } else if self.min_tokens > self.max_tokens {
            Err(ConfigError::MinTokensAboveMax)
        } else if self.max_tokens > self.max_context_window {
            Err(ConfigError::MaxTokensAboveWindow)
        } else if self.total_reserve() >= self.max_context_window {
            Err(ConfigError::ReservesFillWindow)
        } else if self.max_context_window - self.total_reserve() < MIN_MESSAGE_SPACE {
            Err(ConfigError::InsufficientMessageSpace)
        } else {
            Ok(())
        }
    }

    /// Checks the limits against the rules, and names the first one broken.
    pub fn check(&self) -> (outcome: Result<(), ConfigError>)
        ensures
            outcome == self.checked(),
            outcome is Ok <==> self.valid(),
    {
        if self.max_context_window == 0 || self.system_message_reserve == 0
            || self.response_reserve == 0 || self.min_tokens == 0 || self.max_tokens == 0 {
            return Err(ConfigError::NonPositiveLimit);
        }
        if self.min_tokens > self.max_tokens {
            return Err(ConfigError::MinTokensAboveMax);
        }
        if self.max_tokens > self.max_context_window {
            return Err(ConfigError::MaxTokensAboveWindow);
        }
        if self.system_message_reserve >= self.max_context_window || self.response_reserve
            >= self.max_context_window - self.system_message_reserve {
            return Err(ConfigError::ReservesFillWindow);
        }
        let free: usize = self.max_context_window - self.system_message_reserve
            - self.response_reserve;
        if free < MIN_MESSAGE_SPACE {
            return Err(ConfigError::InsufficientMessageSpace);
        }
        Ok(())
    }

    /// The response length that is sent upstream for a requested one: the
    /// request brought into the range from `min_tokens` to `max_tokens`.
    pub open spec fn clamped(self, requested: usize) -> usize {
        if requested < self.min_tokens {
            self.min_tokens
        } else if requested > self.max_tokens {
            self.max_tokens
        } else {
            requested
        }
    }

    /// Which way a requested response length has to move, if at all.
    pub open spec fn adjustment(self, requested: usize) -> Adjustment {
        if requested < self.min_tokens {
            Adjustment::Raised
        } else if requested > self.max_tokens {
            Adjustment::Capped
        } else {
            Adjustment::Unchanged
        }
    }

    /// Brings a requested response length within the limits, and reports
    /// whether and how it was changed.
    pub fn adjust_max_tokens(&self, requested: usize) -> (adjusted: (usize, Adjustment))
        ensures
            adjusted.0 == self.clamped(requested),
            adjusted.1 == self.adjustment(requested),
            self.valid() ==> self.min_tokens <= adjusted.0 <= self.max_tokens,
    {
        if requested < self.min_tokens {
            (self.min_tokens, Adjustment::Raised)
        } else if requested > self.max_tokens {
            (self.max_tokens, Adjustment::Capped)
        } else {
            (requested, Adjustment::Unchanged)
        }
    }

    /// The tokens left for conversation history beside a prompt of
    /// `prompt_tokens`: the context window less both reserves and the
    /// prompt, and zero where these exceed the window.
    pub open spec fn history_budget(self, prompt_tokens: nat) -> nat {
        let taken = self.total_reserve() + prompt_tokens;
        if taken >= self.max_context_window {
            0
        } else {
            (self.max_context_window - taken) as nat
        }
    }

    /// Computes the tokens left for conversation history beside a prompt of
    /// `prompt_tokens`.
    pub fn available_history_tokens(&self, prompt_tokens: usize) -> (available: usize)
        ensures
            available == self.history_budget(prompt_tokens as nat),
    {
        let after_system: usize = if self.system_message_reserve >= self.max_context_window {
            0
        } else {
            self.max_context_window - self.system_message_reserve
        };
        let after_response: usize = if self.response_reserve >= after_system {
            0
        } else {
            after_system - self.response_reserve
        };
        if prompt_tokens >= after_response {
            0
        } else {
            after_response - prompt_tokens
        }
    }
}

impl Default for TokenLimits {
    fn default() -> (limits: TokenLimits)
        ensures
            limits == TokenLimits::standard(),
            limits.valid(),
    {
        TokenLimits {
            max_context_window: DEFAULT_MAX_CONTEXT_WINDOW,
            system_message_reserve: DEFAULT_SYSTEM_MESSAGE_RESERVE,
            response_reserve: DEFAULT_RESPONSE_RESERVE,
            min_tokens: DEFAULT_MIN_TOKENS,
            max_tokens: DEFAULT_MAX_TOKENS,
        }
    }
}

/// Under valid limits a clamped response length lies between the two bounds,
/// whatever was requested.
pub proof fn clamped_within_bounds(limits: TokenLimits, requested: usize)
    requires
        limits.valid(),
    ensures
        limits.min_tokens <= limits.clamped(requested) <= limits.max_tokens,
{
}

/// Under valid limits, a prompt that fits in what the reserves leave of the
/// context window is budgeted without loss: the history budget is not cut
/// off at zero, and window, reserves, prompt and budget add up.
pub proof fn budget_exact_when_prompt_fits(limits: TokenLimits, prompt_tokens: nat)
    requires
        limits.valid(),
        prompt_tokens <= limits.max_context_window - limits.total_reserve(),
    ensures
        limits.history_budget(prompt_tokens) >= 0,
        limits.history_budget(prompt_tokens) + prompt_tokens + limits.total_reserve()
            == limits.max_context_window,
{
}

/// The history budget never grows with the prompt.
pub proof fn budget_shrinks_with_prompt(limits: TokenLimits, shorter: nat, longer: nat)
    requires
        shorter <= longer,
    ensures
        limits.history_budget(longer) <= limits.history_budget(shorter),
{
}

} // verus!
