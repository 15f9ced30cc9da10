use llama_chat::limits::{
    Adjustment, ConfigError, TokenLimits, DEFAULT_MAX_CONTEXT_WINDOW, DEFAULT_MAX_TOKENS,
    DEFAULT_MIN_TOKENS, DEFAULT_RESPONSE_RESERVE, DEFAULT_SYSTEM_MESSAGE_RESERVE,
    MIN_MESSAGE_SPACE,
};

fn limits(window: usize, system: usize, response: usize, min: usize, max: usize) -> TokenLimits {
    TokenLimits {
        max_context_window: window,
        system_message_reserve: system,
        response_reserve: response,
        min_tokens: min,
        max_tokens: max,
    }
}

#[test]
fn default_limits_are_the_documented_ones() {
    let d = TokenLimits::default();
    assert_eq!(d, limits(4096, 200, 500, 100, 4096));
    assert_eq!(DEFAULT_MAX_CONTEXT_WINDOW, 4096);
    assert_eq!(DEFAULT_SYSTEM_MESSAGE_RESERVE, 200);
    assert_eq!(DEFAULT_RESPONSE_RESERVE, 500);
    assert_eq!(DEFAULT_MIN_TOKENS, 100);
    assert_eq!(DEFAULT_MAX_TOKENS, 4096);
    assert_eq!(MIN_MESSAGE_SPACE, 100);
    assert_eq!(d.check(), Ok(()));
}

#[test]
fn zero_limit_is_refused() {
    assert_eq!(limits(0, 200, 500, 100, 4096).check(), Err(ConfigError::NonPositiveLimit));
    assert_eq!(limits(4096, 0, 500, 100, 4096).check(), Err(ConfigError::NonPositiveLimit));
    assert_eq!(limits(4096, 200, 0, 100, 4096).check(), Err(ConfigError::NonPositiveLimit));
    assert_eq!(limits(4096, 200, 500, 0, 4096).check(), Err(ConfigError::NonPositiveLimit));
    assert_eq!(limits(4096, 200, 500, 0, 0).check(), Err(ConfigError::NonPositiveLimit));
}

#[test]
fn min_above_max_is_refused() {
    assert_eq!(limits(4096, 200, 500, 101, 100).check(), Err(ConfigError::MinTokensAboveMax));
    assert_eq!(limits(4096, 200, 500, 100, 100).check(), Ok(()));
}

#[test]
fn max_above_window_is_refused() {
    assert_eq!(limits(4096, 200, 500, 100, 4097).check(), Err(ConfigError::MaxTokensAboveWindow));
    assert_eq!(limits(4096, 200, 500, 100, 4096).check(), Ok(()));
}

#[test]
fn reserves_that_fill_the_window_are_refused() {
    assert_eq!(limits(700, 200, 500, 100, 600).check(), Err(ConfigError::ReservesFillWindow));
    assert_eq!(limits(600, 200, 500, 100, 600).check(), Err(ConfigError::ReservesFillWindow));
    assert_eq!(limits(200, 200, 500, 100, 200).check(), Err(ConfigError::ReservesFillWindow));
}

#[test]
fn reserves_that_leave_too_little_are_refused() {
    assert_eq!(limits(701, 200, 500, 100, 600).check(), Err(ConfigError::InsufficientMessageSpace));
    assert_eq!(limits(799, 200, 500, 100, 600).check(), Err(ConfigError::InsufficientMessageSpace));
    assert_eq!(limits(800, 200, 500, 100, 600).check(), Ok(()));
}

#[test]
fn first_broken_rule_is_named() {
    assert_eq!(limits(50, 200, 500, 300, 100).check(), Err(ConfigError::MinTokensAboveMax));
    assert_eq!(limits(50, 200, 500, 100, 100).check(), Err(ConfigError::MaxTokensAboveWindow));
    assert_eq!(limits(0, 200, 500, 300, 100).check(), Err(ConfigError::NonPositiveLimit));
}

#[test]
fn huge_reserves_do_not_overflow() {
    let l = limits(usize::MAX, usize::MAX, usize::MAX, 1, 1);
    assert_eq!(l.check(), Err(ConfigError::ReservesFillWindow));
    assert_eq!(l.available_history_tokens(usize::MAX), 0);
    let l = limits(usize::MAX, usize::MAX - 200, 100, 1, 1);
    assert_eq!(l.check(), Ok(()));
    assert_eq!(l.available_history_tokens(30), 70);
}

#[test]
fn config_error_messages() {
    assert_eq!(
        ConfigError::MinTokensAboveMax.message(),
        "Invalid token limits: MIN_TOKENS > MAX_TOKENS"
    );
    assert_eq!(
        ConfigError::MaxTokensAboveWindow.message(),
        "Invalid token limits: MAX_TOKENS > MAX_CONTEXT_WINDOW"
    );
    assert_eq!(
        ConfigError::ReservesFillWindow.message(),
        "Invalid token limits: SYSTEM_MESSAGE_RESERVE + RESPONSE_RESERVE >= MAX_CONTEXT_WINDOW"
    );
    assert_eq!(
        ConfigError::InsufficientMessageSpace.message(),
        "Insufficient space for messages: less than 100 tokens available after reserves"
    );
    assert_eq!(
        ConfigError::NonPositiveLimit.message(),
        "Invalid token limits: every limit must be positive"
    );
}

#[test]
fn request_within_bounds_is_unchanged() {
    let d = TokenLimits::default();
    assert_eq!(d.adjust_max_tokens(100), (100, Adjustment::Unchanged));
    assert_eq!(d.adjust_max_tokens(512), (512, Adjustment::Unchanged));
    assert_eq!(d.adjust_max_tokens(4096), (4096, Adjustment::Unchanged));
}

#[test]
fn request_below_minimum_is_raised() {
    let d = TokenLimits::default();
    assert_eq!(d.adjust_max_tokens(0), (100, Adjustment::Raised));
    assert_eq!(d.adjust_max_tokens(99), (100, Adjustment::Raised));
}

#[test]
fn request_above_maximum_is_capped() {
    let d = TokenLimits::default();
    assert_eq!(d.adjust_max_tokens(4097), (4096, Adjustment::Capped));
    assert_eq!(d.adjust_max_tokens(usize::MAX), (4096, Adjustment::Capped));
}

#[test]
fn clamped_value_lies_between_the_bounds() {
    let l = limits(8192, 200, 500, 150, 2000);
    for requested in [0usize, 1, 149, 150, 151, 1999, 2000, 2001, 8192, usize::MAX] {
        let (adjusted, _) = l.adjust_max_tokens(requested);
        assert!(150 <= adjusted && adjusted <= 2000);
    }
}

#[test]
fn budget_for_short_prompt_under_default_limits() {
    let d = TokenLimits::default();
    assert_eq!(d.available_history_tokens(1), 3395);
    assert_eq!(d.available_history_tokens(0), 3396);
    assert_eq!(d.available_history_tokens(1000), 2396);
}

#[test]
fn budget_is_floored_at_zero() {
    let d = TokenLimits::default();
    assert_eq!(d.available_history_tokens(3395), 1);
    assert_eq!(d.available_history_tokens(3396), 0);
    assert_eq!(d.available_history_tokens(3397), 0);
    assert_eq!(d.available_history_tokens(usize::MAX), 0);
}

#[test]
fn budget_and_prompt_and_reserves_fill_the_window() {
    let l = limits(1000, 200, 500, 100, 600);
    for prompt in 0..=300usize {
        assert_eq!(l.available_history_tokens(prompt) + prompt + 700, 1000);
    }
}
