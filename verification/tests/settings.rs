use llama_chat::chat::FALLBACK_MAX_TOKENS;
use llama_chat::limits::{ConfigError, TokenLimits};
use llama_chat::settings::{default_max_tokens, limit_or, parse_limit, Settings};

#[test]
fn numerals_are_read() {
    assert_eq!(parse_limit("0"), Some(0));
    assert_eq!(parse_limit("7"), Some(7));
    assert_eq!(parse_limit("12"), Some(12));
    assert_eq!(parse_limit("4096"), Some(4096));
    assert_eq!(parse_limit("0012"), Some(12));
    assert_eq!(parse_limit("+12"), Some(12));
    assert_eq!(parse_limit("+0"), Some(0));
}

#[test]
fn what_is_no_numeral_is_not_read() {
    for text in [
        "", "+", "-", "-1", "-0", "++1", "+-1", "1+", "12a", "a12", "1 2", " 12", "12 ", "12\n",
        "1_000", "1,000", "1.0", "1e3", "0x10", "１２", "٣", "twelve", "+ 1",
    ] {
        assert_eq!(parse_limit(text), None, "{:?}", text);
    }
}

#[test]
fn numerals_too_large_are_not_read() {
    assert_eq!(parse_limit(&usize::MAX.to_string()), Some(usize::MAX));
    assert_eq!(parse_limit(&format!("000{}", usize::MAX)), Some(usize::MAX));
    assert_eq!(parse_limit(&format!("{}0", usize::MAX)), None);
    assert_eq!(parse_limit("340282366920938463463374607431768211456"), None);
    let above = (usize::MAX as u128) + 1;
    assert_eq!(parse_limit(&above.to_string()), None);
    assert_eq!(parse_limit(&format!("{}x", above)), None);
}

#[test]
fn reading_agrees_with_the_standard_parser() {
    let pieces = ["", "+", "-", "0", "1", "9", "18446744073709551615", "18446744073709551616",
        "4294967295", "4294967296", " ", "a", "00", "99999999999999999999", "é", "5"];
    for a in pieces {
        for b in pieces {
            let text = format!("{}{}", a, b);
            assert_eq!(parse_limit(&text), text.parse::<usize>().ok(), "{:?}", text);
        }
    }
}

#[test]
fn absent_or_unreadable_setting_gives_the_default() {
    assert_eq!(limit_or(None, 4096), 4096);
    assert_eq!(limit_or(Some(""), 4096), 4096);
    assert_eq!(limit_or(Some("many"), 4096), 4096);
    assert_eq!(limit_or(Some("-5"), 4096), 4096);
    assert_eq!(limit_or(Some("8192"), 4096), 8192);
    assert_eq!(limit_or(Some("0"), 4096), 0);
}

#[test]
fn default_response_length_falls_back() {
    assert_eq!(FALLBACK_MAX_TOKENS, 512);
    assert_eq!(default_max_tokens(None), 512);
    assert_eq!(default_max_tokens(Some("x")), 512);
    assert_eq!(default_max_tokens(Some("2048")), 2048);
}

#[test]
fn empty_settings_give_the_defaults() {
    let settings = Settings::empty();
    assert_eq!(settings.token_limits(), TokenLimits::default());
    assert_eq!(settings.server_address(), "http://localhost:8081");
    let model = match settings.model() {
        Ok(model) => model,
        Err(e) => panic!("refused: {:?}", e),
    };
    assert_eq!(model.limits(), TokenLimits::default());
    assert_eq!(model.endpoint(), "http://localhost:8081/v1/chat/completions");
}

#[test]
fn settings_override_the_defaults_one_by_one() {
    let mut settings = Settings::empty();
    settings.server_url = Some("http://gpu:9000".to_string());
    settings.max_context_window = Some("8192".to_string());
    settings.response_reserve = Some("oops".to_string());
    settings.max_tokens = Some("1024".to_string());
    assert_eq!(
        settings.token_limits(),
        TokenLimits {
            max_context_window: 8192,
            system_message_reserve: 200,
            response_reserve: 500,
            min_tokens: 100,
            max_tokens: 1024,
        }
    );
    assert_eq!(settings.server_address(), "http://gpu:9000");
    assert!(settings.model().is_ok());
}

#[test]
fn contradictory_settings_are_refused() {
    let mut settings = Settings::empty();
    settings.min_tokens = Some("5000".to_string());
    assert!(matches!(settings.model(), Err(ConfigError::MinTokensAboveMax)));
    let mut settings = Settings::empty();
    settings.max_context_window = Some("2048".to_string());
    assert!(matches!(settings.model(), Err(ConfigError::MaxTokensAboveWindow)));
    let mut settings = Settings::empty();
    settings.max_context_window = Some("700".to_string());
    settings.max_tokens = Some("700".to_string());
    assert!(matches!(settings.model(), Err(ConfigError::ReservesFillWindow)));
    let mut settings = Settings::empty();
    settings.max_context_window = Some("750".to_string());
    settings.max_tokens = Some("700".to_string());
    assert!(matches!(settings.model(), Err(ConfigError::InsufficientMessageSpace)));
    let mut settings = Settings::empty();
    settings.system_message_reserve = Some("0".to_string());
    assert!(matches!(settings.model(), Err(ConfigError::NonPositiveLimit)));
}

#[test]
fn empty_settings_hold_nothing() {
    let settings = Settings::empty();
    assert_eq!(settings.server_url, None);
    assert_eq!(settings.max_context_window, None);
    assert_eq!(settings.system_message_reserve, None);
    assert_eq!(settings.response_reserve, None);
    assert_eq!(settings.min_tokens, None);
    assert_eq!(settings.max_tokens, None);
}
