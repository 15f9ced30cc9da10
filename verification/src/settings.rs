//! Settings as they come from the environment: texts that may be absent or
//! unreadable, and the values that stand for them.
//!
//! A limit is read as a decimal numeral. A setting that is absent, or that is
//! no numeral, or whose value is too large for the machine, gives way to the
//! default.

use vstd::prelude::*;
use vstd::string::StringExecFns;
use vstd::string::StringSliceAdditionalSpecFns;
use crate::chat::FALLBACK_MAX_TOKENS;
use crate::limits::{
    ConfigError, TokenLimits, DEFAULT_MAX_CONTEXT_WINDOW, DEFAULT_MAX_TOKENS, DEFAULT_MIN_TOKENS,
    DEFAULT_RESPONSE_RESERVE, DEFAULT_SYSTEM_MESSAGE_RESERVE,
};
use crate::model::{LlamaModel, ModelView};
use crate::text::decimal_text;

verus! {

/// The byte that stands for a decimal digit `0`.
pub const DIGIT_ZERO: u8 = 0x30;

/// The byte that stands for a decimal digit `9`.
pub const DIGIT_NINE: u8 = 0x39;

/// The byte of a plus sign.
pub const PLUS_SIGN: u8 = 0x2b;

/// The address of the generation server where none is configured.
pub open spec fn default_server_url() -> Seq<char> {
    "http://localhost:8081"@
}

/// Every byte is a decimal digit.
pub open spec fn all_digits(bytes: Seq<u8>) -> bool {
    forall|i: int| 0 <= i < bytes.len() ==> DIGIT_ZERO <= #[trigger] bytes[i] <= DIGIT_NINE
}

/// The number that a run of decimal digits stands for.
pub open spec fn digits_value(digits: Seq<u8>) -> nat
    decreases digits.len(),
{
    if digits.len() == 0 {
        0
    } else {
        (digits_value(digits.drop_last()) * 10 + (digits.last() - DIGIT_ZERO)) as nat
    }
}

/// A numeral without the plus sign that may stand in front of it.
pub open spec fn unsigned_part(bytes: Seq<u8>) -> Seq<u8> {
    if bytes.len() > 0 && bytes[0] == PLUS_SIGN {
        bytes.skip(1)
    } else {
        bytes
    }
}

/// The limit that a text stands for: the text is a decimal numeral, one
/// digit at least, with or without a plus sign in front and with nothing
/// else around it, and its value fits the machine's word.
pub open spec fn parsed_limit(text: Seq<char>) -> Option<usize> {
    let digits = unsigned_part(vstd::utf8::encode_utf8(text));
    if digits.len() > 0 && all_digits(digits) && digits_value(digits) <= usize::MAX {
        Some(digits_value(digits) as usize)
    } else {
        None
    }
}

/// More digits never stand for less: the value of the first digits of a
/// numeral is at most the value of the numeral.
proof fn digits_value_grows(digits: Seq<u8>, count: int)
    requires
        all_digits(digits),
        0 <= count <= digits.len(),
    ensures
        digits_value(digits.take(count)) <= digits_value(digits),
    decreases digits.len(),
{
    if count == digits.len() {
        assert(digits.take(count) =~= digits);
    } else {
        let shorter = digits.drop_last();
        assert(shorter.take(count) =~= digits.take(count));
        assert(digits.last() == digits[digits.len() - 1]);
        digits_value_grows(shorter, count);
    }
}

/// The bytes of a decimal numeral, as `decimal_text` writes it, are digits
/// that stand for the number written.
proof fn decimal_text_is_numeral(n: nat)
    ensures
        decimal_text(n).len() > 0,
        vstd::utf8::is_ascii_chars(decimal_text(n)),
        vstd::utf8::encode_utf8(decimal_text(n)).len() == decimal_text(n).len(),
        all_digits(vstd::utf8::encode_utf8(decimal_text(n))),
        digits_value(vstd::utf8::encode_utf8(decimal_text(n))) == n,
    decreases n,
{
    let text = decimal_text(n);
    if n >= 10 {
        decimal_text_is_numeral(n / 10);
        let shorter = decimal_text(n / 10);
        assert(text.drop_last() =~= shorter);
        assert forall|i: int| 0 <= i < text.len() implies '\0' <= #[trigger] text[i]
            <= '\u{7f}' by {
            if i < shorter.len() {
                assert(text[i] == shorter[i]);
            }
        }
        vstd::utf8::is_ascii_chars_encode_utf8(text);
        vstd::utf8::is_ascii_chars_encode_utf8(shorter);
        let bytes = vstd::utf8::encode_utf8(text);
        let fewer = vstd::utf8::encode_utf8(shorter);
        assert(bytes.drop_last() =~= fewer) by {
            assert forall|i: int| 0 <= i < fewer.len() implies bytes.drop_last()[i] == fewer[i] by {
                assert(text[i] == shorter[i]);
            }
        }
        assert(bytes.last() == text.last() as u8);
        assert(bytes.last() - DIGIT_ZERO == n % 10);
        assert forall|i: int| 0 <= i < bytes.len() implies DIGIT_ZERO <= #[trigger] bytes[i]
            <= DIGIT_NINE by {
            if i < fewer.len() {
                assert(bytes[i] == bytes.drop_last()[i]);
            }
        }
    } else {
        vstd::utf8::is_ascii_chars_encode_utf8(text);
        let bytes = vstd::utf8::encode_utf8(text);
        assert(bytes[0] == text[0] as u8);
        assert(bytes.drop_last() =~= Seq::<u8>::empty());
        assert(digits_value(bytes.drop_last()) == 0);
    }
}

/// A limit reads back from its decimal numeral.
pub proof fn written_limit_reads_back(limit: usize)
    ensures
        parsed_limit(decimal_text(limit as nat)) == Some(limit),
{
    decimal_text_is_numeral(limit as nat);
    let bytes = vstd::utf8::encode_utf8(decimal_text(limit as nat));
    assert(DIGIT_ZERO <= bytes[0] <= DIGIT_NINE);
}

/// Reads a limit from a text.
pub fn parse_limit(text: &str) -> (parsed: Option<usize>)
    ensures
        parsed == parsed_limit(text@),
{
    let bytes: &[u8] = text.as_bytes();
    let n: usize = bytes.len();
    let first: usize = if n > 0 && bytes[0] == PLUS_SIGN {
        1
    } else {
        0
    };
    let ghost digits = unsigned_part(bytes@);
    assert(digits =~= bytes@.skip(first as int));
    if first == n {
        return None;
    }
    let mut value: usize = 0;
    let mut i: usize = first;
    assert(digits.take(0) =~= Seq::<u8>::empty());
    while i < n
        invariant
            first <= i <= n,
            n == bytes@.len(),
            bytes@ == vstd::utf8::encode_utf8(text@),
            digits == unsigned_part(bytes@),
            digits == bytes@.skip(first as int),
            all_digits(digits.take(i - first)),
            value == digits_value(digits.take(i - first)),
        decreases n - i,
    {
        let byte: u8 = bytes[i];
        let ghost seen = digits.take(i - first + 1);
        proof {
            assert(seen.last() == byte);
            assert(seen.drop_last() =~= digits.take(i - first));
        }
        if byte < DIGIT_ZERO || byte > DIGIT_NINE {
            assert(digits[i - first] == byte);
            return None;
        }
        assert(all_digits(seen)) by {
            assert forall|j: int| 0 <= j < seen.len() implies DIGIT_ZERO <= #[trigger] seen[j]
                <= DIGIT_NINE by {
                if j < seen.len() - 1 {
                    assert(seen[j] == digits.take(i - first)[j]);
                }
            }
        }
        let digit: usize = (byte - DIGIT_ZERO) as usize;
        let grown: Option<usize> = match value.checked_mul(10) {
            Some(tens) => tens.checked_add(digit),
            None => None,
        };
        match grown {
            Some(next) => {
                value = next;
            },
            None => {
                proof {
                    assert(digits_value(seen) > usize::MAX);
                    if all_digits(digits) {
                        digits_value_grows(digits, i - first + 1);
                    }
                }
                return None;
            },
        }
        i += 1;
    }
    assert(digits.take(n - first) =~= digits);
    Some(value)
}

/// The value of a setting that holds a limit: what the setting says where it
/// is a limit, else the default.
pub open spec fn limit_setting(raw: Option<Seq<char>>, default: usize) -> usize {
    match raw {
        Some(text) => match parsed_limit(text) {
            Some(limit) => limit,
            None => default,
        },
        None => default,
    }
}

/// The view of a setting that may be absent.
pub open spec fn setting_view(raw: Option<&str>) -> Option<Seq<char>> {
    match raw {
        Some(text) => Some(text@),
        None => None,
    }
}

/// Reads a setting that holds a limit, with the default in its place where
/// it is absent or unreadable.
pub fn limit_or(raw: Option<&str>, default: usize) -> (limit: usize)
    ensures
        limit == limit_setting(setting_view(raw), default),
{
    match raw {
        Some(text) => match parse_limit(text) {
            Some(limit) => limit,
            None => default,
        },
        None => default,
    }
}

/// The response length asked for where a request names none: the configured
/// upper bound where it is readable, else the fallback.
pub fn default_max_tokens(max_tokens: Option<&str>) -> (limit: usize)
    ensures
        limit == limit_setting(setting_view(max_tokens), FALLBACK_MAX_TOKENS),
{
    limit_or(max_tokens, FALLBACK_MAX_TOKENS)
}

/// The settings of a model as the environment gives them.
#[derive(Clone, Debug, PartialEq, Eq)]
pub struct Settings {
    pub server_url: Option<String>,
    pub max_context_window: Option<String>,
    pub system_message_reserve: Option<String>,
    pub response_reserve: Option<String>,
    pub min_tokens: Option<String>,
    pub max_tokens: Option<String>,
}

/// The view of a text that may be absent.
pub open spec fn owned_setting_view(raw: Option<String>) -> Option<Seq<char>> {
    match raw {
        Some(text) => Some(text@),
        None => None,
    }
}

impl Settings {
    /// The limits that the settings stand for, each with its default where
    /// the setting is absent or unreadable.
    pub open spec fn limits(self) -> TokenLimits {
        TokenLimits {
            max_context_window: limit_setting(
                owned_setting_view(self.max_context_window),
                DEFAULT_MAX_CONTEXT_WINDOW,
            ),
            system_message_reserve: limit_setting(
                owned_setting_view(self.system_message_reserve),
                DEFAULT_SYSTEM_MESSAGE_RESERVE,
            ),
            response_reserve: limit_setting(
                owned_setting_view(self.response_reserve),
                DEFAULT_RESPONSE_RESERVE,
            ),
            min_tokens: limit_setting(owned_setting_view(self.min_tokens), DEFAULT_MIN_TOKENS),
            max_tokens: limit_setting(owned_setting_view(self.max_tokens), DEFAULT_MAX_TOKENS),
        }
    }

    /// The address of the generation server that the settings stand for.
    pub open spec fn address(self) -> Seq<char> {
        match self.server_url {
            Some(url) => url@,
            None => default_server_url(),
        }
    }

    /// Nothing is configured: every setting is absent.
    pub open spec fn unset(self) -> bool {
        &&& self.server_url is None
        &&& self.max_context_window is None
        &&& self.system_message_reserve is None
        &&& self.response_reserve is None
        &&& self.min_tokens is None
        &&& self.max_tokens is None
    }

    /// Settings with nothing configured: every setting is absent, so they
    /// stand for the standard limits and the default address.
    pub fn empty() -> (settings: Settings)
        ensures
            settings.unset(),
            settings.limits() == TokenLimits::standard(),
            settings.address() == default_server_url(),
    {
        Settings {
            server_url: None,
            max_context_window: None,
            system_message_reserve: None,
            response_reserve: None,
            min_tokens: None,
            max_tokens: None,
        }
    }

    /// Reads the limits out of the settings.
    pub fn token_limits(&self) -> (limits: TokenLimits)
        ensures
            limits == self.limits(),
    {
        TokenLimits {
            max_context_window: owned_limit_or(
                &self.max_context_window,
                DEFAULT_MAX_CONTEXT_WINDOW,
            ),
            system_message_reserve: owned_limit_or(
                &self.system_message_reserve,
                DEFAULT_SYSTEM_MESSAGE_RESERVE,
            ),
            response_reserve: owned_limit_or(&self.response_reserve, DEFAULT_RESPONSE_RESERVE),
            min_tokens: owned_limit_or(&self.min_tokens, DEFAULT_MIN_TOKENS),
            max_tokens: owned_limit_or(&self.max_tokens, DEFAULT_MAX_TOKENS),
        }
    }

    /// Reads the address of the generation server out of the settings.
    pub fn server_address(&self) -> (url: String)
        ensures
            url@ == self.address(),
    {
        match &self.server_url {
            Some(url) => url.clone(),
            None => String::from_str("http://localhost:8081"),
        }
    }

    /// Makes the model that the settings describe, if the limits that they
    /// stand for are valid; else names the first rule that these break.
    pub fn model(&self) -> (made: Result<LlamaModel, ConfigError>)
        ensures
            match made {
                Ok(model) => self.limits().valid() && model@ == (ModelView {
                    server_url: self.address(),
                    limits: self.limits(),
                }),
                Err(error) => !self.limits().valid() && self.limits().checked() == Err::<
                    (),
                    ConfigError,
                >(error),
            },
    {
        LlamaModel::new(self.server_address(), self.token_limits())
    }
}

/// Reads a setting that holds a limit, with the default in its place where
/// it is absent or unreadable.
fn owned_limit_or(raw: &Option<String>, default: usize) -> (limit: usize)
    ensures
        limit == limit_setting(owned_setting_view(*raw), default),
{
    match raw {
        Some(text) => limit_or(Some(text.as_str()), default),
        None => default,
    }
}

} // verus!
