//! A coarse token estimate: one token for every four bytes of text.

use vstd::prelude::*;
use vstd::string::StringSliceAdditionalSpecFns;

verus! {

/// Bytes of UTF-8 text that count as one token.
pub const BYTES_PER_TOKEN: usize = 4;

/// The estimate for a text of `len` bytes: a quarter of the length, and at
/// least one.
pub open spec fn estimate_for_len(len: nat) -> nat {
    if len / (BYTES_PER_TOKEN as nat) >= 1 {
        len / (BYTES_PER_TOKEN as nat)
    } else {
        1
    }
}

/// The length of a text: the number of bytes of its UTF-8 encoding.
pub open spec fn byte_len(text: Seq<char>) -> nat {
    vstd::utf8::encode_utf8(text).len()
}

/// The estimate for a text, which depends on its length alone.
pub open spec fn token_estimate(text: Seq<char>) -> nat {
    estimate_for_len(byte_len(text))
}

/// Approximates the number of tokens in `text`. This is a proxy for a real
/// tokenizer, good enough to budget a context window.
pub fn estimate_tokens(text: &str) -> (tokens: usize)
    ensures
        tokens == token_estimate(text@),
        tokens >= 1,
{
    let quarter: usize = text.as_bytes().len() / BYTES_PER_TOKEN;
    if quarter >= 1 {
        quarter
    } else {
        1
    }
}

/// The estimate never falls as a text gets longer, and is never below one.
pub proof fn estimate_monotonic(shorter: Seq<char>, longer: Seq<char>)
    requires
        byte_len(shorter) <= byte_len(longer),
    ensures
        1 <= token_estimate(shorter) <= token_estimate(longer),
{
    let a = byte_len(shorter);
    let b = byte_len(longer);
    assert(a / 4 <= b / 4) by (nonlinear_arith)
        requires
            a <= b,
    ;
}

/// The length of two texts joined is the sum of their lengths.
pub proof fn byte_len_of_joined(head: Seq<char>, tail: Seq<char>)
    ensures
        byte_len(head + tail) == byte_len(head) + byte_len(tail),
    decreases head.len(),
{
    if head.len() == 0 {
        assert(head + tail =~= tail);
    } else {
        let joined = head + tail;
        assert(joined[0] == head[0]);
        assert(joined.drop_first() =~= head.drop_first() + tail);
        byte_len_of_joined(head.drop_first(), tail);
    }
}

/// Adding to a text, in front or behind, never lowers its estimate.
pub proof fn estimate_grows_with_text(before: Seq<char>, text: Seq<char>, after: Seq<char>)
    ensures
        token_estimate(text) <= token_estimate(before + text + after),
{
    byte_len_of_joined(before, text);
    byte_len_of_joined(before + text, after);
    estimate_monotonic(text, before + text + after);
}

} // verus!
