use llama_chat::text::{decimal_string, join, starts_with, trim_leading};

#[test]
fn prefix_is_found() {
    assert!(starts_with("user: hello", "user: "));
    assert!(starts_with("user: ", "user: "));
    assert!(starts_with("anything", ""));
    assert!(starts_with("", ""));
    assert!(starts_with("héllo", "hé"));
}

#[test]
fn prefix_is_not_found() {
    assert!(!starts_with("user:", "user: "));
    assert!(!starts_with("", "user: "));
    assert!(!starts_with("User: x", "user: "));
    assert!(!starts_with(" user: x", "user: "));
    assert!(!starts_with("hello", "hé"));
    assert!(!starts_with("he", "hé"));
}

#[test]
fn prefix_agrees_with_the_standard_test() {
    let texts = ["", "u", "user: ", "user: user: x", "assistant: y", "é", "éé", "日本", "日"];
    for text in texts {
        for prefix in texts {
            assert_eq!(starts_with(text, prefix), text.starts_with(prefix), "{:?} {:?}", text, prefix);
        }
    }
}

#[test]
fn leading_repetitions_are_removed() {
    assert_eq!(trim_leading("user: hello", "user: "), "hello");
    assert_eq!(trim_leading("user: user: hello", "user: "), "hello");
    assert_eq!(trim_leading("hello", "user: "), "hello");
    assert_eq!(trim_leading("hello user: ", "user: "), "hello user: ");
    assert_eq!(trim_leading("aaa", "a"), "");
    assert_eq!(trim_leading("ééé日", "é"), "日");
    assert_eq!(trim_leading("abc", ""), "abc");
    assert_eq!(trim_leading("", "a"), "");
}

#[test]
fn trimming_agrees_with_the_standard_one() {
    let texts = ["", "u", "user: ", "user: user: x", "ababab", "abababa", "ééa", "日日本"];
    let prefixes = ["u", "user: ", "ab", "aba", "é", "日", "x"];
    for text in texts {
        for prefix in prefixes {
            assert_eq!(trim_leading(text, prefix), text.trim_start_matches(prefix));
        }
    }
}

#[test]
fn numbers_are_written_in_decimal() {
    assert_eq!(decimal_string(0), "0");
    assert_eq!(decimal_string(7), "7");
    assert_eq!(decimal_string(10), "10");
    assert_eq!(decimal_string(4096), "4096");
    assert_eq!(decimal_string(1002003), "1002003");
    assert_eq!(decimal_string(usize::MAX), usize::MAX.to_string());
    for n in 0..2000usize {
        assert_eq!(decimal_string(n), n.to_string());
    }
}

#[test]
fn texts_are_joined() {
    assert_eq!(join("ab", "cd"), "abcd");
    assert_eq!(join("", "cd"), "cd");
    assert_eq!(join("ab", ""), "ab");
    assert_eq!(join("é", "日"), "é日");
}
