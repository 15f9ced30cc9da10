use llama_chat::sessions::HistoryStore;

fn turns(texts: &[&str]) -> Vec<String> {
    texts.iter().map(|t| t.to_string()).collect()
}

#[test]
fn new_store_knows_no_session() {
    let store = HistoryStore::new();
    assert!(!store.contains(1));
    assert_eq!(store.snapshot(1), Vec::<String>::new());
    assert_eq!(store.turn_count(1), 0);
}

#[test]
fn lookup_enters_an_unknown_session() {
    let mut store = HistoryStore::new();
    assert_eq!(store.get_or_create(7), 0);
    assert!(store.contains(7));
    assert!(!store.contains(8));
    assert_eq!(store.snapshot(7), Vec::<String>::new());
}

#[test]
fn lookup_leaves_a_known_session_as_it_is() {
    let mut store = HistoryStore::new();
    store.append(7, "user: a".to_string());
    store.append(7, "assistant: b".to_string());
    assert_eq!(store.get_or_create(7), 2);
    assert_eq!(store.snapshot(7), turns(&["user: a", "assistant: b"]));
}

#[test]
fn append_enters_an_unknown_session() {
    let mut store = HistoryStore::new();
    store.append(3, "user: a".to_string());
    assert!(store.contains(3));
    assert_eq!(store.snapshot(3), turns(&["user: a"]));
    assert_eq!(store.turn_count(3), 1);
}

#[test]
fn turns_stay_in_the_order_of_appending() {
    let mut store = HistoryStore::new();
    for i in 0..20 {
        store.append(9, format!("user: {}", i));
    }
    let expected: Vec<String> = (0..20).map(|i| format!("user: {}", i)).collect();
    assert_eq!(store.snapshot(9), expected);
}

#[test]
fn sessions_do_not_see_each_other() {
    let mut store = HistoryStore::new();
    store.append(1, "user: for a".to_string());
    store.append(2, "user: for b".to_string());
    store.append(1, "assistant: to a".to_string());
    assert_eq!(store.snapshot(1), turns(&["user: for a", "assistant: to a"]));
    assert_eq!(store.snapshot(2), turns(&["user: for b"]));
    assert_eq!(store.snapshot(3), Vec::<String>::new());
    assert!(!store.contains(3));
}

#[test]
fn widely_different_identifiers_are_kept_apart() {
    let mut store = HistoryStore::new();
    let a: u128 = 0x0123_4567_89ab_4def_8123_4567_89ab_cdef;
    let b: u128 = a ^ (1u128 << 127);
    let c: u128 = a ^ 1;
    store.append(a, "user: a".to_string());
    store.append(b, "user: b".to_string());
    store.append(c, "user: c".to_string());
    assert_eq!(store.snapshot(a), turns(&["user: a"]));
    assert_eq!(store.snapshot(b), turns(&["user: b"]));
    assert_eq!(store.snapshot(c), turns(&["user: c"]));
}

#[test]
fn snapshot_is_a_copy() {
    let mut store = HistoryStore::new();
    store.append(1, "user: a".to_string());
    let mut copy = store.snapshot(1);
    copy.push("assistant: never said".to_string());
    copy[0] = "user: changed".to_string();
    assert_eq!(store.snapshot(1), turns(&["user: a"]));
    store.append(1, "assistant: b".to_string());
    assert_eq!(copy, turns(&["user: changed", "assistant: never said"]));
}

#[test]
fn append_if_present_needs_a_known_session() {
    let mut store = HistoryStore::new();
    assert!(!store.append_if_present(5, "assistant: x".to_string()));
    assert!(!store.contains(5));
    store.get_or_create(5);
    assert!(store.append_if_present(5, "assistant: x".to_string()));
    assert_eq!(store.snapshot(5), turns(&["assistant: x"]));
}
