//! Stored turns: how a turn is written down, how it is read back, and which
//! turns of a transcript fit a token budget.
//!
//! A transcript is a list of texts in chronological order. Each text carries
//! its role as a prefix, `"user: "` or `"assistant: "`. When the budget is
//! tight the oldest turns are dropped first.

use vstd::prelude::*;
use crate::models::{text_views, Message, MessageView, Role};
use crate::text::{join, starts_with, trim_leading, without_leading};
use crate::tokens::{estimate_tokens, token_estimate};

verus! {

/// The tag in front of a turn of the user.
pub open spec fn user_prefix() -> Seq<char> {
    "user: "@
}

/// The tag in front of a turn of the assistant.
pub open spec fn assistant_prefix() -> Seq<char> {
    "assistant: "@
}

/// Writes down what the user said as a turn of the transcript.
pub fn user_turn(message: &str) -> (turn: String)
    ensures
        turn@ == user_prefix() + message@,
{
    join("user: ", message)
}

/// Writes down what the assistant replied as a turn of the transcript.
pub fn assistant_turn(reply: &str) -> (turn: String)
    ensures
        turn@ == assistant_prefix() + reply@,
{
    join("assistant: ", reply)
}

/// The message that a stored turn stands for: its role by its tag, its
/// content with the tag removed (and any repetition of the tag with it).
/// A turn with neither tag stands for no message.
pub open spec fn turn_message(turn: Seq<char>) -> Option<MessageView> {
    if user_prefix().is_prefix_of(turn) {
        Some(MessageView { role: Role::User, content: without_leading(turn, user_prefix()) })
    } else if assistant_prefix().is_prefix_of(turn) {
        Some(
            MessageView {
                role: Role::Assistant,
                content: without_leading(turn, assistant_prefix()),
            },
        )
    } else {
        None
    }
}

/// The view of a message that may be absent.
pub open spec fn optional_view(message: Option<Message>) -> Option<MessageView> {
    match message {
        Some(m) => Some(m@),
        None => None,
    }
}

/// Reads a stored turn back. A malformed turn gives `None`.
pub fn parse_turn(turn: &str) -> (message: Option<Message>)
    ensures
        optional_view(message) == turn_message(turn@),
{
    if starts_with(turn, "user: ") {
        let content: String = trim_leading(turn, "user: ").to_owned();
        Some(Message { role: Role::User, content })
    } else if starts_with(turn, "assistant: ") {
        let content: String = trim_leading(turn, "assistant: ").to_owned();
        Some(Message { role: Role::Assistant, content })
    } else {
        None
    }
}

/// A turn of the user reads back as a message of the user. Its content is
/// what was written down, but for a message that itself begins with the
/// user's tag: such a beginning goes with the tag.
pub proof fn user_turn_reads_back(message: Seq<char>)
    ensures
        turn_message(user_prefix() + message) == Some(
            MessageView { role: Role::User, content: without_leading(message, user_prefix()) },
        ),
        !user_prefix().is_prefix_of(message) ==> turn_message(user_prefix() + message) == Some(
            MessageView { role: Role::User, content: message },
        ),
{
    reveal_strlit("user: ");
    let turn = user_prefix() + message;
    assert(turn.subrange(0, user_prefix().len() as int) =~= user_prefix());
    assert(turn.skip(user_prefix().len() as int) =~= message);
}

/// A turn of the assistant reads back as a message of the assistant. Its
/// content is what was written down, but for a reply that itself begins with
/// the assistant's tag: such a beginning goes with the tag.
pub proof fn assistant_turn_reads_back(reply: Seq<char>)
    ensures
        turn_message(assistant_prefix() + reply) == Some(
            MessageView {
                role: Role::Assistant,
                content: without_leading(reply, assistant_prefix()),
            },
        ),
        !assistant_prefix().is_prefix_of(reply) ==> turn_message(assistant_prefix() + reply)
            == Some(MessageView { role: Role::Assistant, content: reply }),
{
    reveal_strlit("user: ");
    reveal_strlit("assistant: ");
    let turn = assistant_prefix() + reply;
    assert(turn.subrange(0, assistant_prefix().len() as int) =~= assistant_prefix());
    assert(turn.skip(assistant_prefix().len() as int) =~= reply);
    assert(turn[0] == 'a');
    assert(user_prefix()[0] == 'u');
    if user_prefix().is_prefix_of(turn) {
        assert(turn.subrange(0, user_prefix().len() as int)[0] == turn[0]);
    }
}

/// The messages that a list of turns stands for, malformed turns left out.
pub open spec fn turn_messages(turns: Seq<Seq<char>>) -> Seq<MessageView>
    decreases turns.len(),
{
    if turns.len() == 0 {
        seq![]
    } else {
        let earlier = turn_messages(turns.drop_last());
        match turn_message(turns.last()) {
            Some(m) => earlier.push(m),
            None => earlier,
        }
    }
}

/// A list of turns stands for at most as many messages as it has turns.
pub proof fn turn_messages_bounded(turns: Seq<Seq<char>>)
    ensures
        turn_messages(turns).len() <= turns.len(),
    decreases turns.len(),
{
    if turns.len() > 0 {
        turn_messages_bounded(turns.drop_last());
    }
}

/// The messages of two lists of turns, one after the other, are the messages
/// of the first followed by those of the second.
pub proof fn turn_messages_of_joined(first: Seq<Seq<char>>, second: Seq<Seq<char>>)
    ensures
        turn_messages(first + second) == turn_messages(first) + turn_messages(second),
    decreases second.len(),
{
    if second.len() == 0 {
        assert(first + second =~= first);
        assert(turn_messages(first) + turn_messages(second) =~= turn_messages(first));
    } else {
        let joined = first + second;
        assert(joined.last() == second.last());
        assert(joined.drop_last() =~= first + second.drop_last());
        turn_messages_of_joined(first, second.drop_last());
        match turn_message(second.last()) {
            Some(m) => {
                assert(turn_messages(joined) =~= turn_messages(first) + turn_messages(second));
            },
            None => {},
        }
    }
}

/// A malformed turn is passed over: wherever it stands in a list of turns,
/// the messages are those of the list without it.
pub proof fn malformed_turn_is_skipped(
    before: Seq<Seq<char>>,
    turn: Seq<char>,
    after: Seq<Seq<char>>,
)
    requires
        turn_message(turn) is None,
    ensures
        turn_messages(before + seq![turn] + after) == turn_messages(before + after),
{
    let single = seq![turn];
    assert(single.drop_last() =~= Seq::<Seq<char>>::empty());
    assert(turn_messages(single.drop_last()) =~= Seq::<MessageView>::empty());
    assert(turn_messages(single) =~= Seq::<MessageView>::empty());
    turn_messages_of_joined(before, single);
    turn_messages_of_joined(before + single, after);
    turn_messages_of_joined(before, after);
    assert(turn_messages(before) + turn_messages(single) =~= turn_messages(before));
}

/// The estimated size of a list of turns: the sum of their estimates.
pub open spec fn total_estimate(turns: Seq<Seq<char>>) -> nat
    decreases turns.len(),
{
    if turns.len() == 0 {
        0
    } else {
        total_estimate(turns.drop_last()) + token_estimate(turns.last())
    }
}

/// The last `count` turns of a transcript.
pub open spec fn most_recent(history: Seq<Seq<char>>, count: nat) -> Seq<Seq<char>> {
    history.skip(history.len() - count)
}

/// How many of the most recent turns are kept under a budget: walking back
/// from the newest turn, every turn is kept until one would not fit in what
/// the turns after it have left of the budget.
pub open spec fn retained_count(history: Seq<Seq<char>>, budget: nat) -> nat
    decreases history.len(),
{
    if history.len() == 0 {
        0
    } else {
        let cost = token_estimate(history.last());
        if cost > budget {
            0
        } else {
            1 + retained_count(history.drop_last(), (budget - cost) as nat)
        }
    }
}

/// The turns of a transcript that are kept under a budget, oldest first.
pub open spec fn retained_turns(history: Seq<Seq<char>>, budget: nat) -> Seq<Seq<char>> {
    most_recent(history, retained_count(history, budget))
}

/// No more turns are kept than there are.
pub proof fn retained_count_bounded(history: Seq<Seq<char>>, budget: nat)
    ensures
        retained_count(history, budget) <= history.len(),
    decreases history.len(),
{
    if history.len() > 0 {
        let cost = token_estimate(history.last());
        if cost <= budget {
            retained_count_bounded(history.drop_last(), (budget - cost) as nat);
        }
    }
}

/// Truncation keeps the longest run of most recent turns that fits: the last
/// `count` turns of a transcript fit the budget exactly when `count` is at
/// most the number of turns kept.
pub proof fn retained_is_longest_fit(history: Seq<Seq<char>>, budget: nat, count: nat)
    requires
        count <= history.len(),
    ensures
        total_estimate(most_recent(history, count)) <= budget <==> count <= retained_count(
            history,
            budget,
        ),
    decreases history.len(),
{
    if count == 0 {
        assert(most_recent(history, 0).len() == 0);
    } else {
        let recent = most_recent(history, count);
        let cost = token_estimate(history.last());
        let older = history.drop_last();
        assert(recent.last() == history.last());
        assert(recent.drop_last() =~= most_recent(older, (count - 1) as nat));
        if cost <= budget {
            retained_is_longest_fit(older, (budget - cost) as nat, (count - 1) as nat);
        }
    }
}

/// What is kept fits the budget.
pub proof fn retained_turns_fit(history: Seq<Seq<char>>, budget: nat)
    ensures
        total_estimate(retained_turns(history, budget)) <= budget,
{
    retained_count_bounded(history, budget);
    retained_is_longest_fit(history, budget, retained_count(history, budget));
}

/// Which turns are kept depends on the sizes of the turns alone, not on what
/// they say: two transcripts whose turns have the same estimates, one by
/// one, keep the same number of turns. A malformed turn counts like any
/// other.
pub proof fn retention_goes_by_size(first: Seq<Seq<char>>, second: Seq<Seq<char>>, budget: nat)
    requires
        first.len() == second.len(),
        forall|i: int|
            0 <= i < first.len() ==> token_estimate(first[i]) == token_estimate(second[i]),
    ensures
        retained_count(first, budget) == retained_count(second, budget),
    decreases first.len(),
{
    if first.len() > 0 {
        let cost = token_estimate(first.last());
        assert(token_estimate(second.last()) == cost);
        if cost <= budget {
            retention_goes_by_size(first.drop_last(), second.drop_last(), (budget - cost) as nat);
        }
    }
}

/// Where the kept part of a transcript begins: every turn from this index on
/// is kept, every turn before it is dropped.
pub fn retained_start(history: &Vec<String>, budget: usize) -> (start: usize)
    ensures
        start <= history.len(),
        history.len() - start == retained_count(text_views(history@), budget as nat),
{
    let ghost turns = text_views(history@);
    let mut start: usize = history.len();
    let mut left: usize = budget;
    assert(turns.take(start as int) =~= turns);
    while start > 0
        invariant
            start <= history.len(),
            turns == text_views(history@),
            retained_count(turns, budget as nat) == (history.len() - start) + retained_count(
                turns.take(start as int),
                left as nat,
            ),
        decreases start,
    {
        let cost: usize = estimate_tokens(history[start - 1].as_str());
        proof {
            let older = turns.take(start as int);
            assert(older.last() == history@[start - 1]@);
            assert(older.drop_last() =~= turns.take(start - 1));
        }
        if cost > left {
            return start;
        }
        left = left - cost;
        start = start - 1;
    }
    assert(turns.take(0).len() == 0);
    start
}

/// Keeps the most recent turns of a transcript that fit the budget, in
/// chronological order. The turns kept are the longest run of most recent
/// turns whose estimates sum to at most `budget`.
pub fn truncate_history(history: &Vec<String>, budget: usize) -> (kept: Vec<String>)
    ensures
        text_views(kept@) == retained_turns(text_views(history@), budget as nat),
        kept.len() <= history.len(),
        text_views(kept@) == most_recent(text_views(history@), kept.len() as nat),
        total_estimate(text_views(kept@)) <= budget,
        kept.len() < history.len() ==> total_estimate(
            most_recent(text_views(history@), (kept.len() + 1) as nat),
        ) > budget,
{
    let ghost turns = text_views(history@);
    let start: usize = retained_start(history, budget);
    let mut kept: Vec<String> = Vec::new();
    let mut i: usize = start;
    while i < history.len()
        invariant
            start <= i <= history.len(),
            turns == text_views(history@),
            text_views(kept@) =~= turns.subrange(start as int, i as int),
        decreases history.len() - i,
    {
        let ghost before = kept@;
        let turn: String = history[i].clone();
        kept.push(turn);
        proof {
            assert(kept@ =~= before.push(turn));
            assert(text_views(kept@) =~= text_views(before).push(turn@));
        }
        i += 1;
    }
    proof {
        let count = retained_count(turns, budget as nat);
        assert(text_views(kept@) =~= most_recent(turns, count));
        retained_is_longest_fit(turns, budget as nat, count);
        if count < turns.len() {
            retained_is_longest_fit(turns, budget as nat, count + 1);
        }
    }
    kept
}

} // verus!
