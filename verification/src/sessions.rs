//! The history store: for every session its transcript, the turns in the
//! order in which they were appended.
//!
//! A store is a plain value. Whoever shares one among requests guards it
//! with a lock, and holds the lock for one operation at a time, never
//! across a call to the generation server.

use std::collections::HashMap;
use vstd::prelude::*;
use crate::models::text_views;

verus! {

broadcast use vstd::std_specs::hash::group_hash_axioms;

/// The transcript of a session in a store; empty for a session that the
/// store does not know.
pub open spec fn turns_of(store: Map<u128, Seq<Seq<char>>>, id: u128) -> Seq<Seq<char>> {
    if store.contains_key(id) {
        store[id]
    } else {
        Seq::empty()
    }
}

/// A store after a turn was appended to a session. A session that the store
/// did not know begins with that turn.
pub open spec fn appended(store: Map<u128, Seq<Seq<char>>>, id: u128, turn: Seq<char>) -> Map<
    u128,
    Seq<Seq<char>>,
> {
    store.insert(id, turns_of(store, id).push(turn))
}

/// A store after a session was looked up: a session that the store did not
/// know is in it, with an empty transcript.
pub open spec fn with_session(store: Map<u128, Seq<Seq<char>>>, id: u128) -> Map<
    u128,
    Seq<Seq<char>>,
> {
    store.insert(id, turns_of(store, id))
}

/// The transcripts of all sessions, each under the session's identifier.
pub struct HistoryStore {
    sessions: HashMap<u128, Vec<String>>,
}

impl View for HistoryStore {
    type V = Map<u128, Seq<Seq<char>>>;

    closed spec fn view(&self) -> Map<u128, Seq<Seq<char>>> {
        Map::new(
            |id: u128| self.sessions@.contains_key(id),
            |id: u128| text_views(self.sessions@[id]@),
        )
    }
}

impl HistoryStore {
    /// A store without sessions.
    pub fn new() -> (store: HistoryStore)
        ensures
            store@ == Map::<u128, Seq<Seq<char>>>::empty(),
    {
        let store = HistoryStore { sessions: HashMap::new() };
        assert(store@ =~= Map::<u128, Seq<Seq<char>>>::empty());
        store
    }

    /// Tells whether the store knows a session.
    pub fn contains(&self, id: u128) -> (known: bool)
        ensures
            known == self@.contains_key(id),
    {
        self.sessions.contains_key(&id)
    }

    /// The number of turns in the transcript of a session.
    pub fn turn_count(&self, id: u128) -> (count: usize)
        ensures
            count == turns_of(self@, id).len(),
    {
        match self.sessions.get(&id) {
            Some(turns) => turns.len(),
            None => 0,
        }
    }

    /// Looks a session up, and enters it with an empty transcript if the
    /// store did not know it. Returns the number of turns that the session
    /// holds.
    pub fn get_or_create(&mut self, id: u128) -> (count: usize)
        ensures
            final(self)@ == with_session(old(self)@, id),
            count == turns_of(old(self)@, id).len(),
    {
        match self.sessions.get(&id) {
            Some(turns) => {
                let count: usize = turns.len();
                assert(self@ =~= with_session(self@, id));
                count
            },
            None => {
                let ghost before = self@;
                self.sessions.insert(id, Vec::new());
                assert(text_views(Seq::<String>::empty()) =~= Seq::<Seq<char>>::empty());
                assert(self@ =~= with_session(before, id));
                0
            },
        }
    }

    /// Appends a turn to the transcript of a session. A session that the
    /// store did not know is entered first. No other session changes.
    pub fn append(&mut self, id: u128, turn: String)
        ensures
            final(self)@ == appended(old(self)@, id, turn@),
            forall|other: u128|
                other != id ==> turns_of(final(self)@, other) == turns_of(old(self)@, other),
    {
        let ghost before = self@;
        let turns = self.sessions.entry(id).or_insert(Vec::new());
        let ghost earlier = turns@;
        assert(text_views(earlier) =~= turns_of(before, id));
        turns.push(turn);
        assert(text_views(turns@) =~= text_views(earlier).push(turn@));
        assert(self@ =~= appended(before, id, turn@));
    }

    /// Appends a turn to the transcript of a session that the store knows,
    /// and tells whether it did. A store that does not know the session
    /// stays as it is.
    pub fn append_if_present(&mut self, id: u128, turn: String) -> (done: bool)
        ensures
            done == old(self)@.contains_key(id),
            done ==> final(self)@ == appended(old(self)@, id, turn@),
            !done ==> final(self)@ == old(self)@,
    {
        if self.sessions.contains_key(&id) {
            self.append(id, turn);
            true
        } else {
            false
        }
    }

    /// A copy of the transcript of a session, oldest turn first; empty for a
    /// session that the store does not know.
    pub fn snapshot(&self, id: u128) -> (turns: Vec<String>)
        ensures
            text_views(turns@) == turns_of(self@, id),
    {
        let mut copy: Vec<String> = Vec::new();
        match self.sessions.get(&id) {
            Some(turns) => {
                let mut i: usize = 0;
                while i < turns.len()
                    invariant
                        i <= turns.len(),
                        text_views(copy@) =~= text_views(turns@).take(i as int),
                    decreases turns.len() - i,
                {
                    let ghost before = copy@;
                    let turn: String = turns[i].clone();
                    copy.push(turn);
                    proof {
                        assert(copy@ =~= before.push(turn));
                        assert(text_views(copy@) =~= text_views(before).push(turn@));
                    }
                    i += 1;
                }
                assert(text_views(turns@).take(turns.len() as int) =~= text_views(turns@));
            },
            None => {
                assert(text_views(copy@) =~= Seq::<Seq<char>>::empty());
            },
        }
        copy
    }
}

/// Sessions do not touch each other: appending a turn to one session leaves
/// the transcript of every other session as it was, and makes no other
/// session known or unknown.
pub proof fn sessions_are_isolated(
    store: Map<u128, Seq<Seq<char>>>,
    writer: u128,
    turn: Seq<char>,
    reader: u128,
)
    requires
        writer != reader,
    ensures
        turns_of(appended(store, writer, turn), reader) == turns_of(store, reader),
        appended(store, writer, turn).contains_key(reader) == store.contains_key(reader),
{
}

/// A turn that was appended is the last turn of its session, behind all the
/// turns that the session held before.
pub proof fn appended_turn_is_last(store: Map<u128, Seq<Seq<char>>>, id: u128, turn: Seq<char>)
    ensures
        turns_of(appended(store, id, turn), id) == turns_of(store, id).push(turn),
        turns_of(appended(store, id, turn), id).last() == turn,
{
}

} // verus!
