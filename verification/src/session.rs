//! The conversation store: the authoritative keeper of all session state.
//! It maps each (student id, session id) pair to at most one session and
//! guarantees that a session's prompt never changes and that its log is only
//! ever appended to.

use vstd::prelude::*;

use crate::message::{
    conversation_of, fresh_session, msgs_view, system_message, with_message, AbsMessage,
    AbsSession, Message, Role,
};
use crate::text::str_eq;

verus! {

/// A session is addressed by the pair (student id, session id), as values.
pub type SessionKey = (Seq<char>, Seq<char>);

/// The error a store operation reports when the addressed session does not
/// exist.
#[derive(Clone, Copy, PartialEq, Eq, Structural, Debug)]
pub enum StoreError {
    SessionNotFound,
}

/// One session's stored state: the immutable system prompt and the ordered,
/// append-only log of user and assistant turns.
#[derive(Debug)]
pub struct SessionData {
    pub system_prompt: String,
    pub messages: Vec<Message>,
}

impl View for SessionData {
    type V = AbsSession;

    open spec fn view(&self) -> AbsSession {
        AbsSession { system_prompt: self.system_prompt@, messages: msgs_view(self.messages@) }
    }
}

struct Entry {
    student_id: String,
    session_id: String,
    data: SessionData,
}

spec fn entry_key(e: Entry) -> SessionKey {
    (e.student_id@, e.session_id@)
}

spec fn has_key(s: Seq<Entry>, k: SessionKey) -> bool {
    exists|i: int| 0 <= i < s.len() && entry_key(s[i]) == k
}

spec fn key_index(s: Seq<Entry>, k: SessionKey) -> int {
    choose|i: int| 0 <= i < s.len() && entry_key(s[i]) == k
}

spec fn unique_keys(s: Seq<Entry>) -> bool {
    forall|i: int, j: int|
        0 <= i < j < s.len() ==> entry_key(s[i]) != entry_key(s[j])
}

spec fn entries_map(s: Seq<Entry>) -> Map<SessionKey, AbsSession> {
    Map::new(|k: SessionKey| has_key(s, k), |k: SessionKey| s[key_index(s, k)].data@)
}

/// With unique keys, the chosen index of a present key is the only index that
/// carries it.
proof fn lemma_key_index(s: Seq<Entry>, k: SessionKey, i: int)
    requires
        unique_keys(s),
        0 <= i < s.len(),
        entry_key(s[i]) == k,
    ensures
        has_key(s, k),
        key_index(s, k) == i,
{
    assert(has_key(s, k));
    let j = key_index(s, k);
    assert(0 <= j < s.len() && entry_key(s[j]) == k);
    if j < i {
        assert(entry_key(s[j]) != entry_key(s[i]));
    }
    if i < j {
        assert(entry_key(s[i]) != entry_key(s[j]));
    }
}

/// Taking one entry out removes exactly its key from the induced map.
proof fn lemma_remove_entry(s: Seq<Entry>, i: int)
    requires
        unique_keys(s),
        0 <= i < s.len(),
    ensures
        unique_keys(s.remove(i)),
        !has_key(s.remove(i), entry_key(s[i])),
        entries_map(s.remove(i)) =~= entries_map(s).remove(entry_key(s[i])),
{
    let s2 = s.remove(i);
    let k = entry_key(s[i]);
    s.remove_ensures(i);
    assert forall|a: int, b: int| 0 <= a < b < s2.len() implies entry_key(s2[a]) != entry_key(
        s2[b],
    ) by {
        let oa: int = if a < i { a } else { a + 1 };
        let ob: int = if b < i { b } else { b + 1 };
        assert(s2[a] == s[oa]);
        assert(s2[b] == s[ob]);
        assert(entry_key(s[oa]) != entry_key(s[ob]));
    }
    assert forall|j: int| 0 <= j < s2.len() implies entry_key(s2[j]) != k by {
        let oj: int = if j < i { j } else { j + 1 };
        assert(s2[j] == s[oj]);
        if oj < i {
            assert(entry_key(s[oj]) != entry_key(s[i]));
        } else {
            assert(entry_key(s[i]) != entry_key(s[oj]));
        }
    }
    assert forall|k2: SessionKey| #[trigger] has_key(s2, k2) implies has_key(s, k2) && k2 != k by {
        let j = choose|j: int| 0 <= j < s2.len() && entry_key(s2[j]) == k2;
        let oj: int = if j < i { j } else { j + 1 };
        assert(s2[j] == s[oj]);
        assert(0 <= oj < s.len() && entry_key(s[oj]) == k2);
    }
    assert forall|k2: SessionKey| has_key(s, k2) && k2 != k implies #[trigger] has_key(
        s2,
        k2,
    ) && entries_map(s2)[k2] == entries_map(s)[k2] by {
        let j = choose|j: int| 0 <= j < s.len() && entry_key(s[j]) == k2;
        assert(j != i);
        let nj: int = if j < i { j } else { j - 1 };
        assert(s2[nj] == s[j]);
        assert(0 <= nj < s2.len() && entry_key(s2[nj]) == k2);
        lemma_key_index(s, k2, j);
        lemma_key_index(s2, k2, nj);
    }
}

/// Pushing an entry with a fresh key adds exactly that binding to the map.
proof fn lemma_push_entry(s: Seq<Entry>, e: Entry)
    requires
        unique_keys(s),
        !has_key(s, entry_key(e)),
    ensures
        unique_keys(s.push(e)),
        entries_map(s.push(e)) =~= entries_map(s).insert(entry_key(e), e.data@),
{
    let s2 = s.push(e);
    let k = entry_key(e);
    assert forall|a: int, b: int| 0 <= a < b < s2.len() implies entry_key(s2[a]) != entry_key(
        s2[b],
    ) by {
        if b < s.len() {
            assert(entry_key(s[a]) != entry_key(s[b]));
        } else {
            assert(s2[b] == e);
            assert(s2[a] == s[a]);
            if entry_key(s[a]) == k {
                assert(has_key(s, k));
            }
        }
    }
    assert(s2[s.len() as int] == e);
    lemma_key_index(s2, k, s.len() as int);
    assert forall|k2: SessionKey| #[trigger] has_key(s2, k2) && k2 != k implies has_key(
        s,
        k2,
    ) && entries_map(s2)[k2] == entries_map(s)[k2] by {
        let j = choose|j: int| 0 <= j < s2.len() && entry_key(s2[j]) == k2;
        assert(j < s.len());
        assert(s2[j] == s[j]);
        lemma_key_index(s, k2, j);
        lemma_key_index(s2, k2, j);
    }
    assert forall|k2: SessionKey| #[trigger] has_key(s, k2) implies has_key(s2, k2) by {
        let j = choose|j: int| 0 <= j < s.len() && entry_key(s[j]) == k2;
        assert(s2[j] == s[j]);
    }
}

/// The in-memory repository of all sessions. A (student id, session id) pair
/// denotes at most one session; creating the same pair again replaces the
/// prior session wholesale.
pub struct SessionManager {
    entries: Vec<Entry>,
}

impl SessionManager {
    /// The store's mathematical value: a finite map from session keys to
    /// session values.
    pub closed spec fn sessions(self) -> Map<SessionKey, AbsSession> {
        entries_map(self.entries@)
    }

    #[verifier::type_invariant]
    spec fn wf(self) -> bool {
        unique_keys(self.entries@)
    }

    /// An empty store.
    pub fn new() -> (m: Self)
        ensures
            m.sessions() == Map::<SessionKey, AbsSession>::empty(),
    {
        let m = SessionManager { entries: Vec::new() };
        proof {
            assert(m.sessions() =~= Map::<SessionKey, AbsSession>::empty());
        }
        m
    }

    /// Unconditionally inserts or replaces the session under the given pair.
    /// Prior state under the same key, if any, is discarded: last writer wins.
    pub fn create_session(&mut self, student_id: &str, session_id: &str, system_prompt: &str)
        ensures
            final(self).sessions() == old(self).sessions().insert(
                (student_id@, session_id@),
                fresh_session(system_prompt@),
            ),
    {
        proof {
            use_type_invariant(&*self);
        }
        let ghost m0 = self.sessions();
        let ghost k = (student_id@, session_id@);
        let data = SessionData { system_prompt: system_prompt.to_owned(), messages: Vec::new() };
        let entry = Entry {
            student_id: student_id.to_owned(),
            session_id: session_id.to_owned(),
            data,
        };
        assert(entry.data@ =~= fresh_session(system_prompt@));
        let mut entries: Vec<Entry> = Vec::new();
        std::mem::swap(&mut entries, &mut self.entries);
        let found = find_in(&entries, student_id, session_id);
        match found {
            Some(i) => {
                proof {
                    lemma_remove_entry(entries@, i as int);
                }
                let ghost after_remove = entries@.remove(i as int);
                entries.remove(i);
                proof {
                    lemma_push_entry(after_remove, entry);
                }
                entries.push(entry);
                proof {
                    assert(entries_map(entries@) =~= m0.insert(k, fresh_session(system_prompt@)));
                }
            },
            None => {
                proof {
                    lemma_push_entry(entries@, entry);
                }
                entries.push(entry);
                proof {
                    assert(entries_map(entries@) =~= m0.insert(k, fresh_session(system_prompt@)));
                }
            },
        }
        self.entries = entries;
    }

    /// Read-only lookup of a session's stored state.
    pub fn get_session(&self, student_id: &str, session_id: &str) -> (r: Option<&SessionData>)
        ensures
            match r {
                Some(data) => self.sessions().contains_key((student_id@, session_id@))
                    && data@ == self.sessions()[(student_id@, session_id@)],
                None => !self.sessions().contains_key((student_id@, session_id@)),
            },
    {
        proof {
            use_type_invariant(self);
        }
        match find_in(&self.entries, student_id, session_id) {
            Some(i) => {
                proof {
                    lemma_key_index(self.entries@, (student_id@, session_id@), i as int);
                }
                Some(&self.entries[i].data)
            },
            None => None,
        }
    }

    /// Appends one turn at the end of the addressed session's log, or reports
    /// that the session does not exist, leaving the store unchanged.
    pub fn add_message(
        &mut self,
        student_id: &str,
        session_id: &str,
        role: Role,
        content: &str,
    ) -> (r: Result<(), StoreError>)
        ensures
            match r {
                Ok(()) => {
                    &&& old(self).sessions().contains_key((student_id@, session_id@))
                    &&& final(self).sessions() == old(self).sessions().insert(
                        (student_id@, session_id@),
                        with_message(
                            old(self).sessions()[(student_id@, session_id@)],
                            AbsMessage { role, content: content@ },
                        ),
                    )
                },
                Err(e) => {
                    &&& e == StoreError::SessionNotFound
                    &&& !old(self).sessions().contains_key((student_id@, session_id@))
                    &&& final(self).sessions() == old(self).sessions()
                },
            },
    {
        proof {
            use_type_invariant(&*self);
        }
        let ghost m0 = self.sessions();
        let ghost k = (student_id@, session_id@);
        let mut entries: Vec<Entry> = Vec::new();
        std::mem::swap(&mut entries, &mut self.entries);
        let found = find_in(&entries, student_id, session_id);
        match found {
            Some(i) => {
                proof {
                    lemma_key_index(entries@, k, i as int);
                    lemma_remove_entry(entries@, i as int);
                }
                let ghost after_remove = entries@.remove(i as int);
                let ghost old_abs = m0[k];
                let mut entry = entries.remove(i);
                let msg = Message { role, content: content.to_owned() };
                let ghost abs_msg = AbsMessage { role, content: content@ };
                entry.data.messages.push(msg);
                proof {
                    assert(msgs_view(entry.data.messages@) =~= old_abs.messages.push(abs_msg));
                    assert(entry.data@ =~= with_message(old_abs, abs_msg));
                    lemma_push_entry(after_remove, entry);
                }
                entries.push(entry);
                proof {
                    assert(entries_map(entries@) =~= m0.insert(k, with_message(old_abs, abs_msg)));
                }
                self.entries = entries;
                Ok(())
            },
            None => {
                self.entries = entries;
                Err(StoreError::SessionNotFound)
            },
        }
    }

    /// Materializes the conversation for the addressed session: the
    /// synthesized system message followed by the stored log, in order.
    /// Never mutates state; the system message is not stored.
    pub fn get_conversation(&self, student_id: &str, session_id: &str) -> (r: Option<
        Vec<Message>,
    >)
        ensures
            match r {
                Some(conv) => self.sessions().contains_key((student_id@, session_id@))
                    && msgs_view(conv@) == conversation_of(
                    self.sessions()[(student_id@, session_id@)],
                ),
                None => !self.sessions().contains_key((student_id@, session_id@)),
            },
    {
        proof {
            use_type_invariant(self);
        }
        match find_in(&self.entries, student_id, session_id) {
            Some(i) => {
                proof {
                    lemma_key_index(self.entries@, (student_id@, session_id@), i as int);
                }
                let data = &self.entries[i].data;
                let mut conv: Vec<Message> = Vec::new();
                conv.push(Message { role: Role::System, content: data.system_prompt.clone() });
                let n = data.messages.len();
                let mut j: usize = 0;
                while j < n
                    invariant
                        j <= n,
                        n == data.messages@.len(),
                        conv@.len() == 1 + j,
                        conv@[0]@ == system_message(data.system_prompt@),
                        forall|t: int| 0 <= t < j ==> conv@[t + 1]@ == data.messages@[t]@,
                    decreases n - j,
                {
                    let m = data.messages[j].clone();
                    conv.push(m);
                    j = j + 1;
                }
                proof {
                    assert(msgs_view(conv@) =~= conversation_of(
                        self.sessions()[(student_id@, session_id@)],
                    ));
                }
                Some(conv)
            },
            None => None,
        }
    }
}

/// The position of the entry that carries the given key, if any. A free
/// function, so it works on entries held locally during a mutation as well as
/// on the store's own.
fn find_in(entries: &Vec<Entry>, student_id: &str, session_id: &str) -> (r: Option<usize>)
    ensures
        match r {
            Some(i) => i < entries@.len() && entry_key(entries@[i as int]) == (
                student_id@,
                session_id@,
            ),
            None => !has_key(entries@, (student_id@, session_id@)),
        },
{
    let n = entries.len();
    let mut i: usize = 0;
    while i < n
        invariant
            i <= n,
            n == entries@.len(),
            forall|j: int| 0 <= j < i ==> entry_key(entries@[j]) != (student_id@, session_id@),
        decreases n - i,
    {
        let e = &entries[i];
        if str_eq(e.student_id.as_str(), student_id) && str_eq(e.session_id.as_str(), session_id) {
            return Some(i);
        }
        i = i + 1;
    }
    None
}

} // verus!
