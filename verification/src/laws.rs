//! General laws of the session model, stated over the abstract values the
//! store and orchestrator contracts speak of and proved once and for all.

use vstd::prelude::*;

use crate::message::{
    assistant_message, conversation_of, fresh_session, system_message, user_message, with_message,
    AbsMessage, AbsSession, Role,
};
use crate::session::SessionKey;

verus! {

/// Law: after creating a session — whatever was stored under its key before —
/// materializing it at once yields exactly one message: the system message
/// carrying the configured prompt.
pub proof fn lemma_create_then_materialize(
    sessions: Map<SessionKey, AbsSession>,
    key: SessionKey,
    prompt: Seq<char>,
)
    ensures
        sessions.insert(key, fresh_session(prompt)).contains_key(key),
        conversation_of(sessions.insert(key, fresh_session(prompt))[key]) =~= seq![
            system_message(prompt),
        ],
{
}

/// A log that holds completed query rounds only: user and assistant turns
/// strictly alternating, each user turn followed by its assistant turn.
pub open spec fn alternating_turns(msgs: Seq<AbsMessage>) -> bool {
    &&& msgs.len() % 2 == 0
    &&& forall|i: int| 0 <= i < msgs.len() && i % 2 == 0 ==> msgs[i].role == Role::User
    &&& forall|i: int| 0 <= i < msgs.len() && i % 2 == 1 ==> msgs[i].role == Role::Assistant
}

/// A fresh session's log holds no turns, so it trivially alternates.
pub proof fn lemma_fresh_session_alternates(prompt: Seq<char>)
    ensures
        alternating_turns(fresh_session(prompt).messages),
{
}

/// Law: one successful query round — the user turn appended by `begin_query`,
/// then the assistant turn appended by `finish_query` — extends the log by
/// exactly those two turns in order, keeps the prompt, preserves alternation,
/// and the materialized conversation is the system message followed by the
/// log. By induction from the fresh session, any run of successful rounds
/// leaves the conversation as system, user, assistant, user, assistant, and
/// so on, in call order.
pub proof fn lemma_query_round(s: AbsSession, query: Seq<char>, reply: Seq<char>)
    requires
        alternating_turns(s.messages),
    ensures
        ({
            let s2 = with_message(with_message(s, user_message(query)), assistant_message(reply));
            &&& s2.system_prompt == s.system_prompt
            &&& s2.messages =~= s.messages + seq![user_message(query), assistant_message(reply)]
            &&& alternating_turns(s2.messages)
            &&& conversation_of(s2) =~= seq![system_message(s.system_prompt)] + s2.messages
        }),
{
    let s2 = with_message(with_message(s, user_message(query)), assistant_message(reply));
    let n = s.messages.len() as int;
    assert(s2.messages =~= s.messages + seq![user_message(query), assistant_message(reply)]);
    assert forall|i: int|
        0 <= i < s2.messages.len() && i % 2 == 0 implies s2.messages[i].role == Role::User by {
        if i < n {
        } else {
            assert(i == n);
        }
    }
    assert forall|i: int|
        0 <= i < s2.messages.len() && i % 2 == 1 implies s2.messages[i].role
        == Role::Assistant by {
        if i < n {
        } else {
            assert(i == n + 1);
        }
    }
}

/// The log a run of successful query rounds leaves behind: for each round —
/// a query and the reply it got — its user turn then its assistant turn, in
/// call order.
pub open spec fn log_of_rounds(rounds: Seq<(Seq<char>, Seq<char>)>) -> Seq<AbsMessage>
    decreases rounds.len(),
{
    if rounds.len() == 0 {
        Seq::empty()
    } else {
        log_of_rounds(rounds.drop_last()) + seq![
            user_message(rounds.last().0),
            assistant_message(rounds.last().1),
        ]
    }
}

/// A session created fresh and then taken through a run of successful query
/// rounds, each appending its user turn and then its assistant turn.
pub open spec fn session_after_rounds(
    prompt: Seq<char>,
    rounds: Seq<(Seq<char>, Seq<char>)>,
) -> AbsSession
    decreases rounds.len(),
{
    if rounds.len() == 0 {
        fresh_session(prompt)
    } else {
        with_message(
            with_message(
                session_after_rounds(prompt, rounds.drop_last()),
                user_message(rounds.last().0),
            ),
            assistant_message(rounds.last().1),
        )
    }
}

/// Law: for every run of successful query rounds against one session, the
/// materialized conversation is the system message followed by the rounds'
/// user and assistant turns as pairs, in strict call order, and the log
/// alternates throughout.
pub proof fn lemma_conversation_after_rounds(
    prompt: Seq<char>,
    rounds: Seq<(Seq<char>, Seq<char>)>,
)
    ensures
        session_after_rounds(prompt, rounds).system_prompt == prompt,
        session_after_rounds(prompt, rounds).messages =~= log_of_rounds(rounds),
        alternating_turns(log_of_rounds(rounds)),
        conversation_of(session_after_rounds(prompt, rounds)) =~= seq![system_message(prompt)]
            + log_of_rounds(rounds),
    decreases rounds.len(),
{
    if rounds.len() > 0 {
        let prev = session_after_rounds(prompt, rounds.drop_last());
        let query = rounds.last().0;
        let reply = rounds.last().1;
        lemma_conversation_after_rounds(prompt, rounds.drop_last());
        assert(alternating_turns(prev.messages));
        lemma_query_round(prev, query, reply);
        assert(session_after_rounds(prompt, rounds).messages =~= log_of_rounds(rounds));
        assert(alternating_turns(log_of_rounds(rounds)));
    }
}

/// Law: a materialized conversation carries the system message first and the
/// stored turns after it, in order; its length is one more than the log's.
pub proof fn lemma_conversation_shape(s: AbsSession)
    ensures
        conversation_of(s).len() == 1 + s.messages.len(),
        conversation_of(s)[0] == system_message(s.system_prompt),
        forall|i: int| 0 <= i < s.messages.len() ==> conversation_of(s)[i + 1] == s.messages[i],
{
}

} // verus!
