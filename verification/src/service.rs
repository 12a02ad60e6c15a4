//! The orchestrator: session lifecycle and the query protocol. It owns the
//! conversation store and is the only component that is meant to talk to the
//! remote completion provider.
//!
//! The provider call itself is a suspending network operation and stays with
//! the caller: a query is processed in two verified halves. `begin_query`
//! validates, appends the user turn and hands back the conversation to send;
//! `finish_query` takes the provider's outcome, reduced to plain values, and
//! reconciles it with the session history.

use vstd::prelude::*;

use crate::message::{
    assistant_message, conversation_of, fresh_session, msgs_view, user_message, with_message,
    Message, Role,
};
use crate::session::{SessionKey, SessionManager};
use crate::text::{check_blank, is_blank, trim_text, trimmed};

verus! {

/// Why a request was refused: the caller's fault (a blank identifier or
/// query), an unknown session, or a failure of the remote provider.
#[derive(Clone, Debug, PartialEq, Eq)]
pub enum QueryError {
    InvalidArgument,
    SessionNotFound,
    ProviderError(String),
}

/// One completion choice from the provider, reduced to its optional text.
#[derive(Clone, Debug)]
pub struct ProviderChoice {
    pub content: Option<String>,
}

/// A successful provider response, reduced to plain values: the choices'
/// optional text contents, in order.
#[derive(Clone, Debug)]
pub struct ProviderResponse {
    pub choices: Vec<ProviderChoice>,
}

/// The text of the first choice; empty when the provider returned no choices
/// or a choice without content.
pub open spec fn first_choice_text(resp: ProviderResponse) -> Seq<char> {
    if resp.choices@.len() == 0 {
        Seq::empty()
    } else {
        match resp.choices@[0].content {
            Some(c) => c@,
            None => Seq::empty(),
        }
    }
}

/// The reply the orchestrator extracts from a provider response: the first
/// choice's text with surrounding whitespace removed; empty when absent.
/// An empty reply is a policy, not an error.
pub open spec fn reply_view(resp: ProviderResponse) -> Seq<char> {
    trimmed(first_choice_text(resp))
}

/// Extracts the reply text from a provider response.
pub fn extract_reply(resp: &ProviderResponse) -> (r: String)
    ensures
        r@ == reply_view(*resp),
{
    if resp.choices.len() == 0 {
        return String::new();
    }
    match &resp.choices[0].content {
        Some(c) => trim_text(c.as_str()),
        None => String::new(),
    }
}

/// Relies on uuid's `Uuid::new_v4` and its `Display` impl: a fresh random
/// UUID rendered in the hyphenated form, 36 characters, all of them lowercase
/// hexadecimal digits or hyphens and so none of them whitespace.
#[verifier::external_body]
fn new_session_token() -> (r: String)
    ensures
        r@.len() == 36,
        !is_blank(r@),
{
    uuid::Uuid::new_v4().to_string()
}

/// Session lifecycle and the query protocol, over a conversation store and a
/// process-wide fixed system prompt.
pub struct TutorService {
    session_manager: SessionManager,
    system_prompt: String,
}

impl TutorService {
    /// The sessions this service holds, as a map from (student id, session
    /// id) pairs to session values.
    pub closed spec fn sessions(self) -> Map<SessionKey, crate::message::AbsSession> {
        self.session_manager.sessions()
    }

    /// The fixed system prompt every new session is created with.
    pub closed spec fn prompt(self) -> Seq<char> {
        self.system_prompt@
    }

    /// A service with no sessions. The prompt is supplied by the boundary
    /// that loaded it; it never changes afterwards.
    pub fn new(system_prompt: String) -> (s: Self)
        ensures
            s.sessions() == Map::<SessionKey, crate::message::AbsSession>::empty(),
            s.prompt() == system_prompt@,
    {
        TutorService { session_manager: SessionManager::new(), system_prompt }
    }

    /// Creates a session for the student under a freshly generated session
    /// id and returns that id. A blank student id is refused before any
    /// state is touched.
    pub fn create_session(&mut self, student_id: &str) -> (r: Result<String, QueryError>)
        ensures
            final(self).prompt() == old(self).prompt(),
            match r {
                Ok(sid) => {
                    &&& !is_blank(student_id@)
                    &&& sid@.len() == 36
                    &&& !is_blank(sid@)
                    &&& final(self).sessions() == old(self).sessions().insert(
                        (student_id@, sid@),
                        fresh_session(old(self).prompt()),
                    )
                },
                Err(e) => {
                    &&& e == QueryError::InvalidArgument
                    &&& is_blank(student_id@)
                    &&& final(self).sessions() == old(self).sessions()
                },
            },
    {
        if check_blank(student_id) {
            return Err(QueryError::InvalidArgument);
        }
        let session_id = new_session_token();
        self.session_manager.create_session(
            student_id,
            session_id.as_str(),
            self.system_prompt.as_str(),
        );
        Ok(session_id)
    }

    /// The first half of query processing: refuses blank inputs, requires the
    /// session to exist, appends the user turn, and returns the materialized
    /// conversation — system message plus full history, the new turn last —
    /// for the caller to send to the provider. Nothing is sent from here.
    pub fn begin_query(&mut self, student_id: &str, session_id: &str, query: &str) -> (r: Result<
        Vec<Message>,
        QueryError,
    >)
        ensures
            final(self).prompt() == old(self).prompt(),
            match r {
                Ok(conv) => {
                    &&& !is_blank(student_id@)
                    &&& !is_blank(session_id@)
                    &&& !is_blank(query@)
                    &&& old(self).sessions().contains_key((student_id@, session_id@))
                    &&& final(self).sessions() == old(self).sessions().insert(
                        (student_id@, session_id@),
                        with_message(
                            old(self).sessions()[(student_id@, session_id@)],
                            user_message(query@),
                        ),
                    )
                    &&& msgs_view(conv@) == conversation_of(
                        final(self).sessions()[(student_id@, session_id@)],
                    )
                },
                Err(QueryError::InvalidArgument) => {
                    &&& is_blank(student_id@) || is_blank(session_id@) || is_blank(query@)
                    &&& final(self).sessions() == old(self).sessions()
                },
                Err(QueryError::SessionNotFound) => {
                    &&& !is_blank(student_id@)
                    &&& !is_blank(session_id@)
                    &&& !is_blank(query@)
                    &&& !old(self).sessions().contains_key((student_id@, session_id@))
                    &&& final(self).sessions() == old(self).sessions()
                },
                Err(QueryError::ProviderError(_)) => false,
            },
    {
        if check_blank(student_id) || check_blank(session_id) || check_blank(query) {
            return Err(QueryError::InvalidArgument);
        }
        match self.session_manager.get_session(student_id, session_id) {
            None => {
                return Err(QueryError::SessionNotFound);
            },
            Some(_) => {},
        }
        let appended = self.session_manager.add_message(student_id, session_id, Role::User, query);
        match appended {
            Ok(()) => {},
            Err(_) => {
                proof {
                    assert(false);
                }
                return Err(QueryError::SessionNotFound);
            },
        }
        match self.session_manager.get_conversation(student_id, session_id) {
            Some(conv) => Ok(conv),
            None => {
                proof {
                    assert(false);
                }
                Err(QueryError::SessionNotFound)
            },
        }
    }

    /// Read-only lookup of a session's materialized conversation: the
    /// synthesized system message followed by the stored log.
    pub fn get_conversation(&self, student_id: &str, session_id: &str) -> (r: Option<
        Vec<Message>,
    >)
        ensures
            match r {
                Some(conv) => self.sessions().contains_key((student_id@, session_id@))
                    && msgs_view(conv@) == conversation_of(
                    self.sessions()[(student_id@, session_id@)],
                ),
                None => !self.sessions().contains_key((student_id@, session_id@)),
            },
    {
        self.session_manager.get_conversation(student_id, session_id)
    }

    /// The second half of query processing: reconciles the provider's outcome
    /// with the session. A failure is surfaced as `ProviderError` and leaves
    /// the history as `begin_query` left it — the user turn stays, no
    /// assistant turn is added. A response has its reply extracted, appended
    /// as the assistant turn, and returned.
    pub fn finish_query(
        &mut self,
        student_id: &str,
        session_id: &str,
        outcome: Result<ProviderResponse, String>,
    ) -> (r: Result<String, QueryError>)
        ensures
            final(self).prompt() == old(self).prompt(),
            match r {
                Ok(text) => {
                    &&& outcome matches Ok(resp) && text@ == reply_view(resp)
                    &&& old(self).sessions().contains_key((student_id@, session_id@))
                    &&& final(self).sessions() == old(self).sessions().insert(
                        (student_id@, session_id@),
                        with_message(
                            old(self).sessions()[(student_id@, session_id@)],
                            assistant_message(text@),
                        ),
                    )
                },
                Err(QueryError::ProviderError(m)) => {
                    &&& outcome matches Err(em) && m@ == em@
                    &&& final(self).sessions() == old(self).sessions()
                },
                Err(QueryError::SessionNotFound) => {
                    &&& outcome is Ok
                    &&& !old(self).sessions().contains_key((student_id@, session_id@))
                    &&& final(self).sessions() == old(self).sessions()
                },
                Err(QueryError::InvalidArgument) => false,
            },
    {
        match outcome {
            Err(message) => Err(QueryError::ProviderError(message)),
            Ok(resp) => {
                let text = extract_reply(&resp);
                let appended = self.session_manager.add_message(
                    student_id,
                    session_id,
                    Role::Assistant,
                    text.as_str(),
                );
                match appended {
                    Ok(()) => Ok(text),
                    Err(_) => Err(QueryError::SessionNotFound),
                }
            },
        }
    }
}

} // verus!
