//! Conversation turns and the mathematical model of a session: a fixed system
//! prompt plus an append-only log of user and assistant messages.

use vstd::prelude::*;

verus! {

/// Who speaks a turn of a conversation.
#[derive(Clone, Copy, PartialEq, Eq, Structural, Debug)]
pub enum Role {
    System,
    User,
    Assistant,
}

/// One conversation turn: a role and its text.
#[derive(Debug, PartialEq, Eq)]
pub struct Message {
    pub role: Role,
    pub content: String,
}

/// The mathematical value of a `Message`.
#[verifier::ext_equal]
pub struct AbsMessage {
    pub role: Role,
    pub content: Seq<char>,
}

impl View for Message {
    type V = AbsMessage;

    open spec fn view(&self) -> AbsMessage {
        AbsMessage { role: self.role, content: self.content@ }
    }
}

impl Clone for Message {
    fn clone(&self) -> (r: Self)
        ensures
            r == *self,
    {
        Message { role: self.role, content: self.content.clone() }
    }
}

/// The mathematical value of one session: its immutable prompt and its log.
/// The log holds only user and assistant turns; the system message is
/// synthesized on read and never stored.
#[verifier::ext_equal]
pub struct AbsSession {
    pub system_prompt: Seq<char>,
    pub messages: Seq<AbsMessage>,
}

pub open spec fn system_message(prompt: Seq<char>) -> AbsMessage {
    AbsMessage { role: Role::System, content: prompt }
}

pub open spec fn user_message(text: Seq<char>) -> AbsMessage {
    AbsMessage { role: Role::User, content: text }
}

pub open spec fn assistant_message(text: Seq<char>) -> AbsMessage {
    AbsMessage { role: Role::Assistant, content: text }
}

/// A session as `create_session` leaves it: the given prompt, no turns yet.
pub open spec fn fresh_session(prompt: Seq<char>) -> AbsSession {
    AbsSession { system_prompt: prompt, messages: Seq::empty() }
}

/// One turn appended at the end of a session's log; the prompt is kept.
pub open spec fn with_message(s: AbsSession, m: AbsMessage) -> AbsSession {
    AbsSession { system_prompt: s.system_prompt, messages: s.messages.push(m) }
}

/// The derived read-only conversation sent to the provider: the synthesized
/// system message followed by the stored log, in order.
pub open spec fn conversation_of(s: AbsSession) -> Seq<AbsMessage> {
    seq![system_message(s.system_prompt)] + s.messages
}

/// The values of a sequence of messages.
pub open spec fn msgs_view(v: Seq<Message>) -> Seq<AbsMessage> {
    v.map_values(|m: Message| m@)
}

} // verus!
