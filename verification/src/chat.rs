//! Chat messages as the agents keep them: a role and a text.

use vstd::prelude::*;

verus! {

/// Who a chat message is from.
#[derive(Clone, Copy, Debug, PartialEq, Eq)]
pub enum Role {
    System,
    User,
    Assistant,
}

/// One chat message.
#[derive(Debug)]
pub struct ChatMessage {
    pub role: Role,
    pub content: String,
}

impl View for ChatMessage {
    type V = (Role, Seq<char>);

    open spec fn view(&self) -> (Role, Seq<char>) {
        (self.role, self.content@)
    }
}

/// The views of a sequence of messages.
pub open spec fn message_views(v: Seq<ChatMessage>) -> Seq<(Role, Seq<char>)> {
    v.map_values(|m: ChatMessage| m@)
}

impl ChatMessage {
    /// A system message.
    pub fn system(content: String) -> (m: Self)
        ensures
            m.role == Role::System,
            m.content == content,
    {
        ChatMessage { role: Role::System, content }
    }

    /// A user message.
    pub fn user(content: String) -> (m: Self)
        ensures
            m.role == Role::User,
            m.content == content,
    {
        ChatMessage { role: Role::User, content }
    }

    /// An assistant message.
    pub fn assistant(content: String) -> (m: Self)
        ensures
            m.role == Role::Assistant,
            m.content == content,
    {
        ChatMessage { role: Role::Assistant, content }
    }

    /// A copy of the message.
    pub fn duplicate(&self) -> (m: Self)
        ensures
            m == *self,
    {
        ChatMessage { role: self.role, content: self.content.clone() }
    }
}

} // verus!
