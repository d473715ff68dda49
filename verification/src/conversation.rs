//! The ordered messages of one session.

use crate::api::{message_views, Message, MessageView, Role};
use vstd::prelude::*;

verus! {

/// The system prompt of a session that names none.
pub const DEFAULT_SYSTEM_MESSAGE: &'static str = "You are a helpful assistant.";

/// Whether the user has to speak before the next completion call: the
/// conversation has a last message and the user did not write it.
pub open spec fn user_turn_needed(messages: Seq<MessageView>) -> bool {
    messages.len() > 0 && messages.last().role != Role::User
}

/// Tells whether the user has to speak next. An empty sequence needs no turn.
pub fn needs_user_turn(messages: &[Message]) -> (needed: bool)
    ensures
        needed == user_turn_needed(message_views(messages@)),
{
    let n: usize = messages.len();
    if n == 0 {
        false
    } else {
        messages[n - 1].role != Role::User
    }
}

/// The user speaks next after a message of the system or of the assistant,
/// and not after one of their own.
pub proof fn lemma_user_turn_by_last_role(messages: Seq<MessageView>)
    requires
        messages.len() > 0,
    ensures
        messages.last().role == Role::User ==> !user_turn_needed(messages),
        messages.last().role == Role::System ==> user_turn_needed(messages),
        messages.last().role == Role::Assistant ==> user_turn_needed(messages),
{
}

/// The text that an optional string holds.
pub open spec fn optional_text(text: Option<String>) -> Option<Seq<char>> {
    match text {
        Some(text) => Some(text@),
        None => None,
    }
}

/// A message the user wrote.
pub open spec fn user_message(content: Seq<char>) -> MessageView {
    MessageView { role: Role::User, content }
}

/// The conversation a session starts with: the system message, with the
/// default text where none is given, and then the user's first message where
/// one is given.
pub open spec fn initial_messages(
    system_prompt: Option<Seq<char>>,
    initial_user_message: Option<Seq<char>>,
) -> Seq<MessageView> {
    let system = MessageView {
        role: Role::System,
        content: match system_prompt {
            Some(text) => text,
            None => DEFAULT_SYSTEM_MESSAGE@,
        },
    };
    match initial_user_message {
        Some(text) => seq![system, user_message(text)],
        None => seq![system],
    }
}

/// Whether a sequence of messages begins with a system message.
pub open spec fn starts_with_system(messages: Seq<MessageView>) -> bool {
    messages.len() > 0 && messages[0].role == Role::System
}

/// The messages of one session, oldest first. The first is always the
/// system message; later ones are only ever added at the end.
pub struct Conversation {
    messages: Vec<Message>,
}

impl View for Conversation {
    type V = Seq<MessageView>;

    closed spec fn view(&self) -> Seq<MessageView> {
        message_views(self.messages@)
    }
}

impl Conversation {
    /// What holds of every conversation in use: it has a first message, and
    /// that is the system message.
    pub open spec fn wf(&self) -> bool {
        starts_with_system(self@)
    }

    /// Starts a conversation.
    pub fn initialize(
        system_prompt: Option<String>,
        initial_user_message: Option<String>,
    ) -> (conversation: Conversation)
        ensures
            conversation.wf(),
            conversation@ == initial_messages(
                optional_text(system_prompt),
                optional_text(initial_user_message),
            ),
    {
        let content = match system_prompt {
            Some(text) => text,
            None => DEFAULT_SYSTEM_MESSAGE.to_owned(),
        };
        let mut messages: Vec<Message> = Vec::new();
        messages.push(Message { role: Role::System, content });
        match initial_user_message {
            Some(text) => {
                messages.push(Message { role: Role::User, content: text });
            },
            None => {},
        }
        let conversation = Conversation { messages };
        assert(conversation@ =~= initial_messages(
            optional_text(system_prompt),
            optional_text(initial_user_message),
        ));
        conversation
    }

    /// The messages, oldest first: what a completion call is given.
    pub fn messages(&self) -> (messages: &Vec<Message>)
        ensures
            message_views(messages@) == self@,
    {
        &self.messages
    }

    /// The number of messages.
    pub fn len(&self) -> (n: usize)
        ensures
            n == self@.len(),
    {
        self.messages.len()
    }

    /// Tells whether the user has to speak before the next completion call.
    pub fn needs_user_turn(&self) -> (needed: bool)
        ensures
            needed == user_turn_needed(self@),
    {
        needs_user_turn(self.messages.as_slice())
    }

    /// Adds a message at the end. Nothing is checked, merged or dropped.
    pub fn append(&mut self, message: Message)
        ensures
            final(self)@ == old(self)@.push(message@),
            old(self).wf() ==> final(self).wf(),
    {
        self.messages.push(message);
        assert(final(self)@ =~= old(self)@.push(message@));
    }
}

} // verus!
