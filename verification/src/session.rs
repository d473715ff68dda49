//! The turn-taking of a session: who speaks next, and when the session ends.
//!
//! A session does no input or output itself. It tells its driver what to do
//! next (read a line from the user, ask the service for a completion, stop,
//! or give up after a failed call) and the driver hands back what happened.

use crate::api::{message_views, Message, MessageView, Role};
use crate::conversation::{
    initial_messages, optional_text, starts_with_system, user_message, user_turn_needed,
    Conversation,
};
use vstd::prelude::*;

verus! {

/// Where a session stands.
#[derive(Debug, Clone, Copy, PartialEq, Eq, Structural)]
pub enum Phase {
    /// The user has to speak.
    AwaitingUserTurn,
    /// The last message is the user's and waits for its answer.
    AwaitingAssistantTurn,
    /// A session that takes one answer has got it.
    Done,
    /// A completion call failed. Nothing is tried again.
    Aborted,
}

/// What the driver of a session has to do next.
#[derive(Debug, Clone, Copy, PartialEq, Eq, Structural)]
pub enum Action {
    /// Read one line from the user and hand it back as `Event::UserLine`.
    ReadUserLine,
    /// Call the completion service with the whole conversation and hand the
    /// first choice's message back as `Event::Reply`, or `Event::Failed`
    /// where the call failed.
    RequestCompletion,
    /// Leave the loop.
    Stop,
    /// Give up: end the process as failed.
    Abort,
}

/// What happened outside the session.
#[derive(Debug, PartialEq, Eq)]
pub enum Event {
    /// The user wrote a line.
    UserLine(String),
    /// The service answered with this message. A session takes its content
    /// as the assistant's.
    Reply(Message),
    /// The completion call failed.
    Failed,
}

/// An event as a mathematical value.
pub enum EventView {
    UserLine(Seq<char>),
    Reply(MessageView),
    Failed,
}

impl View for Event {
    type V = EventView;

    open spec fn view(&self) -> EventView {
        match *self {
            Event::UserLine(line) => EventView::UserLine(line@),
            Event::Reply(reply) => EventView::Reply(reply@),
            Event::Failed => EventView::Failed,
        }
    }
}

/// A session as a mathematical value.
pub struct SessionView {
    pub messages: Seq<MessageView>,
    pub interactive: bool,
    pub phase: Phase,
}

/// The phase in which a conversation is taken up: the user speaks first
/// unless the last message already is the user's.
pub open spec fn phase_for(messages: Seq<MessageView>) -> Phase {
    if user_turn_needed(messages) {
        Phase::AwaitingUserTurn
    } else {
        Phase::AwaitingAssistantTurn
    }
}

/// What there is to do in a phase.
pub open spec fn action_for(phase: Phase) -> Action {
    match phase {
        Phase::AwaitingUserTurn => Action::ReadUserLine,
        Phase::AwaitingAssistantTurn => Action::RequestCompletion,
        Phase::Done => Action::Stop,
        Phase::Aborted => Action::Abort,
    }
}

/// The session at its start.
pub open spec fn session_start(
    system_prompt: Option<Seq<char>>,
    prompt: Option<Seq<char>>,
    interactive: bool,
) -> SessionView {
    let messages = initial_messages(system_prompt, prompt);
    SessionView { messages, interactive, phase: phase_for(messages) }
}

/// The session after the user wrote a line. The line is taken only while the
/// session waits for the user.
pub open spec fn after_user_line(session: SessionView, line: Seq<char>) -> SessionView {
    if session.phase == Phase::AwaitingUserTurn {
        SessionView {
            messages: session.messages.push(user_message(line)),
            interactive: session.interactive,
            phase: Phase::AwaitingAssistantTurn,
        }
    } else {
        session
    }
}

/// The session after the service answered. The answer is taken only while
/// the session waits for it. Its content is added as a message of the
/// assistant, whatever role the answer names. A session that is not
/// interactive is done then; an interactive one is taken up again.
pub open spec fn after_reply(session: SessionView, reply: MessageView) -> SessionView {
    if session.phase == Phase::AwaitingAssistantTurn {
        let messages = session.messages.push(assistant_message(reply.content));
        SessionView {
            messages,
            interactive: session.interactive,
            phase: if session.interactive {
                phase_for(messages)
            } else {
                Phase::Done
            },
        }
    } else {
        session
    }
}

/// A message the assistant wrote.
pub open spec fn assistant_message(content: Seq<char>) -> MessageView {
    MessageView { role: Role::Assistant, content }
}

/// The session after one exchange: the user writes a line and the assistant
/// answers it.
pub open spec fn after_exchange(
    session: SessionView,
    line: Seq<char>,
    answer: Seq<char>,
) -> SessionView {
    after_reply(after_user_line(session, line), assistant_message(answer))
}

/// The session after a run of exchanges, each a line and its answer.
pub open spec fn after_exchanges(
    session: SessionView,
    exchanges: Seq<(Seq<char>, Seq<char>)>,
) -> SessionView
    decreases exchanges.len(),
{
    if exchanges.len() == 0 {
        session
    } else {
        after_exchange(
            after_exchanges(session, exchanges.drop_last()),
            exchanges.last().0,
            exchanges.last().1,
        )
    }
}

/// The session after a completion call failed: while the session waits for
/// an answer it is aborted, with the conversation as it was.
pub open spec fn after_failure(session: SessionView) -> SessionView {
    if session.phase == Phase::AwaitingAssistantTurn {
        SessionView {
            messages: session.messages,
            interactive: session.interactive,
            phase: Phase::Aborted,
        }
    } else {
        session
    }
}

/// The session after an event.
pub open spec fn session_step(session: SessionView, event: EventView) -> SessionView {
    match event {
        EventView::UserLine(line) => after_user_line(session, line),
        EventView::Reply(reply) => after_reply(session, reply),
        EventView::Failed => after_failure(session),
    }
}

/// What holds of a session at every moment: the conversation begins with the
/// system message; while the session waits for the user, the last message is
/// not the user's; while it waits for an answer, or has given up waiting for
/// one, the last message is the user's; only a session that is not
/// interactive is ever done, and its last message is the assistant's.
pub open spec fn consistent(session: SessionView) -> bool {
    &&& starts_with_system(session.messages)
    &&& session.phase == Phase::AwaitingUserTurn ==> user_turn_needed(session.messages)
    &&& session.phase == Phase::AwaitingAssistantTurn ==> session.messages.last().role
        == Role::User
    &&& session.phase == Phase::Aborted ==> session.messages.last().role == Role::User
    &&& session.phase == Phase::Done ==> !session.interactive && session.messages.last().role
        == Role::Assistant
}

/// One session of the client.
pub struct Session {
    conversation: Conversation,
    interactive: bool,
    phase: Phase,
}

impl View for Session {
    type V = SessionView;

    closed spec fn view(&self) -> SessionView {
        SessionView {
            messages: self.conversation@,
            interactive: self.interactive,
            phase: self.phase,
        }
    }
}

impl Session {
    /// What holds of every session in use.
    pub open spec fn wf(&self) -> bool {
        consistent(self@)
    }

    /// Starts a session. `system_message` is the system prompt, the default
    /// one where it is `None`; `prompt` is the user's first message, if
    /// there is one already; an interactive session goes on after the first
    /// answer.
    pub fn start(
        system_message: Option<String>,
        prompt: Option<String>,
        interactive: bool,
    ) -> (session: Session)
        ensures
            session.wf(),
            session@ == session_start(
                optional_text(system_message),
                optional_text(prompt),
                interactive,
            ),
    {
        let conversation = Conversation::initialize(system_message, prompt);
        let phase = if conversation.needs_user_turn() {
            Phase::AwaitingUserTurn
        } else {
            Phase::AwaitingAssistantTurn
        };
        Session { conversation, interactive, phase }
    }

    /// Where the session stands.
    pub fn phase(&self) -> (phase: Phase)
        ensures
            phase == self@.phase,
    {
        self.phase
    }

    /// Whether the session goes on after an answer.
    pub fn is_interactive(&self) -> (interactive: bool)
        ensures
            interactive == self@.interactive,
    {
        self.interactive
    }

    /// The conversation so far.
    pub fn conversation(&self) -> (conversation: &Conversation)
        ensures
            conversation@ == self@.messages,
    {
        &self.conversation
    }

    /// The messages so far, oldest first: what a completion call is given.
    pub fn messages(&self) -> (messages: &Vec<Message>)
        ensures
            message_views(messages@) == self@.messages,
    {
        self.conversation.messages()
    }

    /// What the driver has to do now.
    pub fn next_action(&self) -> (action: Action)
        ensures
            action == action_for(self@.phase),
    {
        match self.phase {
            Phase::AwaitingUserTurn => Action::ReadUserLine,
            Phase::AwaitingAssistantTurn => Action::RequestCompletion,
            Phase::Done => Action::Stop,
            Phase::Aborted => Action::Abort,
        }
    }

    /// Takes an event and tells what to do next. An event that the session
    /// does not wait for changes nothing.
    pub fn step(&mut self, event: Event) -> (action: Action)
        ensures
            final(self)@ == session_step(old(self)@, event@),
            action == action_for(final(self)@.phase),
            old(self).wf() ==> final(self).wf(),
    {
        proof {
            if consistent(self@) {
                lemma_step_consistent(self@, event@);
            }
        }
        match event {
            Event::UserLine(line) => {
                if self.phase == Phase::AwaitingUserTurn {
                    self.conversation.append(Message { role: Role::User, content: line });
                    self.phase = Phase::AwaitingAssistantTurn;
                }
            },
            Event::Reply(reply) => {
                if self.phase == Phase::AwaitingAssistantTurn {
                    self.conversation.append(
                        Message { role: Role::Assistant, content: reply.content },
                    );
                    self.phase = if !self.interactive {
                        Phase::Done
                    } else if self.conversation.needs_user_turn() {
                        Phase::AwaitingUserTurn
                    } else {
                        Phase::AwaitingAssistantTurn
                    };
                }
            },
            Event::Failed => {
                if self.phase == Phase::AwaitingAssistantTurn {
                    self.phase = Phase::Aborted;
                }
            },
        }
        self.next_action()
    }
}

/// A session is consistent at its start.
pub proof fn lemma_start_consistent(
    system_prompt: Option<Seq<char>>,
    prompt: Option<Seq<char>>,
    interactive: bool,
)
    ensures
        consistent(session_start(system_prompt, prompt, interactive)),
{
}

/// No event makes a consistent session inconsistent.
pub proof fn lemma_step_consistent(session: SessionView, event: EventView)
    requires
        consistent(session),
    ensures
        consistent(session_step(session, event)),
{
}

/// Whenever a consistent session asks for a completion, the conversation it
/// hands over begins with the system message and ends with a message of the
/// user.
pub proof fn lemma_request_follows_user(session: SessionView)
    requires
        consistent(session),
        action_for(session.phase) == Action::RequestCompletion,
    ensures
        session.messages.first().role == Role::System,
        session.messages.last().role == Role::User,
{
}

/// A session that starts with a prompt asks for a completion at once, and
/// the conversation it hands over is the system message and then the
/// prompt: two messages.
pub proof fn lemma_prompted_start(
    system_prompt: Option<Seq<char>>,
    prompt: Seq<char>,
    interactive: bool,
)
    ensures
        ({
            let session = session_start(system_prompt, Some(prompt), interactive);
            &&& action_for(session.phase) == Action::RequestCompletion
            &&& session.messages.len() == 2
            &&& session.messages[0] == initial_messages(system_prompt, None)[0]
            &&& session.messages[0].role == Role::System
            &&& session.messages[1] == user_message(prompt)
        }),
{
}

/// A session that starts without a prompt waits for the user: its first
/// action is to read a line, and until a line has come no answer is taken.
pub proof fn lemma_unprompted_start(
    system_prompt: Option<Seq<char>>,
    interactive: bool,
    reply: MessageView,
)
    ensures
        ({
            let session = session_start(system_prompt, None, interactive);
            &&& session.phase == Phase::AwaitingUserTurn
            &&& action_for(session.phase) == Action::ReadUserLine
            &&& after_reply(session, reply) == session
        }),
{
}

/// An answer adds one message, the assistant's, with the content of the
/// answer. After it a session that is not interactive is done, and an
/// interactive one waits for the user again.
pub proof fn lemma_reply_ends_or_awaits_user(session: SessionView, reply: MessageView)
    requires
        session.phase == Phase::AwaitingAssistantTurn,
    ensures
        after_reply(session, reply).messages == session.messages.push(
            assistant_message(reply.content),
        ),
        !session.interactive ==> after_reply(session, reply).phase == Phase::Done,
        session.interactive ==> after_reply(session, reply).phase == Phase::AwaitingUserTurn,
{
}

/// No event drops, changes or reorders a message: the conversation before an
/// event is the beginning of the conversation after it, and at most one
/// message is added.
pub proof fn lemma_step_keeps_earlier_messages(session: SessionView, event: EventView)
    ensures
        session.messages.is_prefix_of(session_step(session, event).messages),
        session_step(session, event).messages.len() <= session.messages.len() + 1,
{
}

/// In an interactive session, the completion call after an answer and the
/// user's next line is given the conversation of the call before, then the
/// content of the answer as a message of the assistant, then the line as a
/// message of the user.
pub proof fn lemma_next_request_extends_conversation(
    session: SessionView,
    reply: MessageView,
    line: Seq<char>,
)
    requires
        session.interactive,
        session.phase == Phase::AwaitingAssistantTurn,
    ensures
        ({
            let next = after_user_line(after_reply(session, reply), line);
            &&& action_for(next.phase) == Action::RequestCompletion
            &&& next.messages == session.messages.push(assistant_message(reply.content)).push(
                user_message(line),
            )
        }),
{
}

/// A failed completion call ends the session: the conversation stays as it
/// was, the driver is told to give up, and no later event changes anything.
pub proof fn lemma_failure_aborts(session: SessionView, later: EventView)
    requires
        session.phase == Phase::AwaitingAssistantTurn,
    ensures
        after_failure(session).messages == session.messages,
        action_for(after_failure(session).phase) == Action::Abort,
        session_step(after_failure(session), later) == after_failure(session),
{
}

/// An interactive session that waits for the user waits for the user again
/// after any number of exchanges, and each exchange has added two messages.
pub proof fn lemma_exchanges_add_pairs(
    session: SessionView,
    exchanges: Seq<(Seq<char>, Seq<char>)>,
)
    requires
        session.interactive,
        session.phase == Phase::AwaitingUserTurn,
    ensures
        after_exchanges(session, exchanges).interactive,
        after_exchanges(session, exchanges).phase == Phase::AwaitingUserTurn,
        after_exchanges(session, exchanges).messages.len() == session.messages.len() + 2
            * exchanges.len(),
    decreases exchanges.len(),
{
    if exchanges.len() > 0 {
        lemma_exchanges_add_pairs(session, exchanges.drop_last());
    }
}

/// An interactive session that starts without a prompt holds, after `n`
/// exchanges, the system message and `n` pairs of a line and its answer.
pub proof fn lemma_unprompted_exchanges(
    system_prompt: Option<Seq<char>>,
    exchanges: Seq<(Seq<char>, Seq<char>)>,
)
    ensures
        ({
            let session = after_exchanges(session_start(system_prompt, None, true), exchanges);
            &&& session.phase == Phase::AwaitingUserTurn
            &&& session.messages.len() == 1 + 2 * exchanges.len()
        }),
{
    lemma_exchanges_add_pairs(session_start(system_prompt, None, true), exchanges);
}

/// An interactive session that starts with a prompt holds two messages
/// before the first answer: the system message and one more, the prompt. The
/// answer to the prompt completes the first pair, and after `n` further
/// exchanges the session holds the system message and `n + 1` pairs.
pub proof fn lemma_prompted_exchanges(
    system_prompt: Option<Seq<char>>,
    prompt: Seq<char>,
    answer: Seq<char>,
    exchanges: Seq<(Seq<char>, Seq<char>)>,
)
    ensures
        ({
            let start = session_start(system_prompt, Some(prompt), true);
            let session = after_exchanges(
                after_reply(start, assistant_message(answer)),
                exchanges,
            );
            &&& start.messages.len() == 1 + 1
            &&& session.phase == Phase::AwaitingUserTurn
            &&& session.messages.len() == 1 + 2 * (exchanges.len() + 1)
        }),
{
    let start = session_start(system_prompt, Some(prompt), true);
    lemma_exchanges_add_pairs(after_reply(start, assistant_message(answer)), exchanges);
}

} // verus!
