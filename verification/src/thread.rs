//! A conversation thread: an entity that grows as a language model streams
//! its completion.
//!
//! The thread is kept in an [`crate::EntityMap`] like any other entity. Whoever
//! drives the stream updates it with one call of
//! [`Thread::apply_completion_event`] for each event that arrives.

use vstd::prelude::*;
use vstd::string::StringExecFns;

verus! {

/// Who spoke a message.
#[derive(Clone, Copy, Debug, PartialEq, Eq, Structural)]
pub enum Role {
    User,
    Assistant,
    System,
}

/// Why the model ended its completion.
#[derive(Clone, Copy, Debug, PartialEq, Eq, Structural)]
pub enum StopReason {
    EndTurn,
    MaxTokens,
    ToolUse,
}

/// One event of a streamed completion.
#[derive(Debug)]
pub enum CompletionEvent {
    /// The model has ended its completion.
    Stop(StopReason),
    /// The next piece of the assistant's text.
    Text(String),
    /// The model asks for a tool. The thread keeps no record of it.
    ToolUse,
    /// The model starts a new message.
    StartMessage,
}

/// What a thread tells its observers.
#[derive(Clone, Copy, Debug, PartialEq, Eq, Structural)]
pub enum ThreadEvent {
    /// An event of a completion was taken into the thread.
    StreamedCompletion,
}

/// A message in a [`Thread`].
#[derive(Debug)]
pub struct Message {
    pub role: Role,
    pub text: String,
}

/// A message as a mathematical value.
pub struct MessageView {
    pub role: Role,
    pub text: Seq<char>,
}

impl View for Message {
    type V = MessageView;

    open spec fn view(&self) -> MessageView {
        MessageView { role: self.role, text: self.text@ }
    }
}

/// A thread of conversation with a language model.
#[derive(Debug)]
pub struct Thread {
    pub messages: Vec<Message>,
}

impl View for Thread {
    type V = Seq<MessageView>;

    open spec fn view(&self) -> Seq<MessageView> {
        self.messages@.map_values(|message: Message| message@)
    }
}

/// The messages of a thread after `event`.
///
/// A new message starts an empty assistant message. Text goes to the end of
/// the last message if the assistant spoke it, and is dropped otherwise.
/// Nothing else changes the messages.
pub open spec fn messages_after(messages: Seq<MessageView>, event: CompletionEvent) -> Seq<
    MessageView,
> {
    match event {
        CompletionEvent::StartMessage => messages.push(
            MessageView { role: Role::Assistant, text: Seq::empty() },
        ),
        CompletionEvent::Text(chunk) => if messages.len() > 0 && messages.last().role
            == Role::Assistant {
            messages.update(
                messages.len() - 1,
                MessageView { role: Role::Assistant, text: messages.last().text + chunk@ },
            )
        } else {
            messages
        },
        CompletionEvent::Stop(_) => messages,
        CompletionEvent::ToolUse => messages,
    }
}

/// The reason for stopping that is on record after `event`: the one that a
/// stop event brings, else the one on record before.
pub open spec fn stop_reason_after(stop_reason: StopReason, event: CompletionEvent) -> StopReason {
    match event {
        CompletionEvent::Stop(reason) => reason,
        _ => stop_reason,
    }
}

impl Thread {
    /// A thread without messages.
    pub fn new() -> (thread: Self)
        ensures
            thread@ == Seq::<MessageView>::empty(),
    {
        Thread { messages: Vec::new() }
    }

    /// Takes one event of a streamed completion into the thread, keeps the
    /// reason for stopping on record, and returns what the observers of the
    /// thread are to be told.
    pub fn apply_completion_event(
        &mut self,
        event: CompletionEvent,
        stop_reason: &mut StopReason,
    ) -> (emitted: ThreadEvent)
        ensures
            final(self)@ == messages_after(old(self)@, event),
            *final(stop_reason) == stop_reason_after(*old(stop_reason), event),
            emitted == ThreadEvent::StreamedCompletion,
    {
        match event {
            CompletionEvent::StartMessage => {
                self.messages.push(Message { role: Role::Assistant, text: String::new() });
            },
            CompletionEvent::Stop(reason) => {
                *stop_reason = reason;
            },
            CompletionEvent::Text(chunk) => {
                match self.messages.pop() {
                    Some(last_message) => {
                        let mut last_message = last_message;
                        if last_message.role == Role::Assistant {
                            last_message.text.append(chunk.as_str());
                        }
                        self.messages.push(last_message);
                    },
                    None => {},
                }
            },
            CompletionEvent::ToolUse => {},
        }
        ThreadEvent::StreamedCompletion
    }
}

} // verus!
