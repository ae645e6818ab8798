//! One entry of a conversation.

use vstd::prelude::*;

verus! {

/// What a message is, mathematically: its text and who wrote it.
pub struct MessageView {
    pub text: Seq<char>,
    /// `true` for a message written by the human, `false` for the assistant.
    pub user: bool,
}

impl MessageView {
    /// The message a human wrote with the given text.
    pub open spec fn from_user(text: Seq<char>) -> MessageView {
        MessageView { text, user: true }
    }

    /// The assistant's message with the given text.
    pub open spec fn from_assistant(text: Seq<char>) -> MessageView {
        MessageView { text, user: false }
    }

    /// The entry that stands for a reply that has not arrived yet.
    pub open spec fn placeholder() -> MessageView {
        MessageView::from_assistant(placeholder_text())
    }
}

/// The text shown while a reply is pending.
pub open spec fn placeholder_text() -> Seq<char> {
    "..."@
}

/// A message of the conversation.
#[derive(Debug, PartialEq, Eq)]
pub struct Message {
    pub text: String,
    /// `true` for a message written by the human, `false` for the assistant.
    pub user: bool,
}

impl View for Message {
    type V = MessageView;

    open spec fn view(&self) -> MessageView {
        MessageView { text: self.text@, user: self.user }
    }
}

impl Clone for Message {
    fn clone(&self) -> (copy: Self)
        ensures
            copy@ == self@,
    {
        Message { text: self.text.clone(), user: self.user }
    }
}

impl Message {
    /// The message a human wrote. Any text is taken, the empty one too.
    pub fn from_user(text: String) -> (message: Message)
        ensures
            message@ == MessageView::from_user(text@),
    {
        Message { text, user: true }
    }

    /// The entry appended when a reply is requested: three dots from the
    /// assistant.
    pub fn placeholder() -> (message: Message)
        ensures
            message@ == MessageView::placeholder(),
    {
        Message { text: "...".to_owned(), user: false }
    }
}

} // verus!
