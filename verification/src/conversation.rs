//! The transcript: the messages of a conversation in the order they were
//! appended.

use vstd::prelude::*;
use crate::message::{Message, MessageView};

verus! {

/// The transcript `messages` with the text of its last entry replaced by
/// `text`. The entry keeps its author, and every earlier entry stays as it is.
pub open spec fn with_last_text(messages: Seq<MessageView>, text: Seq<char>) -> Seq<MessageView>
    recommends
        messages.len() > 0,
{
    messages.update(messages.len() - 1, MessageView { text, user: messages.last().user })
}

/// The messages exchanged so far, oldest first.
///
/// A conversation only grows at its tail. The one change to an entry that is
/// already there is `replace_last_text`, which fills in a pending reply.
#[derive(Debug, PartialEq, Eq)]
pub struct Conversation {
    pub messages: Vec<Message>,
}

impl View for Conversation {
    type V = Seq<MessageView>;

    open spec fn view(&self) -> Seq<MessageView> {
        self.messages@.map_values(|m: Message| m@)
    }
}

impl Clone for Conversation {
    fn clone(&self) -> (copy: Self)
        ensures
            copy@ == self@,
    {
        let mut messages: Vec<Message> = Vec::new();
        let mut i: usize = 0;
        while i < self.messages.len()
            invariant
                i <= self.messages.len(),
                messages@.len() == i,
                forall|j: int| 0 <= j < i ==> (#[trigger] messages@[j])@ == self.messages@[j]@,
            decreases self.messages.len() - i,
        {
            messages.push(self.messages[i].clone());
            i = i + 1;
        }
        assert(messages@.map_values(|m: Message| m@) =~= self@);
        Conversation { messages }
    }
}

impl Conversation {
    /// The conversation before anything was said.
    pub fn new() -> (conversation: Self)
        ensures
            conversation@ == Seq::<MessageView>::empty(),
    {
        Conversation { messages: Vec::new() }
    }

    /// Puts `message` at the tail. What was there stays, in its order.
    pub fn append(&mut self, message: Message)
        ensures
            final(self)@ == old(self)@.push(message@),
    {
        self.messages.push(message);
    }

    /// Replaces the text of the last message by `text`.
    ///
    /// There must be a last message: on an empty conversation there is no
    /// reply slot to fill.
    pub fn replace_last_text(&mut self, text: String)
        requires
            old(self)@.len() > 0,
        ensures
            final(self)@ == with_last_text(old(self)@, text@),
    {
        let last = self.messages.pop();
        match last {
            Some(message) => {
                self.messages.push(Message { text, user: message.user });
            },
            None => {},
        }
    }
}

} // verus!
