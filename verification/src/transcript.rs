//! The transcript panel: what is shown for a conversation.
//!
//! Every message becomes one entry, in the order of the conversation. An
//! entry carries the message's text and a style class that tells who wrote
//! it.

use vstd::prelude::*;
use crate::conversation::Conversation;
use crate::message::{Message, MessageView};

verus! {

/// What an entry is, mathematically: its style class and its text.
pub struct EntryView {
    pub class: Seq<char>,
    pub text: Seq<char>,
}

/// One rendered entry of the transcript.
#[derive(Debug, PartialEq, Eq)]
pub struct Entry {
    /// The style class of the entry's element.
    pub class: String,
    /// The text shown in it.
    pub text: String,
}

impl View for Entry {
    type V = EntryView;

    open spec fn view(&self) -> EntryView {
        EntryView { class: self.class@, text: self.text@ }
    }
}

/// The style class of a message: one for the user's, one for the
/// assistant's.
pub open spec fn class_of(user: bool) -> Seq<char> {
    if user {
        "user-chat"@
    } else {
        "ai-chat"@
    }
}

/// The entry shown for a message.
pub open spec fn entry_of(message: MessageView) -> EntryView {
    EntryView { class: class_of(message.user), text: message.text }
}

/// The entries shown for a transcript: one for each message, in the
/// transcript's order.
pub open spec fn rendering(messages: Seq<MessageView>) -> Seq<EntryView> {
    Seq::new(messages.len(), |i: int| entry_of(messages[i]))
}

/// The entries of a vector as mathematical values.
pub open spec fn entry_views(entries: Seq<Entry>) -> Seq<EntryView> {
    entries.map_values(|e: Entry| e@)
}

/// The style class for a message of the user (`true`) or of the assistant.
pub fn style_class(user: bool) -> (class: String)
    ensures
        class@ == class_of(user),
{
    if user {
        "user-chat".to_owned()
    } else {
        "ai-chat".to_owned()
    }
}

/// The entry for one message.
pub fn render_message(message: &Message) -> (entry: Entry)
    ensures
        entry@ == entry_of(message@),
{
    Entry { class: style_class(message.user), text: message.text.clone() }
}

/// Renders the whole conversation: as many entries as there are messages,
/// the entry at each position made from the message at that position.
pub fn render(conversation: &Conversation) -> (entries: Vec<Entry>)
    ensures
        entries@.len() == conversation@.len(),
        forall|i: int|
            0 <= i < conversation@.len() ==> (#[trigger] entries@[i])@ == entry_of(
                conversation@[i],
            ),
        entry_views(entries@) == rendering(conversation@),
{
    let mut entries: Vec<Entry> = Vec::new();
    let mut i: usize = 0;
    while i < conversation.messages.len()
        invariant
            i <= conversation.messages.len(),
            entries@.len() == i,
            forall|j: int|
                0 <= j < i ==> (#[trigger] entries@[j])@ == entry_of(conversation.messages@[j]@),
        decreases conversation.messages.len() - i,
    {
        entries.push(render_message(&conversation.messages[i]));
        i = i + 1;
    }
    assert(entry_views(entries@) =~= rendering(conversation@));
    entries
}

/// Where the panel scrolls to after an update, given the height of its
/// content: all the way down, so that the newest entry shows.
pub fn scroll_target(scroll_height: i32) -> (scroll_top: i32)
    ensures
        scroll_top == scroll_height,
{
    scroll_height
}

} // verus!
