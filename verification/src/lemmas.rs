//! What holds of the send flow and of the rendering, over all states and
//! all texts.

use vstd::prelude::*;
use crate::conversation::with_last_text;
use crate::message::MessageView;
use crate::send_flow::{FlowState, Phase};
use crate::transcript::{class_of, entry_of, rendering, EntryView};

verus! {

/// The initial state is valid, and every event leads from a valid state to
/// a valid state. A reply needs a transcript that is not empty.
pub proof fn lemma_events_keep_valid(state: FlowState, text: Seq<char>)
    requires
        state.valid(),
    ensures
        FlowState::initial().valid(),
        state.submit(text).valid(),
        state.fail().valid(),
        state.messages.len() > 0 ==> state.resolve(text).valid(),
{
}

/// A reply that arrives in a valid state becomes the text of the last
/// entry, which is the assistant's; the transcript keeps its length and
/// every earlier entry.
pub proof fn lemma_reply_fills_last_entry(state: FlowState, reply: Seq<char>)
    requires
        state.valid(),
        state.messages.len() > 0,
    ensures
        state.resolve(reply).messages.len() == state.messages.len(),
        state.resolve(reply).messages.last() == MessageView::from_assistant(reply),
        forall|i: int|
            0 <= i < state.messages.len() - 1 ==> #[trigger] state.resolve(reply).messages[i]
                == state.messages[i],
{
}

/// While a reply is awaited the placeholder is the last entry, and a failed
/// request leaves it there.
pub proof fn lemma_failure_leaves_placeholder(state: FlowState)
    requires
        state.valid(),
        state.phase == Phase::Sending,
    ensures
        state.messages.last() == MessageView::placeholder(),
        state.fail().messages.last() == MessageView::placeholder(),
{
}

/// Two submissions with no reply in between give four entries: message,
/// placeholder, message, placeholder. The reply that arrives next goes to
/// the last of them, whichever request it answers: the placeholder of the
/// first submission stays as it is.
pub proof fn lemma_reply_goes_to_latest_submission(
    state: FlowState,
    first: Seq<char>,
    second: Seq<char>,
    reply: Seq<char>,
)
    ensures
        state.submit(first).submit(second).messages == state.messages + seq![
            MessageView::from_user(first),
            MessageView::placeholder(),
            MessageView::from_user(second),
            MessageView::placeholder(),
        ],
        state.submit(first).submit(second).resolve(reply).messages == state.messages + seq![
            MessageView::from_user(first),
            MessageView::placeholder(),
            MessageView::from_user(second),
            MessageView::from_assistant(reply),
        ],
{
}

/// The rendering has the transcript's order: entry `i` is made from message
/// `i`, and there are no other entries.
pub proof fn lemma_rendering_keeps_order(messages: Seq<MessageView>)
    ensures
        rendering(messages).len() == messages.len(),
        forall|i: int|
            0 <= i < messages.len() ==> #[trigger] rendering(messages)[i] == entry_of(messages[i]),
{
}

/// Appending a message appends its entry: what was rendered before stays
/// in front, unchanged.
pub proof fn lemma_rendering_follows_append(messages: Seq<MessageView>, message: MessageView)
    ensures
        rendering(messages.push(message)) == rendering(messages).push(entry_of(message)),
{
}

/// Replacing the text of the last message changes the text of the last
/// entry and nothing else.
pub proof fn lemma_rendering_follows_replacement(messages: Seq<MessageView>, text: Seq<char>)
    requires
        messages.len() > 0,
    ensures
        rendering(with_last_text(messages, text)) == rendering(messages).update(
            messages.len() - 1,
            EntryView { class: rendering(messages).last().class, text },
        ),
{
}

/// The two style classes differ, so an entry tells who wrote its message.
pub proof fn lemma_class_tells_author(a: bool, b: bool)
    requires
        class_of(a) == class_of(b),
    ensures
        a == b,
{
    reveal_strlit("user-chat");
    reveal_strlit("ai-chat");
    assert("user-chat"@.len() == 9);
    assert("ai-chat"@.len() == 7);
}

/// Nothing is lost in rendering: transcripts that render alike are equal.
pub proof fn lemma_rendering_is_faithful(a: Seq<MessageView>, b: Seq<MessageView>)
    requires
        rendering(a) == rendering(b),
    ensures
        a == b,
{
    assert(a.len() == rendering(a).len());
    assert(b.len() == rendering(b).len());
    assert forall|i: int| 0 <= i < a.len() implies a[i] == b[i] by {
        assert(rendering(a)[i] == entry_of(a[i]));
        assert(rendering(b)[i] == entry_of(b[i]));
        lemma_class_tells_author(a[i].user, b[i].user);
    }
    assert(a =~= b);
}

} // verus!
