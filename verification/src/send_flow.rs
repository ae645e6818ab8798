//! The send flow: what a submission and the outcome of a reply request do to
//! the transcript.
//!
//! The page feeds the flow three kinds of event. A submission appends the
//! user's message and a placeholder for the reply, and hands back the
//! transcript that the reply request carries. A reply that arrived replaces
//! the text of the last entry. A request that failed changes nothing in the
//! transcript. The flow never waits: the page issues the request and comes
//! back with its outcome.

use vstd::prelude::*;
use crate::conversation::{with_last_text, Conversation};
use crate::message::{Message, MessageView};

verus! {

/// Where the flow stands.
#[derive(Clone, Copy, Debug, PartialEq, Eq, Structural)]
pub enum Phase {
    /// Nothing was submitted yet.
    Idle,
    /// The last event was a submission: its reply is awaited.
    Sending,
    /// The last event was a reply that arrived.
    Resolved,
    /// The last event was a reply request that failed.
    Failed,
}

/// The messages alternate, starting with the user: every entry at an even
/// position is the user's, every entry at an odd position the assistant's,
/// and each user entry has its assistant entry behind it.
pub open spec fn in_turns(messages: Seq<MessageView>) -> bool {
    &&& messages.len() % 2 == 0
    &&& forall|i: int| 0 <= i < messages.len() ==> (#[trigger] messages[i]).user == (i % 2 == 0)
}

/// The flow as a mathematical value: the transcript and the phase.
pub struct FlowState {
    pub messages: Seq<MessageView>,
    pub phase: Phase,
}

impl FlowState {
    /// The state before the first event.
    pub open spec fn initial() -> FlowState {
        FlowState { messages: Seq::empty(), phase: Phase::Idle }
    }

    /// What holds of every state that the events can lead to.
    pub open spec fn valid(self) -> bool {
        &&& in_turns(self.messages)
        &&& self.phase == Phase::Idle ==> self.messages.len() == 0
        &&& self.phase == Phase::Sending ==> self.messages.len() > 0 && self.messages.last()
            == MessageView::placeholder()
    }

    /// The transcript that goes out with the reply request when `text` is
    /// submitted: everything said so far and the new message, without the
    /// placeholder.
    pub open spec fn request(self, text: Seq<char>) -> Seq<MessageView> {
        self.messages.push(MessageView::from_user(text))
    }

    /// The state after `text` was submitted.
    pub open spec fn submit(self, text: Seq<char>) -> FlowState {
        FlowState {
            messages: self.messages.push(MessageView::from_user(text)).push(
                MessageView::placeholder(),
            ),
            phase: Phase::Sending,
        }
    }

    /// The state after a reply with the text `reply` arrived.
    pub open spec fn resolve(self, reply: Seq<char>) -> FlowState
        recommends
            self.messages.len() > 0,
    {
        FlowState { messages: with_last_text(self.messages, reply), phase: Phase::Resolved }
    }

    /// The state after a reply request failed.
    pub open spec fn fail(self) -> FlowState {
        FlowState { messages: self.messages, phase: Phase::Failed }
    }
}

/// The send flow of one page.
#[derive(Debug)]
pub struct SendFlow {
    conversation: Conversation,
    phase: Phase,
}

impl View for SendFlow {
    type V = FlowState;

    closed spec fn view(&self) -> FlowState {
        FlowState { messages: self.conversation@, phase: self.phase }
    }
}

impl Clone for SendFlow {
    fn clone(&self) -> (copy: Self)
        ensures
            copy@ == self@,
    {
        proof {
            use_type_invariant(self);
        }
        SendFlow { conversation: self.conversation.clone(), phase: self.phase }
    }
}

impl SendFlow {
    #[verifier::type_invariant]
    spec fn reachable(&self) -> bool {
        self@.valid()
    }

    /// The flow of a page on which nothing was said yet.
    pub fn new() -> (flow: Self)
        ensures
            flow@ == FlowState::initial(),
            flow@.valid(),
    {
        SendFlow { conversation: Conversation::new(), phase: Phase::Idle }
    }

    /// The transcript as it stands.
    pub fn conversation(&self) -> (conversation: &Conversation)
        ensures
            conversation@ == self@.messages,
            self@.valid(),
    {
        proof {
            use_type_invariant(self);
        }
        &self.conversation
    }

    /// The phase the last event left the flow in.
    pub fn phase(&self) -> (phase: Phase)
        ensures
            phase == self@.phase,
            self@.valid(),
    {
        proof {
            use_type_invariant(self);
        }
        self.phase
    }

    /// The user submitted `text`. Any text is taken as it is, the empty one
    /// too, and in any phase: a submission while a reply is awaited is
    /// not held back.
    ///
    /// Exactly two entries are appended: the user's message with `text`, then
    /// the placeholder. The result is the transcript to send with the reply
    /// request: all messages up to and including the user's new one.
    pub fn submit(&mut self, text: String) -> (request: Conversation)
        ensures
            final(self)@.messages == old(self)@.messages + seq![
                MessageView::from_user(text@),
                MessageView::placeholder(),
            ],
            final(self)@.phase == Phase::Sending,
            final(self)@ == old(self)@.submit(text@),
            request@ == old(self)@.request(text@),
            final(self)@.valid(),
    {
        proof {
            use_type_invariant(&*self);
        }
        let mut taken = SendFlow::new();
        std::mem::swap(self, &mut taken);
        let mut conversation = taken.conversation;
        conversation.append(Message::from_user(text));
        let request = conversation.clone();
        conversation.append(Message::placeholder());
        *self = SendFlow { conversation, phase: Phase::Sending };
        request
    }

    /// A reply with the text `reply` arrived. It takes the place of the text
    /// of the last entry, whichever request it answers; no other entry
    /// changes.
    ///
    /// A reply can only follow a submission, so the transcript is not empty.
    pub fn resolve(&mut self, reply: String)
        requires
            old(self)@.messages.len() > 0,
        ensures
            final(self)@.messages.len() == old(self)@.messages.len(),
            final(self)@.messages.last() == MessageView::from_assistant(reply@),
            final(self)@.messages.drop_last() == old(self)@.messages.drop_last(),
            final(self)@.phase == Phase::Resolved,
            final(self)@ == old(self)@.resolve(reply@),
            final(self)@.valid(),
    {
        proof {
            use_type_invariant(&*self);
        }
        let mut taken = SendFlow::new();
        std::mem::swap(self, &mut taken);
        let mut conversation = taken.conversation;
        conversation.replace_last_text(reply);
        *self = SendFlow { conversation, phase: Phase::Resolved };
    }

    /// A reply request failed. The transcript stays as it is: where the
    /// placeholder is the last entry, it goes on standing there.
    pub fn fail(&mut self)
        ensures
            final(self)@.messages == old(self)@.messages,
            final(self)@.phase == Phase::Failed,
            final(self)@ == old(self)@.fail(),
            final(self)@.valid(),
    {
        proof {
            use_type_invariant(&*self);
        }
        self.phase = Phase::Failed;
    }

    /// The reply request came back with `outcome`: a reply that arrived is
    /// filled in as by `resolve`, an error is taken as by `fail`, whatever the
    /// error is.
    pub fn settle<E>(&mut self, outcome: Result<String, E>)
        requires
            outcome is Ok ==> old(self)@.messages.len() > 0,
        ensures
            outcome matches Ok(reply) ==> final(self)@ == old(self)@.resolve(reply@),
            outcome is Err ==> final(self)@ == old(self)@.fail(),
            final(self)@.valid(),
    {
        match outcome {
            Ok(reply) => self.resolve(reply),
            Err(_) => self.fail(),
        }
    }
}

} // verus!
