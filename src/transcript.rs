use vstd::prelude::*;

use crate::message::{Message, MessageView};

verus! {

/// The views of a sequence of messages, in order.
pub open spec fn views_of(msgs: Seq<Message>) -> Seq<MessageView> {
    msgs.map_values(|m: Message| m@)
}

/// Copies a sequence of messages element by element.
pub fn copy_messages(msgs: &Vec<Message>) -> (r: Vec<Message>)
    ensures
        views_of(r@) == views_of(msgs@),
{
    let mut r: Vec<Message> = Vec::new();
    let n = msgs.len();
    let mut i: usize = 0;
    while i < n
        invariant
            n == msgs@.len(),
            i <= n,
            views_of(r@) =~= views_of(msgs@.subrange(0, i as int)),
        decreases n - i,
    {
        let m = msgs[i].clone();
        assert(m@ == msgs@[i as int]@);
        let ghost before = r@;
        r.push(m);
        assert(views_of(r@) =~= views_of(before).push(msgs@[i as int]@));
        assert(views_of(msgs@.subrange(0, i + 1)) =~= views_of(msgs@.subrange(0, i as int)).push(
            msgs@[i as int]@,
        ));
        i = i + 1;
    }
    assert(msgs@.subrange(0, n as int) =~= msgs@);
    r
}

/// The ordered, append-only record of a conversation.
pub struct TranscriptStore {
    messages: Vec<Message>,
}

impl View for TranscriptStore {
    type V = Seq<MessageView>;

    closed spec fn view(&self) -> Seq<MessageView> {
        views_of(self.messages@)
    }
}

impl TranscriptStore {
    pub fn new() -> (r: TranscriptStore)
        ensures
            r@ == Seq::<MessageView>::empty(),
    {
        let r = TranscriptStore { messages: Vec::new() };
        assert(r@ =~= Seq::<MessageView>::empty());
        r
    }

    /// Adds `message` at the end. Never fails.
    pub fn append(&mut self, message: Message)
        ensures
            final(self)@ == old(self)@.push(message@),
    {
        self.messages.push(message);
        assert(final(self)@ =~= old(self)@.push(message@));
    }

    /// An independent copy of the current sequence of messages.
    pub fn snapshot(&self) -> (r: Vec<Message>)
        ensures
            views_of(r@) == self@,
    {
        copy_messages(&self.messages)
    }

    pub fn len(&self) -> (r: usize)
        ensures
            r == self@.len(),
    {
        self.messages.len()
    }

    pub fn is_empty(&self) -> (r: bool)
        ensures
            r == (self@.len() == 0),
    {
        self.messages.len() == 0
    }

    /// Read access to the messages, for display.
    pub fn messages(&self) -> (r: &Vec<Message>)
        ensures
            views_of(r@) == self@,
    {
        &self.messages
    }
}

/// A snapshot taken of a transcript stays what it was through any later
/// appends: it keeps its length, and it is still the start of the grown
/// transcript.
pub proof fn snapshot_unaffected_by_appends(
    transcript: Seq<MessageView>,
    snapshot: Seq<MessageView>,
    later: Seq<MessageView>,
)
    requires
        snapshot == transcript,
    ensures
        snapshot.len() == transcript.len(),
        (transcript + later).len() == snapshot.len() + later.len(),
        (transcript + later).subrange(0, snapshot.len() as int) == snapshot,
{
    assert((transcript + later).subrange(0, snapshot.len() as int) =~= snapshot);
}

} // verus!
