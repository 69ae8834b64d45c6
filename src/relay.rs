use vstd::prelude::*;

use std::collections::VecDeque;

use crate::dispatch::{payload_view, DispatchFailure, RelayPayload};
use crate::message::MessageView;

verus! {

/// The one-way queue that carries dispatch results back to the interaction
/// loop. Results come out in the order they went in.
pub struct ResponseRelay {
    queue: VecDeque<RelayPayload>,
}

impl View for ResponseRelay {
    type V = Seq<Result<MessageView, DispatchFailure>>;

    closed spec fn view(&self) -> Seq<Result<MessageView, DispatchFailure>> {
        self.queue@.map_values(|p: RelayPayload| payload_view(p))
    }
}

impl ResponseRelay {
    pub fn new() -> (r: ResponseRelay)
        ensures
            r@ == Seq::<Result<MessageView, DispatchFailure>>::empty(),
    {
        let r = ResponseRelay { queue: VecDeque::new() };
        assert(r@ =~= Seq::<Result<MessageView, DispatchFailure>>::empty());
        r
    }

    /// Queues a result. Never blocks and never fails.
    pub fn send(&mut self, payload: RelayPayload)
        ensures
            final(self)@ == old(self)@.push(payload_view(payload)),
    {
        self.queue.push_back(payload);
        assert(final(self)@ =~= old(self)@.push(payload_view(payload)));
    }

    /// Takes the oldest queued result, or returns `None` at once when there is
    /// none.
    pub fn try_receive(&mut self) -> (r: Option<RelayPayload>)
        ensures
            old(self)@.len() == 0 ==> r is None && final(self)@ == old(self)@,
            old(self)@.len() > 0 ==> r is Some && payload_view(r->Some_0) == old(self)@[0]
                && final(self)@ == old(self)@.drop_first(),
    {
        let r = self.queue.pop_front();
        assert(final(self)@ =~= old(self)@.drop_first() || old(self)@.len() == 0);
        r
    }

    pub fn len(&self) -> (r: usize)
        ensures
            r == self@.len(),
    {
        self.queue.len()
    }

    pub fn is_empty(&self) -> (r: bool)
        ensures
            r == (self@.len() == 0),
    {
        self.queue.len() == 0
    }
}

} // verus!
