use vstd::prelude::*;

use crate::dispatch::{
    outcome_view, payload_view, DispatchFailure, DispatchRequest, HttpOutcome, RelayPayload,
};
use crate::message::{Message, MessageView, Role};
use crate::relay::ResponseRelay;
use crate::text::{trim_str, trimmed};
use crate::transcript::{views_of, TranscriptStore};

verus! {

/// Why a submission was not accepted.
#[derive(Clone, Copy, Debug, PartialEq, Eq, Structural)]
pub enum SubmitError {
    /// A dispatch is still in flight.
    Busy,
    /// The submitted text is empty.
    Empty,
}

/// The mathematical value of a [`ChatSession`].
pub struct SessionView {
    pub transcript: Seq<MessageView>,
    pub waiting: bool,
    pub started_at: Option<u64>,
    pub model_id: Seq<char>,
}

impl SessionView {
    /// The pending flag and its start time are set and cleared together.
    pub open spec fn wf(self) -> bool {
        self.waiting <==> self.started_at is Some
    }

    /// Why a submission of `text` is refused, if it is.
    pub open spec fn submit_rejection(self, text: Seq<char>) -> Option<SubmitError> {
        if self.waiting {
            Some(SubmitError::Busy)
        } else if text.len() == 0 {
            Some(SubmitError::Empty)
        } else {
            None
        }
    }

    /// The state after accepting `text` at time `at`: the user message is
    /// appended and the session awaits a response.
    pub open spec fn after_submit(self, text: Seq<char>, at: u64) -> SessionView {
        SessionView {
            transcript: self.transcript.push(
                MessageView { role: Role::User, content: text, created_at: at },
            ),
            waiting: true,
            started_at: Some(at),
            ..self
        }
    }

    /// The state after a relay result: a reply is appended, and either way the
    /// session is idle again.
    pub open spec fn after_receive(self, payload: Result<MessageView, DispatchFailure>) -> SessionView {
        SessionView {
            transcript: match payload {
                Ok(m) => self.transcript.push(m),
                Err(_) => self.transcript,
            },
            waiting: false,
            started_at: None,
            ..self
        }
    }
}

/// The interaction loop's state: the transcript, the pending flag, and the
/// model that the next dispatch asks.
pub struct ChatSession {
    transcript: TranscriptStore,
    is_waiting: bool,
    started_at: Option<u64>,
    model_id: String,
}

impl View for ChatSession {
    type V = SessionView;

    closed spec fn view(&self) -> SessionView {
        SessionView {
            transcript: self.transcript@,
            waiting: self.is_waiting,
            started_at: self.started_at,
            model_id: self.model_id@,
        }
    }
}

impl ChatSession {
    /// A session with an empty transcript, idle.
    pub fn new(model_id: String) -> (r: ChatSession)
        ensures
            r@ == (SessionView {
                transcript: Seq::empty(),
                waiting: false,
                started_at: None,
                model_id: model_id@,
            }),
            r@.wf(),
    {
        ChatSession { transcript: TranscriptStore::new(), is_waiting: false, started_at: None, model_id }
    }

    /// A session whose transcript opens with `greeting`, idle.
    pub fn with_greeting(model_id: String, greeting: Message) -> (r: ChatSession)
        ensures
            r@ == (SessionView {
                transcript: seq![greeting@],
                waiting: false,
                started_at: None,
                model_id: model_id@,
            }),
            r@.wf(),
    {
        let mut transcript = TranscriptStore::new();
        transcript.append(greeting);
        ChatSession { transcript, is_waiting: false, started_at: None, model_id }
    }

    /// Accepts already trimmed text at time `now`, when idle and the text is
    /// not empty: appends the user message, marks the session as awaiting a
    /// response, and returns the request for the one dispatch to start. A
    /// refused submission changes nothing.
    pub fn submit_trimmed(&mut self, text: String, now: u64) -> (r: Result<
        DispatchRequest,
        SubmitError,
    >)
        requires
            old(self)@.wf(),
        ensures
            final(self)@.wf(),
            r is Err <==> old(self)@.submit_rejection(text@) is Some,
            r is Err ==> r->Err_0 == old(self)@.submit_rejection(text@)->Some_0 && final(self)@
                == old(self)@,
            r is Ok ==> final(self)@ == old(self)@.after_submit(text@, now) && r->Ok_0.snapshot_view()
                == final(self)@.transcript && r->Ok_0.model_id@ == old(self)@.model_id,
    {
        if self.is_waiting {
            return Err(SubmitError::Busy);
        }
        if text.as_str().unicode_len() == 0 {
            return Err(SubmitError::Empty);
        }
        self.transcript.append(Message::user(text, now));
        self.is_waiting = true;
        self.started_at = Some(now);
        let snapshot = self.transcript.snapshot();
        Ok(DispatchRequest::new(snapshot, self.model_id.clone()))
    }

    /// Accepts a raw submission: it is trimmed, then handled as by
    /// [`ChatSession::submit_trimmed`].
    pub fn submit(&mut self, input: &str, now: u64) -> (r: Result<DispatchRequest, SubmitError>)
        requires
            old(self)@.wf(),
        ensures
            final(self)@.wf(),
            r is Err <==> old(self)@.submit_rejection(trimmed(input@)) is Some,
            r is Err ==> r->Err_0 == old(self)@.submit_rejection(trimmed(input@))->Some_0
                && final(self)@ == old(self)@,
            r is Ok ==> final(self)@ == old(self)@.after_submit(trimmed(input@), now)
                && r->Ok_0.snapshot_view() == final(self)@.transcript && r->Ok_0.model_id@ == old(
                self,
            )@.model_id,
    {
        let text = String::from_str(trim_str(input));
        self.submit_trimmed(text, now)
    }

    /// Applies one relay result: a reply is appended to the transcript; a
    /// failure appends nothing. Either way the session becomes idle.
    pub fn receive(&mut self, payload: RelayPayload)
        requires
            old(self)@.wf(),
        ensures
            final(self)@.wf(),
            final(self)@ == old(self)@.after_receive(payload_view(payload)),
    {
        match payload {
            Ok(m) => self.transcript.append(m),
            Err(_) => {},
        }
        self.is_waiting = false;
        self.started_at = None;
    }

    /// One poll of the relay, without waiting: applies the oldest queued
    /// result if there is one. Returns whether a result was applied.
    pub fn poll_relay(&mut self, relay: &mut ResponseRelay) -> (r: bool)
        requires
            old(self)@.wf(),
        ensures
            final(self)@.wf(),
            r == (old(relay)@.len() > 0),
            !r ==> final(self)@ == old(self)@ && final(relay)@ == old(relay)@,
            r ==> final(self)@ == old(self)@.after_receive(old(relay)@[0]) && final(relay)@ == old(
                relay,
            )@.drop_first(),
    {
        match relay.try_receive() {
            Some(payload) => {
                self.receive(payload);
                true
            },
            None => false,
        }
    }

    /// How many dots the waiting indicator shows at time `now`: one more every
    /// half second, cycling through none to three. Three when no wait start is
    /// known, none when `now` precedes it.
    pub fn thinking_dots(&self, now: u64) -> (r: usize)
        ensures
            r == (match self@.started_at {
                None => 3,
                Some(t) => if now < t {
                    0
                } else {
                    ((now - t) / 500) % 4
                },
            }),
            r <= 3,
    {
        match self.started_at {
            None => 3,
            Some(t) => if now < t {
                0
            } else {
                (((now - t) / 500) % 4) as usize
            },
        }
    }

    /// Selects the model that later dispatches ask.
    pub fn set_model(&mut self, model_id: String)
        requires
            old(self)@.wf(),
        ensures
            final(self)@ == (SessionView { model_id: model_id@, ..old(self)@ }),
            final(self)@.wf(),
    {
        self.model_id = model_id;
    }

    pub fn model_id(&self) -> (r: &str)
        ensures
            r@ == self@.model_id,
    {
        self.model_id.as_str()
    }

    pub fn is_waiting(&self) -> (r: bool)
        ensures
            r == self@.waiting,
    {
        self.is_waiting
    }

    pub fn waiting_since(&self) -> (r: Option<u64>)
        ensures
            r == self@.started_at,
    {
        self.started_at
    }

    pub fn transcript(&self) -> (r: &TranscriptStore)
        ensures
            r@ == self@.transcript,
    {
        &self.transcript
    }
}

/// One completed exchange of the conversation: the text submitted, when, and
/// the reply that came back for it, and when.
pub struct Turn {
    pub text: Seq<char>,
    pub submitted_at: u64,
    pub reply: Seq<char>,
    pub replied_at: u64,
}

/// The state reached from `s` by running `turns` one at a time: each text is
/// submitted, then its reply is received before the next submission.
pub open spec fn run_turns(s: SessionView, turns: Seq<Turn>) -> SessionView
    decreases turns.len(),
{
    if turns.len() == 0 {
        s
    } else {
        let t = turns.last();
        run_turns(s, turns.drop_last()).after_submit(t.text, t.submitted_at).after_receive(
            Ok(MessageView { role: Role::Assistant, content: t.reply, created_at: t.replied_at }),
        )
    }
}

/// A fresh session that handles non-empty submissions one at a time, each
/// answered before the next, accepts every one of them and ends idle with a
/// transcript of twice as many messages, alternating user and assistant and
/// starting with the user, each holding its turn's text.
pub proof fn turns_alternate(model_id: Seq<char>, turns: Seq<Turn>)
    requires
        forall|k: int| 0 <= k < turns.len() ==> (#[trigger] turns[k]).text.len() > 0,
    ensures
        ({
            let start = SessionView {
                transcript: Seq::empty(),
                waiting: false,
                started_at: None,
                model_id,
            };
            let end = run_turns(start, turns);
            &&& forall|k: int|
                0 <= k < turns.len() ==> (#[trigger] run_turns(
                    start,
                    turns.subrange(0, k),
                )).submit_rejection(turns[k].text) is None
            &&& end.transcript.len() == 2 * turns.len()
            &&& forall|i: int|
                0 <= i < end.transcript.len() ==> (#[trigger] end.transcript[i]).role == (if i % 2
                    == 0 {
                    Role::User
                } else {
                    Role::Assistant
                })
            &&& forall|k: int|
                0 <= k < turns.len() ==> (#[trigger] end.transcript[2 * k]).content
                    == turns[k].text && end.transcript[2 * k + 1].content == turns[k].reply
            &&& !end.waiting
            &&& end.wf()
            &&& end.model_id == model_id
        }),
    decreases turns.len(),
{
    let start = SessionView { transcript: Seq::empty(), waiting: false, started_at: None, model_id };
    if turns.len() > 0 {
        let n = turns.len() - 1;
        let prev = turns.drop_last();
        assert forall|k: int| 0 <= k < prev.len() implies (#[trigger] prev[k]).text.len() > 0 by {
            assert(prev[k] == turns[k]);
        }
        turns_alternate(model_id, prev);
        let before = run_turns(start, prev);
        let end = run_turns(start, turns);
        let t = turns[n];
        assert(end.transcript == before.transcript.push(
            MessageView { role: Role::User, content: t.text, created_at: t.submitted_at },
        ).push(MessageView { role: Role::Assistant, content: t.reply, created_at: t.replied_at }));
        assert forall|k: int|
            0 <= k < turns.len() implies (#[trigger] run_turns(
            start,
            turns.subrange(0, k),
        )).submit_rejection(turns[k].text) is None by {
            if k < n {
                assert(turns.subrange(0, k) == prev.subrange(0, k));
                assert(prev[k] == turns[k]);
            } else {
                assert(turns.subrange(0, k) == prev);
            }
        }
        assert forall|i: int| 0 <= i < end.transcript.len() implies (#[trigger] end.transcript[i]).role
            == (if i % 2 == 0 {
            Role::User
        } else {
            Role::Assistant
        }) by {
            if i < 2 * n {
                assert(end.transcript[i] == before.transcript[i]);
            }
        }
        assert forall|k: int| 0 <= k < turns.len() implies (#[trigger] end.transcript[2 * k]).content
            == turns[k].text && end.transcript[2 * k + 1].content == turns[k].reply by {
            if k < n {
                assert(end.transcript[2 * k] == before.transcript[2 * k]);
                assert(end.transcript[2 * k + 1] == before.transcript[2 * k + 1]);
                assert(prev[k] == turns[k]);
            }
        }
    }
}

/// An exchange that yields no message, whatever the reason (transport
/// failure, non-success status, undecodable body, no choices), leaves the
/// transcript as it was once its result is received, and the session idle, so
/// the next submission is not refused as busy.
pub proof fn failed_exchange_unblocks(s: SessionView, outcome: HttpOutcome, received_at: u64)
    requires
        s.wf(),
        outcome_view(outcome, received_at) is Err,
    ensures
        s.after_receive(outcome_view(outcome, received_at)).transcript == s.transcript,
        !s.after_receive(outcome_view(outcome, received_at)).waiting,
        s.after_receive(outcome_view(outcome, received_at)).wf(),
        forall|text: Seq<char>|
            #![auto]
            s.after_receive(outcome_view(outcome, received_at)).submit_rejection(text) != Some(
                SubmitError::Busy,
            ),
{
}

} // verus!
