use vstd::prelude::*;

use crate::message::{Message, MessageView, Role};
use crate::transcript::{copy_messages, views_of};

verus! {

/// The completion endpoint used when configuration names none.
pub const DEFAULT_ENDPOINT_URL: &'static str = "https://openrouter.ai/api/v1/chat/completions";

/// Static settings of the remote endpoint, read once at start-up.
#[derive(Debug)]
pub struct EndpointConfig {
    pub credential: String,
    pub url: String,
    pub referer: Option<String>,
    pub title: Option<String>,
}

/// One request header as a name and a value.
#[derive(Debug)]
pub struct Header {
    pub name: String,
    pub value: String,
}

impl View for Header {
    type V = (Seq<char>, Seq<char>);

    open spec fn view(&self) -> (Seq<char>, Seq<char>) {
        (self.name@, self.value@)
    }
}

pub open spec fn header_views(hs: Seq<Header>) -> Seq<(Seq<char>, Seq<char>)> {
    hs.map_values(|h: Header| h@)
}

/// The optional headers that the configuration asks for, in order.
pub open spec fn optional_header_views(referer: Option<String>, title: Option<String>) -> Seq<
    (Seq<char>, Seq<char>),
> {
    let with_referer = match referer {
        Some(v) => seq![("HTTP-Referer"@, v@)],
        None => Seq::empty(),
    };
    match title {
        Some(v) => with_referer.push(("X-Title"@, v@)),
        None => with_referer,
    }
}

/// Every header that a completion request carries, in order.
pub open spec fn request_header_views(cfg: EndpointConfig) -> Seq<(Seq<char>, Seq<char>)> {
    seq![("Content-Type"@, "application/json"@), ("Authorization"@, "Bearer "@ + cfg.credential@)]
        + optional_header_views(cfg.referer, cfg.title)
}

impl EndpointConfig {
    /// Builds a configuration; without a `url` the default endpoint is used.
    pub fn new(
        credential: String,
        url: Option<String>,
        referer: Option<String>,
        title: Option<String>,
    ) -> (r: EndpointConfig)
        ensures
            r.credential == credential,
            r.url@ == (match url {
                Some(u) => u@,
                None => DEFAULT_ENDPOINT_URL@,
            }),
            r.referer == referer,
            r.title == title,
    {
        let url = match url {
            Some(u) => u,
            None => String::from_str(DEFAULT_ENDPOINT_URL),
        };
        EndpointConfig { credential, url, referer, title }
    }

    /// The headers of every completion request: content type, bearer
    /// credential, then the optional referer and title.
    pub fn request_headers(&self) -> (r: Vec<Header>)
        ensures
            header_views(r@) == request_header_views(*self),
    {
        let mut r: Vec<Header> = Vec::new();
        r.push(
            Header {
                name: String::from_str("Content-Type"),
                value: String::from_str("application/json"),
            },
        );
        let bearer = String::from_str("Bearer ").concat(self.credential.as_str());
        r.push(Header { name: String::from_str("Authorization"), value: bearer });
        if let Some(v) = &self.referer {
            r.push(Header { name: String::from_str("HTTP-Referer"), value: v.clone() });
        }
        if let Some(v) = &self.title {
            r.push(Header { name: String::from_str("X-Title"), value: v.clone() });
        }
        assert(header_views(r@) =~= request_header_views(*self));
        r
    }
}

/// A message as the endpoint receives it: role name and content.
#[derive(Debug)]
pub struct WireMessage {
    pub role: String,
    pub content: String,
}

impl View for WireMessage {
    type V = (Seq<char>, Seq<char>);

    open spec fn view(&self) -> (Seq<char>, Seq<char>) {
        (self.role@, self.content@)
    }
}

pub open spec fn wire_view(m: MessageView) -> (Seq<char>, Seq<char>) {
    (m.role.spec_name(), m.content)
}

/// What one dispatch execution needs: a copy of the conversation and the
/// model to ask.
#[derive(Debug)]
pub struct DispatchRequest {
    pub conversation_snapshot: Vec<Message>,
    pub model_id: String,
}

impl DispatchRequest {
    pub open spec fn snapshot_view(&self) -> Seq<MessageView> {
        views_of(self.conversation_snapshot@)
    }

    pub fn new(conversation_snapshot: Vec<Message>, model_id: String) -> (r: DispatchRequest)
        ensures
            r.conversation_snapshot == conversation_snapshot,
            r.model_id == model_id,
    {
        DispatchRequest { conversation_snapshot, model_id }
    }

    /// The messages of the outbound payload, in conversation order, with the
    /// timestamps left out.
    pub fn wire_messages(&self) -> (r: Vec<WireMessage>)
        ensures
            r@.len() == self.conversation_snapshot@.len(),
            forall|i: int|
                0 <= i < r@.len() ==> #[trigger] r@[i]@ == wire_view(
                    self.conversation_snapshot@[i]@,
                ),
    {
        let mut r: Vec<WireMessage> = Vec::new();
        let n = self.conversation_snapshot.len();
        let mut i: usize = 0;
        while i < n
            invariant
                n == self.conversation_snapshot@.len(),
                i <= n,
                r@.len() == i,
                forall|j: int|
                    0 <= j < i ==> #[trigger] r@[j]@ == wire_view(
                        self.conversation_snapshot@[j]@,
                    ),
            decreases n - i,
        {
            let m = &self.conversation_snapshot[i];
            r.push(
                WireMessage {
                    role: String::from_str(m.role.name()),
                    content: m.content.clone(),
                },
            );
            i = i + 1;
        }
        r
    }
}

/// Why a dispatch execution produced no reply.
#[derive(Clone, Copy, Debug, PartialEq, Eq, Structural)]
pub enum DispatchFailure {
    /// The request could not be sent or no response arrived.
    Transport,
    /// The endpoint answered with a status outside the success range.
    Status(u16),
    /// The response body could not be read or decoded.
    Decode,
    /// The decoded response held no choice.
    NoChoices,
}

/// What travels over the relay: a reply, or the reason there is none.
pub type RelayPayload = Result<Message, DispatchFailure>;

pub open spec fn payload_view(p: RelayPayload) -> Result<MessageView, DispatchFailure> {
    match p {
        Ok(m) => Ok(m@),
        Err(e) => Err(e),
    }
}

/// One returned choice: the message that the model produced.
#[derive(Debug)]
pub struct ChoiceMessage {
    pub role: String,
    pub content: String,
}

/// A decoded success response: the returned choices, in order.
#[derive(Debug)]
pub struct CompletionResponse {
    pub choices: Vec<ChoiceMessage>,
}

/// How one request/response exchange ended, as seen by the dispatcher.
#[derive(Debug)]
pub enum HttpOutcome {
    /// No response was obtained.
    TransportFailed,
    /// A response arrived; `body` is the decoded body, or `None` where it was
    /// not read or could not be decoded.
    Responded { status: u16, body: Option<CompletionResponse> },
}

pub open spec fn spec_is_success_status(code: u16) -> bool {
    200 <= code && code <= 299
}

/// Whether an HTTP status code is in the success range.
pub fn is_success_status(code: u16) -> (r: bool)
    ensures
        r == spec_is_success_status(code),
{
    200 <= code && code <= 299
}

/// The payload that a decoded response yields, received at `received_at`.
pub open spec fn reply_view(resp: CompletionResponse, received_at: u64) -> Result<
    MessageView,
    DispatchFailure,
> {
    if resp.choices@.len() == 0 {
        Err(DispatchFailure::NoChoices)
    } else {
        Ok(
            MessageView {
                role: Role::Assistant,
                content: resp.choices@[0].content@,
                created_at: received_at,
            },
        )
    }
}

/// The payload that an exchange yields, received at `received_at`.
pub open spec fn outcome_view(outcome: HttpOutcome, received_at: u64) -> Result<
    MessageView,
    DispatchFailure,
> {
    match outcome {
        HttpOutcome::TransportFailed => Err(DispatchFailure::Transport),
        HttpOutcome::Responded { status, body } => {
            if !spec_is_success_status(status) {
                Err(DispatchFailure::Status(status))
            } else {
                match body {
                    None => Err(DispatchFailure::Decode),
                    Some(resp) => reply_view(resp, received_at),
                }
            }
        },
    }
}

/// Maps a decoded response to an assistant message made of its first choice;
/// any further choices are discarded.
pub fn reply_from_response(resp: &CompletionResponse, received_at: u64) -> (r: RelayPayload)
    ensures
        payload_view(r) == reply_view(*resp, received_at),
        resp.choices@.len() == 0 <==> r is Err,
{
    if resp.choices.len() == 0 {
        Err(DispatchFailure::NoChoices)
    } else {
        let content = resp.choices[0].content.clone();
        Ok(Message::assistant(content, received_at))
    }
}

/// Resolves one exchange into the payload sent over the relay. Transport
/// failures, non-success statuses (whatever the body) and undecodable bodies
/// all yield no message.
pub fn resolve_exchange(outcome: &HttpOutcome, received_at: u64) -> (r: RelayPayload)
    ensures
        payload_view(r) == outcome_view(*outcome, received_at),
        r is Ok <==> (match *outcome {
            HttpOutcome::Responded { status, body: Some(resp) } => spec_is_success_status(status)
                && resp.choices@.len() > 0,
            _ => false,
        }),
{
    match outcome {
        HttpOutcome::TransportFailed => Err(DispatchFailure::Transport),
        HttpOutcome::Responded { status, body } => {
            if !is_success_status(*status) {
                Err(DispatchFailure::Status(*status))
            } else {
                match body {
                    None => Err(DispatchFailure::Decode),
                    Some(resp) => reply_from_response(resp, received_at),
                }
            }
        },
    }
}

} // verus!
