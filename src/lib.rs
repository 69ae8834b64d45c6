//! Conversation orchestration for an interactive chat client that talks to a
//! remote completion endpoint.
//!
//! The library owns the transcript, decides when a completion request may be
//! dispatched, interprets the outcome of each exchange, and relays results back
//! to the owning interaction loop. Transport, rendering and configuration
//! loading live outside it and hand it plain values.
mod blocks;
mod cli;
mod dispatch;
mod message;
mod relay;
mod session;
mod text;
mod transcript;

pub use blocks::{
    block_views, blocks_of, classify_line_block, is_fence, line_block, scan_lines, scan_step,
    split_blocks, BlockKind, ScanState, TextBlock,
};
pub use cli::{classify_line, classify_trimmed, LineCommand};
pub use dispatch::{
    header_views, is_success_status, optional_header_views, outcome_view, payload_view,
    reply_from_response, reply_view, request_header_views, resolve_exchange,
    spec_is_success_status, wire_view, ChoiceMessage, CompletionResponse, DispatchFailure,
    DispatchRequest, EndpointConfig, Header, HttpOutcome, RelayPayload, WireMessage,
    DEFAULT_ENDPOINT_URL,
};
pub use message::{Message, MessageView, Role};
pub use relay::ResponseRelay;
pub use session::{
    failed_exchange_unblocks, run_turns, turns_alternate, ChatSession, SessionView, SubmitError,
    Turn,
};
pub use text::{
    ascii_fold, eq_ascii_folded, has_prefix, lines_of, occurs_in, replace_all, trimmed,
};
pub use transcript::{copy_messages, snapshot_unaffected_by_appends, views_of, TranscriptStore};
