use std::time::{Duration, Instant};

use llm_chat::{
    resolve_exchange, ChatSession, ChoiceMessage, CompletionResponse, HttpOutcome, Message,
    ResponseRelay, Role, SubmitError, TranscriptStore,
};

fn success_with(contents: &[&str]) -> HttpOutcome {
    HttpOutcome::Responded {
        status: 200,
        body: Some(CompletionResponse {
            choices: contents
                .iter()
                .map(|c| ChoiceMessage { role: "assistant".to_string(), content: c.to_string() })
                .collect(),
        }),
    }
}

fn roles_and_contents(session: &ChatSession) -> Vec<(Role, String)> {
    session
        .transcript()
        .messages()
        .iter()
        .map(|m| (m.role, m.content.clone()))
        .collect()
}

#[test]
fn hello_gets_reply_appended() {
    let mut session = ChatSession::new("test-model".to_string());
    let mut relay = ResponseRelay::new();
    let request = session.submit("hello", 10).unwrap();
    assert!(session.is_waiting());
    assert_eq!(request.model_id, "test-model");
    assert_eq!(request.conversation_snapshot.len(), 1);
    relay.send(resolve_exchange(&success_with(&["hi there"]), 20));
    assert!(session.poll_relay(&mut relay));
    assert_eq!(
        roles_and_contents(&session),
        vec![(Role::User, "hello".to_string()), (Role::Assistant, "hi there".to_string())]
    );
    assert!(!session.is_waiting());
    assert_eq!(session.waiting_since(), None);
}

#[test]
fn server_error_appends_nothing_and_clears_pending() {
    let mut session = ChatSession::new("m".to_string());
    let mut relay = ResponseRelay::new();
    session.submit("ping", 1).unwrap();
    let outcome = HttpOutcome::Responded { status: 500, body: None };
    relay.send(resolve_exchange(&outcome, 2));
    assert!(session.poll_relay(&mut relay));
    assert_eq!(roles_and_contents(&session), vec![(Role::User, "ping".to_string())]);
    assert!(!session.is_waiting());
    assert!(session.submit("again", 3).is_ok());
}

#[test]
fn turns_one_at_a_time_alternate() {
    let mut session = ChatSession::new("m".to_string());
    let mut relay = ResponseRelay::new();
    let n = 5;
    for k in 0..n {
        session.submit(&format!("question {}", k), k * 10).unwrap();
        relay.send(resolve_exchange(&success_with(&[&format!("answer {}", k)]), k * 10 + 5));
        while session.poll_relay(&mut relay) {}
    }
    let msgs = session.transcript().messages();
    assert_eq!(msgs.len(), 2 * n as usize);
    for (i, m) in msgs.iter().enumerate() {
        let expected = if i % 2 == 0 { Role::User } else { Role::Assistant };
        assert_eq!(m.role, expected);
    }
    assert_eq!(msgs[4].content, "question 2");
    assert_eq!(msgs[5].content, "answer 2");
}

#[test]
fn submission_while_waiting_is_refused() {
    let mut session = ChatSession::new("m".to_string());
    session.submit("first", 0).unwrap();
    assert_eq!(session.submit("second", 1).unwrap_err(), SubmitError::Busy);
    assert_eq!(session.transcript().len(), 1);
}

#[test]
fn empty_or_blank_submission_is_refused() {
    let mut session = ChatSession::new("m".to_string());
    assert_eq!(session.submit("", 0).unwrap_err(), SubmitError::Empty);
    assert_eq!(session.submit("  \n\t ", 0).unwrap_err(), SubmitError::Empty);
    assert!(session.transcript().is_empty());
    assert!(!session.is_waiting());
}

#[test]
fn busy_takes_precedence_over_empty() {
    let mut session = ChatSession::new("m".to_string());
    session.submit("x", 0).unwrap();
    assert_eq!(session.submit("   ", 1).unwrap_err(), SubmitError::Busy);
}

#[test]
fn submission_is_trimmed() {
    let mut session = ChatSession::new("m".to_string());
    let request = session.submit("  spaced out \n", 7).unwrap();
    assert_eq!(session.transcript().messages()[0].content, "spaced out");
    assert_eq!(request.conversation_snapshot[0].content, "spaced out");
    assert_eq!(request.conversation_snapshot[0].created_at, 7);
}

#[test]
fn request_carries_whole_conversation_and_model() {
    let greeting = Message::assistant("Hello!".to_string(), 0);
    let mut session = ChatSession::with_greeting("first-model".to_string(), greeting);
    session.set_model("second-model".to_string());
    let request = session.submit("hi", 1).unwrap();
    assert_eq!(request.model_id, "second-model");
    assert_eq!(session.model_id(), "second-model");
    let wire = request.wire_messages();
    assert_eq!(wire.len(), 2);
    assert_eq!((wire[0].role.as_str(), wire[0].content.as_str()), ("assistant", "Hello!"));
    assert_eq!((wire[1].role.as_str(), wire[1].content.as_str()), ("user", "hi"));
}

#[test]
fn snapshot_is_unchanged_by_later_appends() {
    let mut store = TranscriptStore::new();
    store.append(Message::user("a".to_string(), 1));
    let snapshot = store.snapshot();
    store.append(Message::assistant("b".to_string(), 2));
    store.append(Message::user("c".to_string(), 3));
    assert_eq!(snapshot.len(), 1);
    assert_eq!(snapshot[0].content, "a");
    assert_eq!(store.len(), 3);
}

#[test]
fn request_snapshot_is_unchanged_by_later_receive() {
    let mut session = ChatSession::new("m".to_string());
    let mut relay = ResponseRelay::new();
    let request = session.submit("q", 0).unwrap();
    relay.send(resolve_exchange(&success_with(&["r"]), 1));
    session.poll_relay(&mut relay);
    assert_eq!(session.transcript().len(), 2);
    assert_eq!(request.conversation_snapshot.len(), 1);
}

#[test]
fn try_receive_on_empty_relay_returns_at_once() {
    let mut relay = ResponseRelay::new();
    let start = Instant::now();
    let got = relay.try_receive();
    assert!(got.is_none());
    assert!(start.elapsed() < Duration::from_millis(100));
    assert!(relay.is_empty());
}

#[test]
fn relay_keeps_sending_order() {
    let mut relay = ResponseRelay::new();
    relay.send(Ok(Message::assistant("one".to_string(), 1)));
    relay.send(Ok(Message::assistant("two".to_string(), 2)));
    assert_eq!(relay.len(), 2);
    assert_eq!(relay.try_receive().unwrap().unwrap().content, "one");
    assert_eq!(relay.try_receive().unwrap().unwrap().content, "two");
    assert!(relay.try_receive().is_none());
}

#[test]
fn poll_on_empty_relay_changes_nothing() {
    let mut session = ChatSession::new("m".to_string());
    let mut relay = ResponseRelay::new();
    session.submit("q", 5).unwrap();
    assert!(!session.poll_relay(&mut relay));
    assert!(session.is_waiting());
    assert_eq!(session.waiting_since(), Some(5));
}

#[test]
fn thinking_dots_cycle_every_half_second() {
    let mut session = ChatSession::new("m".to_string());
    assert_eq!(session.thinking_dots(0), 3);
    session.submit("q", 1000).unwrap();
    assert_eq!(session.thinking_dots(1000), 0);
    assert_eq!(session.thinking_dots(1499), 0);
    assert_eq!(session.thinking_dots(1500), 1);
    assert_eq!(session.thinking_dots(2000), 2);
    assert_eq!(session.thinking_dots(2600), 3);
    assert_eq!(session.thinking_dots(3000), 0);
    assert_eq!(session.thinking_dots(10), 0);
}
