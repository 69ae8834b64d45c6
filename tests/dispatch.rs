use llm_chat::{
    is_success_status, reply_from_response, resolve_exchange, ChoiceMessage, CompletionResponse,
    DispatchFailure, EndpointConfig, HttpOutcome, Role, DEFAULT_ENDPOINT_URL,
};

fn choice(content: &str) -> ChoiceMessage {
    ChoiceMessage { role: "assistant".to_string(), content: content.to_string() }
}

#[test]
fn empty_choices_yield_no_message() {
    let resp = CompletionResponse { choices: vec![] };
    assert_eq!(reply_from_response(&resp, 0).unwrap_err(), DispatchFailure::NoChoices);
    let outcome = HttpOutcome::Responded { status: 200, body: Some(resp) };
    assert_eq!(resolve_exchange(&outcome, 0).unwrap_err(), DispatchFailure::NoChoices);
}

#[test]
fn non_success_status_yields_no_message_whatever_the_body() {
    for status in [100u16, 199, 300, 404, 500, 503] {
        let outcome = HttpOutcome::Responded {
            status,
            body: Some(CompletionResponse { choices: vec![choice("ignored")] }),
        };
        assert_eq!(resolve_exchange(&outcome, 0).unwrap_err(), DispatchFailure::Status(status));
    }
}

#[test]
fn transport_failure_yields_no_message() {
    assert_eq!(
        resolve_exchange(&HttpOutcome::TransportFailed, 0).unwrap_err(),
        DispatchFailure::Transport
    );
}

#[test]
fn undecodable_body_yields_no_message() {
    let outcome = HttpOutcome::Responded { status: 200, body: None };
    assert_eq!(resolve_exchange(&outcome, 0).unwrap_err(), DispatchFailure::Decode);
}

#[test]
fn first_choice_only_becomes_assistant_message() {
    let outcome = HttpOutcome::Responded {
        status: 201,
        body: Some(CompletionResponse {
            choices: vec![
                ChoiceMessage { role: "user".to_string(), content: "first".to_string() },
                choice("second"),
            ],
        }),
    };
    let msg = resolve_exchange(&outcome, 42).unwrap();
    assert_eq!(msg.role, Role::Assistant);
    assert_eq!(msg.content, "first");
    assert_eq!(msg.created_at, 42);
}

#[test]
fn success_range_bounds() {
    assert!(!is_success_status(199));
    assert!(is_success_status(200));
    assert!(is_success_status(299));
    assert!(!is_success_status(300));
}

#[test]
fn headers_with_all_options() {
    let cfg = EndpointConfig::new(
        "KEY".to_string(),
        None,
        Some("https://example.org".to_string()),
        Some("My Chat".to_string()),
    );
    assert_eq!(cfg.url, DEFAULT_ENDPOINT_URL);
    assert_eq!(cfg.url, "https://openrouter.ai/api/v1/chat/completions");
    let hs: Vec<(String, String)> =
        cfg.request_headers().into_iter().map(|h| (h.name, h.value)).collect();
    let expected: Vec<(String, String)> = vec![
        ("Content-Type".to_string(), "application/json".to_string()),
        ("Authorization".to_string(), "Bearer KEY".to_string()),
        ("HTTP-Referer".to_string(), "https://example.org".to_string()),
        ("X-Title".to_string(), "My Chat".to_string()),
    ];
    assert_eq!(hs, expected);
}

#[test]
fn headers_without_options_and_custom_url() {
    let cfg = EndpointConfig::new("k".to_string(), Some("http://localhost:9/x".to_string()), None, None);
    assert_eq!(cfg.url, "http://localhost:9/x");
    let hs = cfg.request_headers();
    assert_eq!(hs.len(), 2);
    assert_eq!(hs[1].value, "Bearer k");
}

#[test]
fn headers_with_title_only() {
    let cfg = EndpointConfig::new("k".to_string(), None, None, Some("T".to_string()));
    let hs = cfg.request_headers();
    assert_eq!(hs.len(), 3);
    assert_eq!(hs[2].name, "X-Title");
    assert_eq!(hs[2].value, "T");
}
