use asimov_openai_module::{
    conclude, extract, interpret, interpret_document, interpret_parsed, is_success, list_refusals,
    refusals_to_report, Error, Exchange, Json, Reply,
};

fn texts(items: &[&str]) -> Vec<String> {
    items.iter().map(|s| s.to_string()).collect()
}

const CHAT_HELLO: &str =
    r#"{"choices":[{"index":0,"message":{"role":"assistant","content":"hello"},"finish_reason":"stop"}]}"#;

#[test]
fn chat_reply_with_one_assistant_choice_gives_its_content() {
    assert_eq!(interpret(200, CHAT_HELLO).unwrap(), texts(&["hello"]));
}

#[test]
fn chat_choice_of_another_role_is_skipped() {
    let body = r#"{"choices":[{"message":{"role":"system","content":"hello"}}]}"#;
    assert_eq!(interpret(200, body).unwrap(), Vec::<String>::new());
}

#[test]
fn chat_choice_without_a_role_is_kept() {
    let body = r#"{"choices":[{"message":{"content":"hello"}}]}"#;
    assert_eq!(interpret(200, body).unwrap(), texts(&["hello"]));
}

#[test]
fn chat_choice_with_a_role_that_is_no_string_is_skipped() {
    let body = r#"{"choices":[{"message":{"role":7,"content":"hello"}}]}"#;
    assert_eq!(interpret(200, body).unwrap(), Vec::<String>::new());
    let body = r#"{"choices":[{"message":{"role":true,"content":"x"}}]}"#;
    assert_eq!(interpret(200, body).unwrap(), Vec::<String>::new());
    let body = r#"{"choices":[
        {"message":{"role":null,"content":"a"}},
        {"message":{"role":["assistant"],"content":"b"}},
        {"message":{"role":{"name":"assistant"},"content":"c"}},
        {"message":{"role":"Assistant","content":"d"}},
        {"message":{"role":"assistant","content":"e"}},
        {"message":{"content":"f"}}
    ]}"#;
    assert_eq!(interpret(200, body).unwrap(), texts(&["e", "f"]));
}

#[test]
fn structured_reply_skips_a_type_or_role_that_is_no_string() {
    let body = r#"{"output":[
        {"type":7,"content":[{"text":"a"}]},
        {"type":null,"role":"assistant","content":[{"text":"b"}]},
        {"type":"message","role":true,"content":[{"text":"c"}]},
        {"type":"message","role":null,"content":[{"text":"d"}]},
        {"type":"message","role":"assistant","content":[
            {"type":1,"text":"e"},
            {"type":null,"text":"f"},
            {"type":["output_text"],"text":"g"},
            {"type":"output_text","text":"h"}
        ]}
    ]}"#;
    assert_eq!(interpret(200, body).unwrap(), texts(&["h"]));
}

#[test]
fn refusal_under_a_role_that_is_no_string_is_not_listed() {
    let body = r#"{"choices":[
        {"message":{"role":7,"refusal":"skipped"}},
        {"message":{"role":"assistant","refusal":"policy"}}
    ]}"#;
    let doc = Json::parse(body).unwrap();
    assert_eq!(list_refusals(&doc), texts(&["policy"]));
    assert_eq!(extract(&doc), Vec::<String>::new());
}

#[test]
fn structured_reply_gives_its_output_text() {
    let body = r#"{"output":[{"type":"message","role":"assistant","content":[{"type":"output_text","text":"hi"}]}]}"#;
    assert_eq!(interpret(200, body).unwrap(), texts(&["hi"]));
}

#[test]
fn failing_status_with_error_message_fails_with_that_message() {
    let body = r#"{"error":{"message":"quota exceeded"}}"#;
    match interpret(429, body) {
        Err(Error::Upstream(message)) => assert_eq!(message, "quota exceeded"),
        other => panic!("unexpected: {:?}", other),
    }
    assert_eq!(interpret(429, body).unwrap_err().description(), "quota exceeded");
}

#[test]
fn error_message_overrides_content_in_either_layout() {
    let chat = r#"{"choices":[{"message":{"role":"assistant","content":"hello"}}],"error":{"message":"quota exceeded"}}"#;
    assert!(matches!(interpret(429, chat), Err(Error::Upstream(m)) if m == "quota exceeded"));
    let structured = r#"{"error":{"message":"quota exceeded","type":"insufficient_quota"},"output":[{"content":[{"text":"hi"}]}]}"#;
    assert!(matches!(interpret(500, structured), Err(Error::Upstream(m)) if m == "quota exceeded"));
}

#[test]
fn failing_status_without_error_message_still_gives_the_text() {
    assert_eq!(interpret(429, CHAT_HELLO).unwrap(), texts(&["hello"]));
}

#[test]
fn error_message_that_is_no_string_does_not_fail_the_call() {
    let body = r#"{"error":{"message":42},"choices":[{"message":{"role":"assistant","content":"hello"}}]}"#;
    assert_eq!(interpret(429, body).unwrap(), texts(&["hello"]));
    let body = r#"{"error":"quota exceeded","choices":[{"message":{"role":"assistant","content":"hello"}}]}"#;
    assert_eq!(interpret(429, body).unwrap(), texts(&["hello"]));
}

#[test]
fn error_envelope_under_a_success_status_is_ignored() {
    let body = r#"{"error":{"message":"quota exceeded"},"choices":[{"message":{"role":"assistant","content":"hello"}}]}"#;
    assert_eq!(interpret(200, body).unwrap(), texts(&["hello"]));
    assert_eq!(interpret(299, body).unwrap(), texts(&["hello"]));
    assert!(matches!(interpret(300, body), Err(Error::Upstream(_))));
    assert!(matches!(interpret(199, body), Err(Error::Upstream(_))));
}

#[test]
fn malformed_body_fails_under_every_status() {
    for status in [0u16, 199, 200, 204, 299, 300, 404, 429, 500, u16::MAX] {
        assert!(matches!(interpret(status, "not json"), Err(Error::MalformedResponse)));
        assert!(matches!(interpret(status, ""), Err(Error::MalformedResponse)));
        assert!(matches!(interpret(status, r#"{"choices":["#), Err(Error::MalformedResponse)));
    }
}

#[test]
fn refusal_in_place_of_content_adds_nothing() {
    let body = r#"{"choices":[{"message":{"role":"assistant","refusal":"policy"}}]}"#;
    let first = interpret(200, body).unwrap();
    let second = interpret(200, body).unwrap();
    assert_eq!(first, Vec::<String>::new());
    assert_eq!(first, second);
}

#[test]
fn refusals_are_listed_apart_from_the_text() {
    let body = r#"{"choices":[
        {"message":{"role":"assistant","content":null,"refusal":"policy"}},
        {"message":{"role":"assistant","content":"fine","refusal":"unused"}},
        {"message":{"role":"tool","refusal":"skipped"}},
        {"message":{"refusal":"again"}}
    ]}"#;
    let doc = Json::parse(body).unwrap();
    assert_eq!(extract(&doc), texts(&["fine"]));
    assert_eq!(list_refusals(&doc), texts(&["policy", "again"]));
    let structured = Json::parse(r#"{"output":[{"refusal":"policy"}]}"#).unwrap();
    assert_eq!(list_refusals(&structured), Vec::<String>::new());
}

#[test]
fn fragments_keep_upstream_order_and_duplicates() {
    let body = r#"{"choices":[
        {"message":{"role":"assistant","content":"b"}},
        {"message":{"role":"user","content":"x"}},
        {"message":{"role":"assistant","content":"a"}},
        {"message":{"role":"assistant","content":7}},
        {"message":"none"},
        {},
        17,
        {"message":{"role":"assistant","content":"b"}}
    ]}"#;
    assert_eq!(interpret(200, body).unwrap(), texts(&["b", "a", "b"]));
}

#[test]
fn structured_reply_skips_what_is_no_assistant_output_text() {
    let body = r#"{"output":[
        {"type":"reasoning","content":[{"type":"output_text","text":"no"}]},
        {"type":"message","role":"user","content":[{"type":"output_text","text":"no"}]},
        {"type":"message","role":"assistant","status":"completed","content":[
            {"type":"output_text","text":"one"},
            {"type":"refusal","text":"no"},
            {"text":"two"},
            {"type":"output_text","text":3},
            {"type":"output_text"},
            "three"
        ]},
        {"content":[{"text":"four"}]},
        {"type":"message","role":"assistant","content":"flat"},
        {"type":"message","role":"assistant"}
    ]}"#;
    assert_eq!(interpret(200, body).unwrap(), texts(&["one", "two", "four"]));
}

#[test]
fn reply_without_either_array_is_empty() {
    assert_eq!(interpret(200, "{}").unwrap(), Vec::<String>::new());
    assert_eq!(interpret(200, "null").unwrap(), Vec::<String>::new());
    assert_eq!(interpret(200, "[1,2]").unwrap(), Vec::<String>::new());
    assert_eq!(interpret(503, r#"{"choices":{"message":"x"},"output":"y"}"#).unwrap(), Vec::<String>::new());
}

#[test]
fn choices_array_selects_the_chat_layout() {
    let body = r#"{"choices":[{"message":{"content":"chat"}}],"output":[{"content":[{"text":"structured"}]}]}"#;
    assert_eq!(interpret(200, body).unwrap(), texts(&["chat"]));
    let body = r#"{"choices":null,"output":[{"content":[{"text":"structured"}]}]}"#;
    assert_eq!(interpret(200, body).unwrap(), texts(&["structured"]));
}

#[test]
fn status_is_success_from_200_to_299() {
    assert!(!is_success(199));
    assert!(is_success(200));
    assert!(is_success(299));
    assert!(!is_success(300));
    assert!(!is_success(0));
    assert!(!is_success(429));
}

#[test]
fn interpreting_a_built_document() {
    let doc = Json::object(vec![asimov_openai_module::Member::new(
        "choices",
        Json::array(vec![Json::object(vec![asimov_openai_module::Member::new(
            "message",
            Json::object(vec![
                asimov_openai_module::Member::new("role", Json::text("assistant")),
                asimov_openai_module::Member::new("content", Json::text("hello")),
            ]),
        )])]),
    )]);
    assert_eq!(interpret_document(200, &doc).unwrap(), texts(&["hello"]));
    assert_eq!(interpret_parsed(200, Some(doc)).unwrap(), texts(&["hello"]));
    assert!(matches!(interpret_parsed(200, None), Err(Error::MalformedResponse)));
}

#[test]
fn concluding_an_exchange() {
    let reply = Reply { status: 200, body: CHAT_HELLO.to_string() };
    let conclusion = conclude(Exchange::Completed(reply));
    assert_eq!(conclusion.result.unwrap(), texts(&["hello"]));
    assert_eq!(conclusion.refusals, Vec::<String>::new());
    let conclusion = conclude(Exchange::Failed("connection refused".to_string()));
    match conclusion.result {
        Err(Error::Transport(detail)) => assert_eq!(detail, "connection refused"),
        other => panic!("unexpected: {:?}", other),
    }
    assert_eq!(conclusion.refusals, Vec::<String>::new());
    let conclusion = conclude(Exchange::Unreadable);
    assert!(matches!(conclusion.result, Err(Error::MalformedResponse)));
    assert_eq!(conclusion.refusals, Vec::<String>::new());
    let reply = Reply { status: 502, body: "<html>".to_string() };
    let conclusion = conclude(Exchange::Completed(reply));
    assert!(matches!(conclusion.result, Err(Error::MalformedResponse)));
    assert_eq!(conclusion.refusals, Vec::<String>::new());
}

#[test]
fn refusals_are_reported_only_where_the_call_succeeds() {
    let body = r#"{"error":{"message":"quota exceeded"},"choices":[
        {"message":{"role":"assistant","refusal":"policy"}},
        {"message":{"role":"assistant","content":"fine"}}
    ]}"#;
    let conclusion = conclude(Exchange::Completed(Reply { status: 200, body: body.to_string() }));
    assert_eq!(conclusion.result.unwrap(), texts(&["fine"]));
    assert_eq!(conclusion.refusals, texts(&["policy"]));
    let conclusion = conclude(Exchange::Completed(Reply { status: 429, body: body.to_string() }));
    assert!(matches!(conclusion.result, Err(Error::Upstream(m)) if m == "quota exceeded"));
    assert_eq!(conclusion.refusals, Vec::<String>::new());
    let doc = Json::parse(body).unwrap();
    assert_eq!(refusals_to_report(200, &doc), texts(&["policy"]));
    assert_eq!(refusals_to_report(429, &doc), Vec::<String>::new());
    let plain = Json::parse(r#"{"choices":[{"message":{"refusal":"policy"}}]}"#).unwrap();
    assert_eq!(refusals_to_report(500, &plain), texts(&["policy"]));
}

#[test]
fn error_descriptions() {
    assert_eq!(Error::Upstream("quota exceeded".to_string()).description(), "quota exceeded");
    assert_eq!(
        Error::Transport("timeout".to_string()).description(),
        "HTTP request failed: timeout"
    );
    assert_eq!(Error::MalformedResponse.description(), "unable to read HTTP response body");
}
