use asimov_openai_module::request::decimal_string;
use asimov_openai_module::{
    build_body, build_request, interpret, ApiVariant, Credential, Json, Options,
};

fn options(variant: ApiVariant, max_tokens: Option<usize>) -> Options {
    Options {
        endpoint: "https://example.test".to_string(),
        model: "gpt-test".to_string(),
        max_tokens,
        api_key: Credential::new("sk-test"),
        variant,
    }
}

fn number_at(doc: &Json, key: &str) -> Option<String> {
    match doc.member(key) {
        Some(Json::Number(digits)) => Some(digits.clone()),
        _ => None,
    }
}

fn member_names(doc: &Json) -> Vec<String> {
    match doc {
        Json::Object(members) => members.iter().map(|m| m.name.clone()).collect(),
        _ => panic!("no object"),
    }
}

#[test]
fn builder_fills_in_the_defaults() {
    let options = Options::builder().api_key("sk-test").build();
    assert_eq!(options.endpoint, "https://api.openai.com");
    assert_eq!(options.model, "gpt-5-mini");
    assert_eq!(options.max_tokens, None);
    assert_eq!(options.api_key.expose(), "sk-test");
    assert_eq!(options.variant, ApiVariant::ChatCompletions);
}

#[test]
fn builder_keeps_what_was_set() {
    let options = Options::builder()
        .endpoint("http://localhost:8080")
        .model("gpt-4.1")
        .max_tokens(64)
        .api_key("secret")
        .variant(ApiVariant::Responses)
        .build();
    assert_eq!(options.endpoint, "http://localhost:8080");
    assert_eq!(options.model, "gpt-4.1");
    assert_eq!(options.max_tokens, Some(64));
    assert_eq!(options.api_key.expose(), "secret");
    assert_eq!(options.variant, ApiVariant::Responses);
}

#[test]
fn chat_request_is_fully_described() {
    let request = build_request("Say hi", &options(ApiVariant::ChatCompletions, None));
    assert_eq!(request.url, "https://example.test/v1/chat/completions");
    let headers: Vec<(&str, &str)> =
        request.headers.iter().map(|h| (h.name.as_str(), h.value.as_str())).collect();
    assert_eq!(
        headers,
        vec![
            ("Authorization", "Bearer sk-test"),
            ("content-type", "application/json"),
            ("user-agent", "asimov-openai-module"),
        ]
    );
    assert_eq!(member_names(&request.body), vec!["model", "messages"]);
    assert_eq!(request.body.text_at("model").unwrap(), "gpt-test");
    let messages = request.body.items_at("messages").unwrap();
    assert_eq!(messages.len(), 1);
    assert_eq!(member_names(&messages[0]), vec!["role", "content"]);
    assert_eq!(messages[0].text_at("role").unwrap(), "user");
    assert_eq!(messages[0].text_at("content").unwrap(), "Say hi");
}

#[test]
fn structured_request_is_fully_described() {
    let request = build_request("Say hi", &options(ApiVariant::Responses, Some(256)));
    assert_eq!(request.url, "https://example.test/v1/responses");
    assert_eq!(member_names(&request.body), vec!["model", "input", "max_output_tokens"]);
    assert_eq!(request.body.text_at("model").unwrap(), "gpt-test");
    assert_eq!(request.body.text_at("input").unwrap(), "Say hi");
    assert_eq!(number_at(&request.body, "max_output_tokens").unwrap(), "256");
}

#[test]
fn budget_goes_under_the_layout_s_key_in_decimal() {
    let chat = build_body(ApiVariant::ChatCompletions, "m", "x", Some(1024));
    assert_eq!(member_names(&chat), vec!["model", "messages", "max_completion_tokens"]);
    assert_eq!(number_at(&chat, "max_completion_tokens").unwrap(), "1024");
    assert!(chat.member("max_output_tokens").is_none());
    let zero = build_body(ApiVariant::Responses, "m", "x", Some(0));
    assert_eq!(number_at(&zero, "max_output_tokens").unwrap(), "0");
    let nine = build_body(ApiVariant::Responses, "m", "x", Some(9));
    assert_eq!(number_at(&nine, "max_output_tokens").unwrap(), "9");
    let ten = build_body(ApiVariant::Responses, "m", "x", Some(10));
    assert_eq!(number_at(&ten, "max_output_tokens").unwrap(), "10");
    let large = build_body(ApiVariant::Responses, "m", "x", Some(4294967295));
    assert_eq!(number_at(&large, "max_output_tokens").unwrap(), "4294967295");
    let none = build_body(ApiVariant::Responses, "m", "x", None);
    assert_eq!(member_names(&none), vec!["model", "input"]);
}

#[test]
fn numbers_are_written_in_decimal() {
    assert_eq!(decimal_string(0), "0");
    assert_eq!(decimal_string(7), "7");
    assert_eq!(decimal_string(10), "10");
    assert_eq!(decimal_string(109), "109");
    assert_eq!(decimal_string(1234567890), "1234567890");
    assert_eq!(decimal_string(usize::MAX), usize::MAX.to_string());
    for n in 0..2000usize {
        assert_eq!(decimal_string(n), n.to_string());
    }
}

#[test]
fn credential_stays_out_of_url_and_body() {
    let request = build_request("prompt", &options(ApiVariant::ChatCompletions, Some(5)));
    assert!(!request.url.contains("sk-test"));
    assert!(!format!("{:?}", request.body).contains("sk-test"));
    let carrying: Vec<&str> = request
        .headers
        .iter()
        .filter(|h| h.value.contains("sk-test"))
        .map(|h| h.name.as_str())
        .collect();
    assert_eq!(carrying, vec!["Authorization"]);
}

#[test]
fn echoed_body_keeps_model_and_input() {
    let input = "Tell me a \"story\"\nwith two lines \u{1F600}";
    for variant in [ApiVariant::ChatCompletions, ApiVariant::Responses] {
        for budget in [None, Some(77usize)] {
            let body = build_body(variant, "gpt-5-mini", input, budget);
            assert_eq!(body.text_at("model").unwrap(), "gpt-5-mini");
            match variant {
                ApiVariant::ChatCompletions => {
                    let messages = body.items_at("messages").unwrap();
                    assert_eq!(messages.len(), 1);
                    assert_eq!(messages[0].text_at("content").unwrap(), input);
                }
                ApiVariant::Responses => {
                    assert_eq!(body.text_at("input").unwrap(), input);
                }
            }
        }
    }
}

#[test]
fn echoed_request_text_parses_to_nothing_generated() {
    let echoed = r#"{"model":"gpt-test","messages":[{"role":"user","content":"Say hi"}]}"#;
    let doc = Json::parse(echoed).unwrap();
    assert_eq!(doc.text_at("model").unwrap(), "gpt-test");
    assert_eq!(doc.items_at("messages").unwrap()[0].text_at("content").unwrap(), "Say hi");
    assert_eq!(interpret(200, echoed).unwrap(), Vec::<String>::new());
}
