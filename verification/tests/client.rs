use adaptive_reasoner::errors::ReasonerError;
use adaptive_reasoner::llm_client::{content_type_verdict, essence_text, ContentKind, LLMClient};
use adaptive_reasoner::test_utils::helpers::create_test_chat_request;
use std::collections::HashMap;

#[test]
fn the_call_names_url_and_bearer_token() {
    let client = LLMClient::new("http://upstream/v1", "secret", &None);
    let call = client.prepare(create_test_chat_request("m", "hi"));
    assert_eq!(call.url, "http://upstream/v1/chat/completions");
    assert_eq!(call.authorization, "Bearer secret");
    assert_eq!(call.body.model, "m");
    assert_eq!(call.body.messages.len(), 1);
    assert_eq!(call.body.max_tokens, Some(1000));
    assert!(call.body.extra.is_empty());
}

#[test]
fn the_extra_fields_of_the_route_are_merged_into_those_of_the_request() {
    let mut extra = HashMap::new();
    extra.insert("top_k".to_string(), serde_json::Value::Bool(true));
    let client = LLMClient::new("http://u", "k", &Some(extra.clone()));
    assert_eq!(client.extra_body, Some(extra.clone()));

    let mut request = create_test_chat_request("m", "hi");
    request
        .extra
        .insert("seed".to_string(), serde_json::Value::Bool(false));
    request
        .extra
        .insert("top_k".to_string(), serde_json::Value::Bool(false));
    let call = client.prepare(request.clone());
    let mut merged = HashMap::new();
    merged.insert("seed".to_string(), serde_json::Value::Bool(false));
    merged.insert("top_k".to_string(), serde_json::Value::Bool(true));
    assert_eq!(call.body.extra, merged);

    let call = client.prepare(create_test_chat_request("m", "hi"));
    assert_eq!(call.body.extra, extra);

    let plain = LLMClient::new("http://u", "k", &None);
    let call = plain.prepare(request.clone());
    assert_eq!(call.body.extra, request.extra);
}

#[test]
fn only_the_two_hundreds_are_a_success() {
    assert!(!LLMClient::is_success(199));
    assert!(LLMClient::is_success(200));
    assert!(LLMClient::is_success(204));
    assert!(LLMClient::is_success(299));
    assert!(!LLMClient::is_success(300));
    assert!(!LLMClient::is_success(401));
    assert!(!LLMClient::is_success(500));
    assert!(!LLMClient::is_success(0));
}

#[test]
fn a_failed_status_is_an_api_error_with_status_and_body() {
    let e = LLMClient::status_error("500 Internal Server Error", "{\"error\":1}");
    match e {
        ReasonerError::ApiError(m) => {
            assert_eq!(m, "error: status 500 Internal Server Error, text {\"error\":1}");
            assert!(m.contains("status 500"));
        }
        _ => panic!("Expected ApiError variant"),
    }
}

#[test]
fn the_content_type_is_judged_by_its_essence() {
    assert!(LLMClient::check_content_type("application/json", ContentKind::Json).is_ok());
    assert!(
        LLMClient::check_content_type("application/json; charset=utf-8", ContentKind::Json).is_ok()
    );
    assert!(LLMClient::check_content_type("Application/JSON", ContentKind::Json).is_ok());
    assert!(LLMClient::check_content_type("text/event-stream", ContentKind::EventStream).is_ok());
    assert!(LLMClient::check_content_type(
        "text/event-stream;charset=UTF-8",
        ContentKind::EventStream
    )
    .is_ok());
}

#[test]
fn another_content_type_is_a_parse_error() {
    match LLMClient::check_content_type("text/event-stream", ContentKind::Json) {
        Err(ReasonerError::ParseError(m)) => {
            assert_eq!(m, "content-type: text/event-stream, expected: application/json")
        }
        _ => panic!("Expected ParseError variant"),
    }
    match LLMClient::check_content_type("application/json; charset=utf-8", ContentKind::EventStream)
    {
        Err(ReasonerError::ParseError(m)) => assert_eq!(
            m,
            "content-type: application/json; charset=utf-8, expected: text/event-stream"
        ),
        _ => panic!("Expected ParseError variant"),
    }
}

#[test]
fn a_value_that_is_no_media_type_is_a_parse_error() {
    for header in ["", "json", "/", "a b/c", "application/json; charset"] {
        match LLMClient::check_content_type(header, ContentKind::Json) {
            Err(ReasonerError::ParseError(m)) => {
                assert!(m.starts_with("mime parse error: "), "{}", m)
            }
            _ => panic!("Expected ParseError variant"),
        }
    }
}

#[test]
fn the_verdict_follows_the_parsed_parts() {
    let ok = Ok(("application/json".to_string(), "application/json; a=b".to_string()));
    assert!(content_type_verdict(ok.clone(), ContentKind::Json).is_ok());
    match content_type_verdict(ok, ContentKind::EventStream) {
        Err(ReasonerError::ParseError(m)) => {
            assert_eq!(m, "content-type: application/json; a=b, expected: text/event-stream")
        }
        _ => panic!("Expected ParseError variant"),
    }
    match content_type_verdict(Err("mime parse error".to_string()), ContentKind::Json) {
        Err(ReasonerError::ParseError(m)) => assert_eq!(m, "mime parse error"),
        _ => panic!("Expected ParseError variant"),
    }
    assert_eq!(essence_text(ContentKind::Json), "application/json");
    assert_eq!(essence_text(ContentKind::EventStream), "text/event-stream");
}
