use adaptive_reasoner::config::ModelConfig;
use adaptive_reasoner::consts::{THINK_END, THINK_START};
use adaptive_reasoner::errors::ReasonerError;
use adaptive_reasoner::llm_request::{
    build_answer_request, build_reasoning_request, validate_chat_request,
};
use adaptive_reasoner::models::request::{
    ChatCompletionCreate, Message, MessageAssistant, MessageContent, MessageContentPart,
    MessageSystemUser, MessageTool, StreamOptions, ToolChoice,
};
use adaptive_reasoner::models::Usage;
use adaptive_reasoner::test_utils::assertions::assert_usage;
use adaptive_reasoner::test_utils::helpers::{
    create_assistant_last_request, create_empty_messages_request, create_test_chat_request,
    create_test_config_with_model, create_test_model_config, create_test_model_config_with_extra,
};
use std::collections::HashMap;

fn user(text: &str) -> Message {
    Message::User(MessageSystemUser {
        content: MessageContent::String(text.to_string()),
    })
}

fn request_with(messages: Vec<Message>, max_tokens: Option<i32>) -> ChatCompletionCreate {
    ChatCompletionCreate {
        model: "test".to_string(),
        messages,
        max_tokens,
        stop: None,
        stream: None,
        stream_options: None,
        tools: None,
        tool_choice: None,
        extra: Default::default(),
    }
}

fn route() -> ModelConfig {
    ModelConfig {
        model_name: "upstream-model".to_string(),
        api_url: "http://test.com".to_string(),
        api_key: "test-key".to_string(),
        reasoning_budget: 100,
        extra: None,
    }
}

#[test]
fn test_validate_chat_request_valid() {
    let request = request_with(vec![user("Hello")], None);
    assert!(validate_chat_request(&request).is_ok());
}

#[test]
fn test_validate_chat_request_empty_messages() {
    let request = request_with(vec![], None);
    let result = validate_chat_request(&request);
    assert!(result.is_err());
    match result.unwrap_err() {
        ReasonerError::ValidationError(msg) => {
            assert!(msg.contains("empty messages"));
        }
        _ => panic!("Expected ValidationError"),
    }
}

#[test]
fn test_validate_chat_request_assistant_last() {
    let request = request_with(
        vec![
            user("Hello"),
            Message::Assistant(MessageAssistant {
                reasoning_content: None,
                content: Some("Hi".to_string()),
                tool_calls: None,
            }),
        ],
        None,
    );
    let result = validate_chat_request(&request);
    assert!(result.is_err());
    match result.unwrap_err() {
        ReasonerError::ValidationError(msg) => {
            assert!(msg.contains("cannot process partial assistant"));
        }
        _ => panic!("Expected ValidationError"),
    }
}

#[test]
fn test_build_reasoning_request() {
    let client_request = request_with(vec![user("Hello")], Some(1000));
    let model_config = route();

    let reasoning_request = build_reasoning_request(client_request, &model_config);

    assert_eq!(reasoning_request.model, "upstream-model");
    assert_eq!(reasoning_request.max_tokens, Some(100));
    assert_eq!(reasoning_request.stop, Some(vec![THINK_END.to_string()]));
    assert_eq!(reasoning_request.messages.len(), 2);
    match &reasoning_request.messages[1] {
        Message::Assistant(msg) => {
            assert_eq!(msg.content, Some(THINK_START.to_string()));
        }
        _ => panic!("Expected Assistant message"),
    }
}

#[test]
fn test_build_answer_request() {
    let client_request = request_with(vec![user("Hello")], Some(1000));
    let model_config = route();

    let reasoning_text = "Let me think about this";
    let answer_request = build_answer_request(client_request, &model_config, reasoning_text, 500);

    assert_eq!(answer_request.model, "upstream-model");
    assert_eq!(answer_request.max_tokens, Some(500));
    assert_eq!(answer_request.messages.len(), 2);
    match &answer_request.messages[1] {
        Message::Assistant(msg) => {
            let expected = format!("{}{}{}", THINK_START, reasoning_text, THINK_END);
            assert_eq!(msg.content, Some(expected));
        }
        _ => panic!("Expected Assistant message"),
    }
}

#[test]
fn validation_accepts_every_role_but_assistant_at_the_end() {
    let assistant = || {
        Message::Assistant(MessageAssistant {
            reasoning_content: None,
            content: None,
            tool_calls: None,
        })
    };
    let system = Message::System(MessageSystemUser {
        content: MessageContent::Array(vec![MessageContentPart::Text {
            text: "be brief".to_string(),
        }]),
    });
    let tool = Message::Tool(MessageTool {
        tool_call_id: "call_1".to_string(),
        content: MessageContent::String("42".to_string()),
    });
    assert!(validate_chat_request(&request_with(vec![system], None)).is_ok());
    assert!(validate_chat_request(&request_with(vec![assistant(), tool], None)).is_ok());
    assert!(validate_chat_request(&request_with(vec![assistant(), user("go on")], None)).is_ok());
    assert!(validate_chat_request(&request_with(vec![assistant()], None)).is_err());
    assert!(validate_chat_request(&request_with(vec![user("a"), assistant()], None)).is_err());
}

#[test]
fn validation_messages_are_exact() {
    match validate_chat_request(&create_empty_messages_request()) {
        Err(ReasonerError::ValidationError(m)) => assert_eq!(m, "error: empty messages"),
        _ => panic!("Expected ValidationError"),
    }
    match validate_chat_request(&create_assistant_last_request()) {
        Err(ReasonerError::ValidationError(m)) => assert_eq!(
            m,
            "error: cannot process partial assistant response content in messages yet!"
        ),
        _ => panic!("Expected ValidationError"),
    }
}

#[test]
fn phase_requests_carry_the_rest_over() {
    let mut request = request_with(vec![user("a"), user("b")], Some(7));
    request.stop = Some(vec!["END".to_string()]);
    request.stream = Some(true);
    request.stream_options = Some(StreamOptions {
        include_usage: Some(false),
    });
    request.tools = Some(vec![serde_json::Value::String("tool".to_string())]);
    request.tool_choice = Some(ToolChoice::Required);
    request
        .extra
        .insert("temperature".to_string(), serde_json::Value::Bool(true));

    let reasoning = build_reasoning_request(request.clone(), &route());
    assert_eq!(reasoning.messages.len(), 3);
    assert!(matches!(&reasoning.messages[0], Message::User(u)
        if matches!(&u.content, MessageContent::String(s) if s == "a")));
    assert!(matches!(&reasoning.messages[1], Message::User(u)
        if matches!(&u.content, MessageContent::String(s) if s == "b")));
    assert_eq!(reasoning.stop, Some(vec!["</think>".to_string()]));
    assert_eq!(reasoning.stream, Some(true));
    assert_eq!(reasoning.tools, request.tools);
    assert_eq!(reasoning.tool_choice, Some(ToolChoice::Required));
    assert_eq!(reasoning.extra, request.extra);
    assert_eq!(
        reasoning.stream_options.as_ref().unwrap().include_usage,
        Some(false)
    );
    match &reasoning.messages[2] {
        Message::Assistant(a) => {
            assert_eq!(a.content.as_deref(), Some("<think>"));
            assert!(a.reasoning_content.is_none());
            assert!(a.tool_calls.is_none());
        }
        _ => panic!("Expected Assistant message"),
    }

    let answer = build_answer_request(request.clone(), &route(), "so", 3);
    assert_eq!(answer.stop, Some(vec!["END".to_string()]));
    assert_eq!(answer.max_tokens, Some(3));
    assert_eq!(answer.extra, request.extra);
    match &answer.messages[2] {
        Message::Assistant(a) => assert_eq!(a.content.as_deref(), Some("<think>so</think>")),
        _ => panic!("Expected Assistant message"),
    }
}

#[test]
fn sample_requests_are_as_described() {
    let r = create_test_chat_request("m", "hi");
    assert_eq!(r.model, "m");
    assert_eq!(r.max_tokens, Some(1000));
    assert_eq!(r.messages.len(), 1);
    assert!(matches!(&r.messages[0], Message::User(u)
        if matches!(&u.content, MessageContent::String(s) if s == "hi")));
    assert!(r.extra.is_empty());
    assert!(validate_chat_request(&r).is_ok());

    let e = create_empty_messages_request();
    assert_eq!(e.model, "test-model");
    assert_eq!(e.max_tokens, Some(100));
    assert!(e.messages.is_empty());

    let a = create_assistant_last_request();
    assert_eq!(a.messages.len(), 2);
    assert!(matches!(&a.messages[1], Message::Assistant(m)
        if m.content.as_deref() == Some("I'm doing well")));
}

#[test]
fn sample_routes_are_as_described() {
    let c = create_test_model_config("u".to_string(), "http://x".to_string(), "k".to_string(), 9);
    assert_eq!(c.model_name, "u");
    assert_eq!(c.api_url, "http://x");
    assert_eq!(c.api_key, "k");
    assert_eq!(c.reasoning_budget, 9);
    assert!(c.extra.is_none());

    let mut extra = HashMap::new();
    extra.insert("top_p".to_string(), serde_json::Value::Bool(false));
    let c = create_test_model_config_with_extra(
        "u".to_string(),
        "http://x".to_string(),
        "k".to_string(),
        9,
        extra.clone(),
    );
    assert_eq!(c.extra, Some(extra));

    let table =
        create_test_config_with_model("u".to_string(), "http://x".to_string(), "k".to_string(), 9);
    assert_eq!(table.models.len(), 1);
    assert_eq!(table.models[0].name, "u");
    assert_eq!(table.find(&"u".to_string()).unwrap().reasoning_budget, 9);
}

#[test]
fn usage_check_compares_all_three_counts() {
    let usage = Usage {
        prompt_tokens: 10,
        completion_tokens: 80,
        total_tokens: 90,
    };
    assert!(assert_usage(&usage, 10, 80, 90));
    assert!(!assert_usage(&usage, 11, 80, 90));
    assert!(!assert_usage(&usage, 10, 81, 90));
    assert!(!assert_usage(&usage, 10, 80, 91));
}
