use adaptive_reasoner::config::ModelConfig;
use adaptive_reasoner::consts::REASONING_CUTOFF_STUB;
use adaptive_reasoner::errors::ReasonerError;
use adaptive_reasoner::models::request::{
    ChatCompletionCreate, Message, MessageAssistant, MessageContent, MessageSystemUser,
};
use adaptive_reasoner::models::response_direct::{ChatCompletion, Choice};
use adaptive_reasoner::models::{FinishReason, RenderingMode, Usage};
use adaptive_reasoner::service::{ReasoningDecision, ReasoningResult, ReasoningService};
use adaptive_reasoner::test_utils::assertions::{
    assert_chat_completion_response, assert_choice_structure, assert_usage,
};

fn sample_request(max_tokens: Option<i32>) -> ChatCompletionCreate {
    ChatCompletionCreate {
        model: "m".to_string(),
        messages: vec![Message::User(MessageSystemUser {
            content: MessageContent::String("Hello, how are you?".to_string()),
        })],
        max_tokens,
        stop: None,
        stream: None,
        stream_options: None,
        tools: None,
        tool_choice: None,
        extra: Default::default(),
    }
}

fn route() -> ModelConfig {
    ModelConfig {
        model_name: "test-model".to_string(),
        api_url: "http://localhost:8081".to_string(),
        api_key: "test-key".to_string(),
        reasoning_budget: 100,
        extra: None,
    }
}

fn response(
    id: &str,
    content: Option<&str>,
    finish_reason: FinishReason,
    prompt: i32,
    completion: i32,
) -> ChatCompletion {
    ChatCompletion {
        id: id.to_string(),
        object: "chat.completion".to_string(),
        created: 1234567890,
        model: "test-model".to_string(),
        choices: vec![Choice {
            index: 0,
            message: MessageAssistant {
                reasoning_content: None,
                content: content.map(|c| c.to_string()),
                tool_calls: None,
            },
            logprobs: None,
            finish_reason,
        }],
        usage: Usage {
            prompt_tokens: prompt,
            completion_tokens: completion,
            total_tokens: prompt + completion,
        },
    }
}

fn expect_answer(decision: ReasoningDecision) -> (ChatCompletionCreate, ReasoningResult) {
    match decision {
        ReasoningDecision::Answer { request, result } => (request, result),
        ReasoningDecision::Finish(_) => panic!("Expected the answer phase"),
    }
}

fn last_content(request: &ChatCompletionCreate) -> String {
    match request.messages.last() {
        Some(Message::Assistant(a)) => a.content.clone().unwrap(),
        _ => panic!("Expected Assistant message"),
    }
}

#[test]
fn two_phases_give_one_completion() {
    let service = ReasoningService::new(RenderingMode::InlineMarkers);
    let request = sample_request(Some(100));

    let reasoning_request = service.begin(request.clone(), &route()).unwrap();
    assert_eq!(reasoning_request.model, "test-model");
    assert_eq!(reasoning_request.max_tokens, Some(100));
    assert_eq!(last_content(&reasoning_request), "<think>");

    let reasoning = response("chatcmpl-test-1", Some("Let me think..."), FinishReason::Stop, 10, 50);
    let decision = service.after_reasoning(request, &route(), reasoning).unwrap();
    let (answer_request, result) = expect_answer(decision);
    assert_eq!(answer_request.model, "test-model");
    assert_eq!(answer_request.max_tokens, Some(50));
    assert_eq!(answer_request.messages.len(), 2);
    assert_eq!(last_content(&answer_request), "<think>Let me think...</think>");

    let answer = response("chatcmpl-test-2", Some("I'm doing great!"), FinishReason::Stop, 10, 30);
    let completion = service.after_answer(result, answer).unwrap();
    assert_eq!(completion.id, "chatcmpl-test-1");
    assert_eq!(completion.object, "chat.completion");
    assert_eq!(completion.created, 1234567890);
    assert_eq!(completion.model, "m");
    assert_eq!(completion.choices.len(), 1);
    let choice = &completion.choices[0];
    assert_eq!(choice.index, 0);
    assert_eq!(choice.finish_reason, FinishReason::Stop);
    assert!(choice.logprobs.is_none());
    assert!(choice.message.tool_calls.is_none());
    assert!(choice.message.reasoning_content.is_none());
    let content = choice.message.content.as_deref().unwrap();
    assert!(content.contains("Let me think..."));
    assert!(content.contains("I'm doing great!"));
    assert_eq!(content, "<think>\nLet me think...\n</think>\nI'm doing great!");
    assert!(assert_usage(&completion.usage, 10, 80, 90));
    assert!(assert_choice_structure(choice, 0, content));
    assert!(assert_chat_completion_response(&completion, "m", content));
    assert!(!assert_chat_completion_response(&completion, "test-model", content));
}

#[test]
fn the_trace_may_stand_in_a_field_of_its_own() {
    let service = ReasoningService::new(RenderingMode::SeparateField);
    let request = sample_request(Some(1000));
    let reasoning = response("r", Some("  Let me think...  \n"), FinishReason::Stop, 10, 200);
    let (answer_request, result) =
        expect_answer(service.after_reasoning(request, &route(), reasoning).unwrap());
    assert_eq!(answer_request.max_tokens, Some(800));
    assert_eq!(result.reasoning_text, "Let me think...");
    let answer = response("a", Some("Fine."), FinishReason::Stop, 99, 30);
    let completion = service.after_answer(result, answer).unwrap();
    let message = &completion.choices[0].message;
    assert_eq!(message.reasoning_content.as_deref(), Some("Let me think..."));
    assert_eq!(message.content.as_deref(), Some("Fine."));
}

#[test]
fn the_prompt_count_of_the_answer_phase_is_discarded() {
    let service = ReasoningService::new(RenderingMode::SeparateField);
    let reasoning = response("r", Some("Reasoning"), FinishReason::Stop, 15, 25);
    let (_, result) = expect_answer(
        service
            .after_reasoning(sample_request(None), &route(), reasoning)
            .unwrap(),
    );
    let answer = response("a", Some("Answer"), FinishReason::Stop, 40, 10);
    let completion = service.after_answer(result, answer).unwrap();
    assert!(assert_usage(&completion.usage, 15, 35, 50));
    assert_eq!(Usage::merge(10, 50, 30), Usage { prompt_tokens: 10, completion_tokens: 80, total_tokens: 90 });
    assert_eq!(Usage::checked_merge(10, 50, 30), Some(Usage::merge(10, 50, 30)));
    assert_eq!(Usage::checked_merge(1, i32::MAX, 0), None);
    assert_eq!(Usage::checked_merge(0, i32::MAX, 1), None);
}

#[test]
fn without_tokens_left_the_answer_phase_is_skipped() {
    let service = ReasoningService::new(RenderingMode::SeparateField);
    let reasoning = response("chatcmpl-length-reason", Some("Reasoning"), FinishReason::Length, 10, 150);
    let decision = service
        .after_reasoning(sample_request(Some(100)), &route(), reasoning)
        .unwrap();
    let completion = match decision {
        ReasoningDecision::Finish(c) => c,
        ReasoningDecision::Answer { .. } => panic!("Expected no answer phase"),
    };
    assert_eq!(completion.id, "chatcmpl-length-reason");
    assert_eq!(completion.model, "m");
    assert_eq!(completion.choices.len(), 1);
    let choice = &completion.choices[0];
    assert_eq!(choice.finish_reason, FinishReason::Length);
    assert_eq!(choice.message.content.as_deref(), Some(""));
    assert_eq!(choice.message.reasoning_content.as_deref(), Some("Reasoning"));
    assert!(choice.message.tool_calls.is_none());
    assert!(assert_usage(&completion.usage, 10, 150, 160));
}

#[test]
fn the_answer_phase_runs_only_while_a_token_is_left() {
    let service = ReasoningService::new(RenderingMode::SeparateField);
    let at = |max: i32, spent: i32| {
        let reasoning = response("r", Some("x"), FinishReason::Stop, 1, spent);
        service
            .after_reasoning(sample_request(Some(max)), &route(), reasoning)
            .unwrap()
    };
    assert!(matches!(at(100, 99), ReasoningDecision::Answer { ref request, .. }
        if request.max_tokens == Some(1)));
    assert!(matches!(at(100, 100), ReasoningDecision::Finish(_)));
    assert!(matches!(at(100, 101), ReasoningDecision::Finish(_)));
    assert!(matches!(at(0, 0), ReasoningDecision::Finish(_)));
    let reasoning = response("r", Some("x"), FinishReason::Stop, 1, 24);
    let decision = service
        .after_reasoning(sample_request(None), &route(), reasoning)
        .unwrap();
    assert!(matches!(decision, ReasoningDecision::Answer { ref request, .. }
        if request.max_tokens == Some(1024 * 1024 - 24)));
}

#[test]
fn a_trace_that_was_cut_gets_the_notice_once() {
    let service = ReasoningService::new(RenderingMode::InlineMarkers);
    let reasoning = response("r", Some("Let me think"), FinishReason::Length, 10, 50);
    let (answer_request, result) = expect_answer(
        service
            .after_reasoning(sample_request(Some(150)), &route(), reasoning)
            .unwrap(),
    );
    let expected = format!("Let me think{}", REASONING_CUTOFF_STUB);
    assert_eq!(result.reasoning_text, expected);
    assert_eq!(last_content(&answer_request), format!("<think>{}</think>", expected));
    let answer = response("a", Some("Done."), FinishReason::Length, 10, 50);
    let completion = service.after_answer(result, answer).unwrap();
    assert_eq!(completion.choices[0].finish_reason, FinishReason::Length);
    let content = completion.choices[0].message.content.as_deref().unwrap();
    assert!(content.contains("Right, this is taking too long"));
    assert_eq!(content.matches(REASONING_CUTOFF_STUB).count(), 1);
    assert_eq!(content, format!("<think>\n{}\n</think>\nDone.", expected));
}

#[test]
fn a_trace_that_ended_of_itself_gets_no_notice() {
    let service = ReasoningService::new(RenderingMode::InlineMarkers);
    for finish in [FinishReason::Stop, FinishReason::ToolCalls] {
        let reasoning = response("r", Some("ok"), finish, 10, 50);
        let (_, result) = expect_answer(
            service
                .after_reasoning(sample_request(Some(150)), &route(), reasoning)
                .unwrap(),
        );
        assert_eq!(result.reasoning_text, "ok");
    }
}

#[test]
fn a_trace_without_content_is_empty() {
    let service = ReasoningService::new(RenderingMode::InlineMarkers);
    let reasoning = response("r", None, FinishReason::Stop, 10, 5);
    let (answer_request, result) = expect_answer(
        service
            .after_reasoning(sample_request(Some(100)), &route(), reasoning)
            .unwrap(),
    );
    assert_eq!(result.reasoning_text, "");
    assert_eq!(last_content(&answer_request), "<think></think>");
    let answer = response("a", None, FinishReason::Stop, 10, 5);
    let completion = service.after_answer(result, answer).unwrap();
    assert_eq!(
        completion.choices[0].message.content.as_deref(),
        Some("<think>\n\n</think>\n")
    );
}

#[test]
fn a_response_without_choices_is_an_api_error() {
    let service = ReasoningService::new(RenderingMode::SeparateField);
    let mut reasoning = response("r", Some("x"), FinishReason::Stop, 10, 5);
    reasoning.choices.clear();
    match service.after_reasoning(sample_request(Some(100)), &route(), reasoning) {
        Err(ReasonerError::ApiError(m)) => assert_eq!(m, "error: no choices in response"),
        _ => panic!("Expected ApiError variant"),
    }
    let reasoning = response("r", Some("x"), FinishReason::Stop, 10, 5);
    let (_, result) = expect_answer(
        service
            .after_reasoning(sample_request(Some(100)), &route(), reasoning)
            .unwrap(),
    );
    let mut answer = response("a", Some("y"), FinishReason::Stop, 10, 5);
    answer.choices.clear();
    assert!(matches!(
        service.after_answer(result, answer),
        Err(ReasonerError::ApiError(_))
    ));
}

#[test]
fn a_request_that_cannot_be_served_starts_no_phase() {
    let service = ReasoningService::new(RenderingMode::SeparateField);
    let mut request = sample_request(Some(100));
    request.messages.clear();
    assert!(matches!(
        service.begin(request, &route()),
        Err(ReasonerError::ValidationError(_))
    ));
    let mut request = sample_request(Some(100));
    request.messages.push(Message::Assistant(MessageAssistant {
        reasoning_content: None,
        content: Some("Hi there".to_string()),
        tool_calls: None,
    }));
    assert!(matches!(
        service.begin(request, &route()),
        Err(ReasonerError::ValidationError(_))
    ));
}

#[test]
fn the_tool_calls_of_the_answer_pass_through() {
    let service = ReasoningService::new(RenderingMode::SeparateField);
    let reasoning = response("r", Some("x"), FinishReason::Stop, 10, 5);
    let (_, result) = expect_answer(
        service
            .after_reasoning(sample_request(Some(100)), &route(), reasoning)
            .unwrap(),
    );
    let call = serde_json::Value::String("call_123".to_string());
    let mut answer = response("a", None, FinishReason::ToolCalls, 10, 5);
    answer.choices[0].message.tool_calls = Some(vec![call.clone()]);
    let completion = service.after_answer(result, answer).unwrap();
    assert_eq!(completion.choices[0].finish_reason, FinishReason::ToolCalls);
    assert_eq!(completion.choices[0].message.tool_calls, Some(vec![call]));
    assert_eq!(completion.choices[0].message.content.as_deref(), Some(""));
}

#[test]
fn the_assistant_message_renders_in_both_modes() {
    let inline = MessageAssistant::new(
        RenderingMode::InlineMarkers,
        " why \n".to_string(),
        "so".to_string(),
        None,
    );
    assert_eq!(inline.reasoning_content, None);
    assert_eq!(inline.content.as_deref(), Some("<think>\nwhy\n</think>\nso"));
    let apart = MessageAssistant::new(
        RenderingMode::SeparateField,
        " why \n".to_string(),
        "so".to_string(),
        None,
    );
    assert_eq!(apart.reasoning_content.as_deref(), Some(" why \n"));
    assert_eq!(apart.content.as_deref(), Some("so"));
}
