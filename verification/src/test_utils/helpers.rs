//! Sample requests and routes.

use crate::config::{Config, ModelConfig, NamedModel};
use crate::llm_request::seed_message;
use crate::models::request::{
    messages_view, ChatCompletionCreate, ContentView, Message, MessageAssistant, MessageContent,
    MessageSystemUser, MessageView, RequestView,
};
use serde_json::Value;
use std::collections::HashMap;
use vstd::prelude::*;
use vstd::string::StringExecFns;

verus! {

/// The model of a user message that holds the given text.
pub open spec fn user_text(text: Seq<char>) -> MessageView {
    MessageView::User(ContentView::String(text))
}

/// The model of a request that sets nothing but model, messages and
/// `max_tokens`.
pub open spec fn bare_request(
    model: Seq<char>,
    messages: Seq<MessageView>,
    max_tokens: i32,
) -> RequestView {
    RequestView {
        model,
        messages,
        max_tokens: Some(max_tokens),
        stop: None,
        stream: None,
        stream_options: None,
        tools: None,
        tool_choice: None,
        extra: Map::empty(),
    }
}

/// A request with one user message and an allowance of 1000 tokens.
pub fn create_test_chat_request(model: &str, user_message: &str) -> (r: ChatCompletionCreate)
    ensures
        r@ == bare_request(model@, seq![user_text(user_message@)], 1000),
{
    let mut messages: Vec<Message> = Vec::new();
    messages.push(
        Message::User(
            MessageSystemUser { content: MessageContent::String(String::from_str(user_message)) },
        ),
    );
    proof {
        assert(messages_view(messages@) =~= seq![user_text(user_message@)]);
    }
    ChatCompletionCreate {
        model: String::from_str(model),
        messages,
        max_tokens: Some(1000),
        stop: None,
        stream: None,
        stream_options: None,
        tools: None,
        tool_choice: None,
        extra: HashMap::new(),
    }
}

/// A route without extra body fields.
pub fn create_test_model_config(
    model_name: String,
    api_url: String,
    api_key: String,
    reasoning_budget: i32,
) -> (c: ModelConfig)
    ensures
        c.model_name == model_name,
        c.api_url == api_url,
        c.api_key == api_key,
        c.reasoning_budget == reasoning_budget,
        c.extra is None,
{
    ModelConfig { model_name, api_url, api_key, reasoning_budget, extra: None }
}

/// A table with one route, under the name of its upstream model.
pub fn create_test_config_with_model(
    model_name: String,
    api_url: String,
    api_key: String,
    reasoning_budget: i32,
) -> (c: Config)
    ensures
        c.wf(),
        c.models@.len() == 1,
        c.models@[0].name@ == model_name@,
        c.models@[0].config.model_name == model_name,
        c.models@[0].config.api_url == api_url,
        c.models@[0].config.api_key == api_key,
        c.models@[0].config.reasoning_budget == reasoning_budget,
        c.models@[0].config.extra is None,
{
    let name = model_name.clone();
    let config = create_test_model_config(model_name, api_url, api_key, reasoning_budget);
    let mut models: Vec<NamedModel> = Vec::new();
    models.push(NamedModel { name, config });
    Config { models }
}

/// A route with extra body fields.
pub fn create_test_model_config_with_extra(
    model_name: String,
    api_url: String,
    api_key: String,
    reasoning_budget: i32,
    extra: HashMap<String, Value>,
) -> (c: ModelConfig)
    ensures
        c.model_name == model_name,
        c.api_url == api_url,
        c.api_key == api_key,
        c.reasoning_budget == reasoning_budget,
        c.extra == Some(extra),
{
    ModelConfig { model_name, api_url, api_key, reasoning_budget, extra: Some(extra) }
}

/// A request without messages.
pub fn create_empty_messages_request() -> (r: ChatCompletionCreate)
    ensures
        r@ == bare_request("test-model"@, Seq::empty(), 100),
{
    proof {
        assert(messages_view(Seq::<Message>::empty()) =~= Seq::<MessageView>::empty());
    }
    ChatCompletionCreate {
        model: String::from_str("test-model"),
        messages: Vec::new(),
        max_tokens: Some(100),
        stop: None,
        stream: None,
        stream_options: None,
        tools: None,
        tool_choice: None,
        extra: HashMap::new(),
    }
}

/// A request whose last message is the assistant's.
pub fn create_assistant_last_request() -> (r: ChatCompletionCreate)
    ensures
        r@ == bare_request(
            "test-model"@,
            seq![user_text("Hello"@), seed_message("I'm doing well"@)],
            100,
        ),
{
    let mut messages: Vec<Message> = Vec::new();
    messages.push(
        Message::User(
            MessageSystemUser { content: MessageContent::String(String::from_str("Hello")) },
        ),
    );
    messages.push(
        Message::Assistant(
            MessageAssistant {
                reasoning_content: None,
                content: Some(String::from_str("I'm doing well")),
                tool_calls: None,
            },
        ),
    );
    proof {
        assert(messages_view(messages@) =~= seq![
            user_text("Hello"@),
            seed_message("I'm doing well"@),
        ]);
    }
    ChatCompletionCreate {
        model: String::from_str("test-model"),
        messages,
        max_tokens: Some(100),
        stop: None,
        stream: None,
        stream_options: None,
        tools: None,
        tool_choice: None,
        extra: HashMap::new(),
    }
}

} // verus!
