//! The inbound completion request and its messages.

use std::collections::HashMap;
use serde_json::Value;
use super::{items_of, text_of, texts_of, RenderingMode};
use crate::consts::{think_end, think_start, THINK_END, THINK_START};
use crate::text::{trim, trimmed};
use vstd::prelude::*;
use vstd::string::StringExecFns;

verus! {

#[derive(Debug, Clone)]
pub struct ImageUrl {
    pub url: String,
    pub detail: Option<String>,
}

/// The model of an [`ImageUrl`].
pub struct ImageUrlView {
    pub url: Seq<char>,
    pub detail: Option<Seq<char>>,
}

impl View for ImageUrl {
    type V = ImageUrlView;

    open spec fn view(&self) -> ImageUrlView {
        ImageUrlView { url: self.url@, detail: text_of(self.detail) }
    }
}

#[derive(Debug, Clone)]
pub enum MessageContentPart {
    Text { text: String },
    ImageUrl { image_url: ImageUrl },
}

/// The model of a [`MessageContentPart`].
pub enum PartView {
    Text { text: Seq<char> },
    ImageUrl { image_url: ImageUrlView },
}

impl View for MessageContentPart {
    type V = PartView;

    open spec fn view(&self) -> PartView {
        match self {
            MessageContentPart::Text { text } => PartView::Text { text: text@ },
            MessageContentPart::ImageUrl { image_url } => PartView::ImageUrl {
                image_url: image_url@,
            },
        }
    }
}

#[derive(Debug, Clone)]
pub enum MessageContent {
    String(String),
    Array(Vec<MessageContentPart>),
}

/// The model of a [`MessageContent`]: a text, or parts in their order.
pub enum ContentView {
    String(Seq<char>),
    Array(Seq<PartView>),
}

impl View for MessageContent {
    type V = ContentView;

    open spec fn view(&self) -> ContentView {
        match self {
            MessageContent::String(text) => ContentView::String(text@),
            MessageContent::Array(parts) => ContentView::Array(
                parts@.map_values(|p: MessageContentPart| p@),
            ),
        }
    }
}

#[derive(Debug, Clone)]
pub struct MessageSystemUser {
    pub content: MessageContent,
}

#[derive(Debug, Clone)]
pub struct MessageAssistant {
    pub reasoning_content: Option<String>,
    pub content: Option<String>,
    pub tool_calls: Option<Vec<Value>>,
}

/// The model of a [`MessageAssistant`].
pub struct AssistantView {
    pub reasoning_content: Option<Seq<char>>,
    pub content: Option<Seq<char>>,
    pub tool_calls: Option<Seq<Value>>,
}

impl View for MessageAssistant {
    type V = AssistantView;

    open spec fn view(&self) -> AssistantView {
        AssistantView {
            reasoning_content: text_of(self.reasoning_content),
            content: text_of(self.content),
            tool_calls: items_of(self.tool_calls),
        }
    }
}

/// The content of an assistant message that holds the trace between the
/// markers, each on a line of its own, and the answer behind them.
pub open spec fn inline_content(reasoning: Seq<char>, content: Seq<char>) -> Seq<char> {
    think_start() + seq!['\n'] + trimmed(reasoning) + seq!['\n'] + think_end() + seq!['\n']
        + content
}

impl MessageAssistant {
    /// The model of the message that presents a trace and an answer.
    pub open spec fn rendered(
        mode: RenderingMode,
        reasoning: Seq<char>,
        content: Seq<char>,
        tool_calls: Option<Seq<Value>>,
    ) -> AssistantView {
        match mode {
            RenderingMode::SeparateField => AssistantView {
                reasoning_content: Some(reasoning),
                content: Some(content),
                tool_calls,
            },
            RenderingMode::InlineMarkers => AssistantView {
                reasoning_content: None,
                content: Some(inline_content(reasoning, content)),
                tool_calls,
            },
        }
    }

    /// The assistant message that presents a reasoning trace and an answer:
    /// side by side, or the trimmed trace between the markers in front of the
    /// answer. The tool calls pass through.
    pub fn new(
        mode: RenderingMode,
        reasoning_content: String,
        content: String,
        tool_calls: Option<Vec<Value>>,
    ) -> (m: MessageAssistant)
        ensures
            m@ == MessageAssistant::rendered(
                mode,
                reasoning_content@,
                content@,
                items_of(tool_calls),
            ),
    {
        match mode {
            RenderingMode::SeparateField => MessageAssistant {
                reasoning_content: Some(reasoning_content),
                content: Some(content),
                tool_calls,
            },
            RenderingMode::InlineMarkers => {
                let mut text = String::from_str(THINK_START);
                text.append("\n");
                text.append(trim(reasoning_content.as_str()).as_str());
                text.append("\n");
                text.append(THINK_END);
                text.append("\n");
                text.append(content.as_str());
                proof {
                    reveal_strlit("\n");
                    assert("\n"@ =~= seq!['\n']);
                }
                MessageAssistant { reasoning_content: None, content: Some(text), tool_calls }
            },
        }
    }
}

#[derive(Debug, Clone)]
pub struct MessageTool {
    pub tool_call_id: String,
    pub content: MessageContent,
}

/// A message of the conversation, by role.
#[derive(Debug, Clone)]
pub enum Message {
    User(MessageSystemUser),
    System(MessageSystemUser),
    Assistant(MessageAssistant),
    Tool(MessageTool),
}

/// The model of a [`Message`].
pub enum MessageView {
    User(ContentView),
    System(ContentView),
    Assistant(AssistantView),
    Tool { tool_call_id: Seq<char>, content: ContentView },
}

impl View for Message {
    type V = MessageView;

    open spec fn view(&self) -> MessageView {
        match self {
            Message::User(m) => MessageView::User(m.content@),
            Message::System(m) => MessageView::System(m.content@),
            Message::Assistant(m) => MessageView::Assistant(m@),
            Message::Tool(m) => MessageView::Tool {
                tool_call_id: m.tool_call_id@,
                content: m.content@,
            },
        }
    }
}

/// The models of the messages of a conversation, in their order.
pub open spec fn messages_view(messages: Seq<Message>) -> Seq<MessageView> {
    messages.map_values(|m: Message| m@)
}

#[derive(Debug, Clone, Copy, PartialEq, Eq, Structural)]
pub struct StreamOptions {
    pub include_usage: Option<bool>,
}

impl Default for StreamOptions {
    fn default() -> (o: StreamOptions)
        ensures
            o.include_usage is None,
    {
        StreamOptions { include_usage: None }
    }
}

#[derive(Debug, Clone, Copy, PartialEq, Eq, Structural)]
pub enum ToolChoice {
    Auto,
    /// The model must call no tool.
    NoTools,
    Required,
}

#[derive(Debug, Clone)]
pub struct ChatCompletionCreate {
    pub model: String,
    pub messages: Vec<Message>,
    pub max_tokens: Option<i32>,
    pub stop: Option<Vec<String>>,
    pub stream: Option<bool>,
    pub stream_options: Option<StreamOptions>,
    pub tools: Option<Vec<Value>>,
    pub tool_choice: Option<ToolChoice>,
    pub extra: HashMap<String, Value>,
}

/// The model of a [`ChatCompletionCreate`].
pub struct RequestView {
    pub model: Seq<char>,
    pub messages: Seq<MessageView>,
    pub max_tokens: Option<i32>,
    pub stop: Option<Seq<Seq<char>>>,
    pub stream: Option<bool>,
    pub stream_options: Option<StreamOptions>,
    pub tools: Option<Seq<Value>>,
    pub tool_choice: Option<ToolChoice>,
    pub extra: Map<String, Value>,
}

impl View for ChatCompletionCreate {
    type V = RequestView;

    open spec fn view(&self) -> RequestView {
        RequestView {
            model: self.model@,
            messages: messages_view(self.messages@),
            max_tokens: self.max_tokens,
            stop: texts_of(self.stop),
            stream: self.stream,
            stream_options: self.stream_options,
            tools: items_of(self.tools),
            tool_choice: self.tool_choice,
            extra: self.extra@,
        }
    }
}

} // verus!
