//! The answer to a completion that is not streamed.

use super::request::{AssistantView, MessageAssistant};
use super::{FinishReason, Usage};
use serde_json::Value;
use vstd::prelude::*;

verus! {

#[derive(Debug, Clone)]
pub struct Choice {
    pub index: i32,
    pub message: MessageAssistant,
    /// Log probabilities, carried as the upstream gave them.
    pub logprobs: Option<Value>,
    pub finish_reason: FinishReason,
}

/// The model of a [`Choice`].
pub struct ChoiceView {
    pub index: i32,
    pub message: AssistantView,
    pub logprobs: Option<Value>,
    pub finish_reason: FinishReason,
}

impl View for Choice {
    type V = ChoiceView;

    open spec fn view(&self) -> ChoiceView {
        ChoiceView {
            index: self.index,
            message: self.message@,
            logprobs: self.logprobs,
            finish_reason: self.finish_reason,
        }
    }
}

#[derive(Debug, Clone)]
pub struct ChatCompletion {
    pub id: String,
    pub object: String,
    pub created: i64,
    pub model: String,
    pub choices: Vec<Choice>,
    pub usage: Usage,
}

/// The model of a [`ChatCompletion`].
pub struct CompletionView {
    pub id: Seq<char>,
    pub object: Seq<char>,
    pub created: i64,
    pub model: Seq<char>,
    pub choices: Seq<ChoiceView>,
    pub usage: Usage,
}

impl View for ChatCompletion {
    type V = CompletionView;

    open spec fn view(&self) -> CompletionView {
        CompletionView {
            id: self.id@,
            object: self.object@,
            created: self.created,
            model: self.model@,
            choices: self.choices@.map_values(|c: Choice| c@),
            usage: self.usage,
        }
    }
}

} // verus!
