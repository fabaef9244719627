//! The chunks of a streamed completion.

use super::{items_of, text_of, FinishReason, RenderingMode, Role, Usage};
use crate::consts::think_end;
use crate::consts::{think_start, THINK_START};
use serde_json::Value;
use vstd::prelude::*;
use vstd::string::StringExecFns;

verus! {

#[derive(Debug, Clone)]
pub struct ChunkChoiceDelta {
    pub role: Option<Role>,
    pub reasoning_content: Option<String>,
    pub content: Option<String>,
    pub tool_calls: Option<Vec<Value>>,
}

/// The model of a [`ChunkChoiceDelta`].
pub struct DeltaView {
    pub role: Option<Role>,
    pub reasoning_content: Option<Seq<char>>,
    pub content: Option<Seq<char>>,
    pub tool_calls: Option<Seq<Value>>,
}

impl View for ChunkChoiceDelta {
    type V = DeltaView;

    open spec fn view(&self) -> DeltaView {
        DeltaView {
            role: self.role,
            reasoning_content: text_of(self.reasoning_content),
            content: text_of(self.content),
            tool_calls: items_of(self.tool_calls),
        }
    }
}

/// The model of a delta of the given role and texts that carries no tool call.
pub open spec fn plain_delta(
    role: Option<Role>,
    reasoning_content: Option<Seq<char>>,
    content: Option<Seq<char>>,
) -> DeltaView {
    DeltaView { role, reasoning_content, content, tool_calls: None }
}

/// The model of the delta that opens a streamed answer: the assistant's
/// role and, where the trace is rendered inline, the opening marker.
pub open spec fn opening_delta(mode: RenderingMode) -> DeltaView {
    match mode {
        RenderingMode::SeparateField => plain_delta(Some(Role::Assistant), None, None),
        RenderingMode::InlineMarkers => plain_delta(
            Some(Role::Assistant),
            None,
            Some(think_start()),
        ),
    }
}

/// The model of the delta that carries a piece of the reasoning trace, in
/// the field that the rendering mode names.
pub open spec fn reasoning_delta(mode: RenderingMode, piece: Seq<char>) -> DeltaView {
    match mode {
        RenderingMode::SeparateField => plain_delta(None, Some(piece), None),
        RenderingMode::InlineMarkers => plain_delta(None, None, Some(piece)),
    }
}

/// The model of the delta that closes a trace that is rendered inline.
pub open spec fn thinking_end_delta() -> DeltaView {
    plain_delta(None, None, Some(think_end()))
}

/// The model of the delta whose content is the empty text.
pub open spec fn empty_delta() -> DeltaView {
    plain_delta(None, None, Some(Seq::empty()))
}

impl ChunkChoiceDelta {

    /// The delta that opens a streamed answer: the assistant's role and, where
    /// the trace is rendered inline, the opening marker.
    pub fn chunk_choice_delta_opening(mode: RenderingMode) -> (d: ChunkChoiceDelta)
        ensures
            d@ == opening_delta(mode),
    {
        match mode {
            RenderingMode::SeparateField => ChunkChoiceDelta {
                role: Some(Role::Assistant),
                reasoning_content: None,
                content: None,
                tool_calls: None,
            },
            RenderingMode::InlineMarkers => ChunkChoiceDelta {
                role: Some(Role::Assistant),
                reasoning_content: None,
                content: Some(String::from_str(THINK_START)),
                tool_calls: None,
            },
        }
    }

    /// The delta whose content is the empty text.
    pub fn chunk_choice_delta_empty() -> (d: ChunkChoiceDelta)
        ensures
            d@ == empty_delta(),
    {
        ChunkChoiceDelta {
            role: None,
            reasoning_content: None,
            content: Some(String::new()),
            tool_calls: None,
        }
    }

    /// The delta that carries a piece of the reasoning trace, in the field
    /// that the rendering mode names.
    pub fn chunk_choice_delta_reasoning(mode: RenderingMode, reasoning_content: String) -> (d:
        ChunkChoiceDelta)
        ensures
            d@ == reasoning_delta(mode, reasoning_content@),
    {
        match mode {
            RenderingMode::SeparateField => ChunkChoiceDelta {
                role: None,
                reasoning_content: Some(reasoning_content),
                content: None,
                tool_calls: None,
            },
            RenderingMode::InlineMarkers => ChunkChoiceDelta {
                role: None,
                reasoning_content: None,
                content: Some(reasoning_content),
                tool_calls: None,
            },
        }
    }
}

#[derive(Debug, Clone)]
pub struct ChunkChoice {
    pub index: i32,
    pub delta: ChunkChoiceDelta,
    /// Log probabilities, carried as the upstream gave them.
    pub logprobs: Option<Value>,
    pub finish_reason: Option<FinishReason>,
}

/// The model of a [`ChunkChoice`].
pub struct ChunkChoiceView {
    pub index: i32,
    pub delta: DeltaView,
    pub logprobs: Option<Value>,
    pub finish_reason: Option<FinishReason>,
}

impl View for ChunkChoice {
    type V = ChunkChoiceView;

    open spec fn view(&self) -> ChunkChoiceView {
        ChunkChoiceView {
            index: self.index,
            delta: self.delta@,
            logprobs: self.logprobs,
            finish_reason: self.finish_reason,
        }
    }
}

#[derive(Debug, Clone)]
pub struct ChatCompletionChunk {
    pub id: String,
    pub object: String,
    pub created: i64,
    pub model: String,
    pub choices: Vec<ChunkChoice>,
    pub usage: Option<Usage>,
}

/// The model of a [`ChatCompletionChunk`].
pub struct ChunkView {
    pub id: Seq<char>,
    pub object: Seq<char>,
    pub created: i64,
    pub model: Seq<char>,
    pub choices: Seq<ChunkChoiceView>,
    pub usage: Option<Usage>,
}

/// The models of the choices of a chunk, in their order.
pub open spec fn choices_view(choices: Seq<ChunkChoice>) -> Seq<ChunkChoiceView> {
    choices.map_values(|c: ChunkChoice| c@)
}

impl View for ChatCompletionChunk {
    type V = ChunkView;

    open spec fn view(&self) -> ChunkView {
        ChunkView {
            id: self.id@,
            object: self.object@,
            created: self.created,
            model: self.model@,
            choices: choices_view(self.choices@),
            usage: self.usage,
        }
    }
}

} // verus!
