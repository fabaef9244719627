//! The wire data model: requests, direct responses, streamed chunks.

use vstd::prelude::*;

pub mod model_list;
pub mod request;
pub mod response_direct;
pub mod response_stream;

verus! {

/// An opaque JSON value, carried through the gateway untouched.
#[verifier::external_type_specification]
#[verifier::external_body]
pub struct ExJsonValue(serde_json::Value);

#[derive(Debug, Clone, Copy, PartialEq, Eq, Structural)]
pub enum Role {
    System,
    User,
    Assistant,
}

#[derive(Debug, Clone, Copy, PartialEq, Eq, Structural)]
pub enum FinishReason {
    Stop,
    Length,
    ToolCalls,
}

/// Token accounting of one completion.
#[derive(Debug, Clone, Copy, PartialEq, Eq, Structural)]
pub struct Usage {
    pub prompt_tokens: i32,
    pub completion_tokens: i32,
    pub total_tokens: i32,
}

/// The text of an optional string, as a value of the model.
pub open spec fn text_of(s: Option<String>) -> Option<Seq<char>> {
    match s {
        Some(t) => Some(t@),
        None => None,
    }
}

/// The texts of an optional list of strings, as a value of the model.
pub open spec fn texts_of(v: Option<Vec<String>>) -> Option<Seq<Seq<char>>> {
    match v {
        Some(l) => Some(l@.map_values(|t: String| t@)),
        None => None,
    }
}

/// The items of an optional list, as a value of the model.
pub open spec fn items_of<T>(v: Option<Vec<T>>) -> Option<Seq<T>> {
    match v {
        Some(l) => Some(l@),
        None => None,
    }
}

/// How the reasoning trace reaches the client.
#[derive(Debug, Clone, Copy, PartialEq, Eq, Structural)]
pub enum RenderingMode {
    /// In a field of its own, beside the answer.
    SeparateField,
    /// Inside the answer's content, between the marker tokens.
    InlineMarkers,
}

impl Usage {
    /// No count is negative and the total is the sum of the two parts.
    pub open spec fn wf(&self) -> bool {
        &&& self.prompt_tokens >= 0
        &&& self.completion_tokens >= 0
        &&& self.total_tokens == self.prompt_tokens + self.completion_tokens
    }

    /// The usage of a two-phase completion fits the counters: the
    /// completion count and the total are within `i32`.
    pub open spec fn merge_fits(prompt_tokens: i32, reasoning_tokens: i32, answer_tokens: i32) -> bool {
        &&& i32::MIN <= reasoning_tokens + answer_tokens <= i32::MAX
        &&& i32::MIN <= prompt_tokens + reasoning_tokens + answer_tokens <= i32::MAX
    }

    /// The usage of a two-phase completion: the prompt count of the reasoning
    /// phase alone, and the completion counts of both phases together.
    pub open spec fn merged(prompt_tokens: i32, reasoning_tokens: i32, answer_tokens: i32) -> Usage {
        Usage {
            prompt_tokens,
            completion_tokens: (reasoning_tokens + answer_tokens) as i32,
            total_tokens: (prompt_tokens + reasoning_tokens + answer_tokens) as i32,
        }
    }

    /// Merges the usage of the two phases. The prompt count that the answer
    /// phase reported plays no part.
    pub fn merge(prompt_tokens: i32, reasoning_tokens: i32, answer_tokens: i32) -> (u: Usage)
        requires
            Usage::merge_fits(prompt_tokens, reasoning_tokens, answer_tokens),
        ensures
            u == Usage::merged(prompt_tokens, reasoning_tokens, answer_tokens),
            u.prompt_tokens == prompt_tokens,
            u.completion_tokens == reasoning_tokens + answer_tokens,
            u.total_tokens == u.prompt_tokens + u.completion_tokens,
            prompt_tokens >= 0 && reasoning_tokens >= 0 && answer_tokens >= 0 ==> u.wf(),
    {
        let completion_tokens: i32 = reasoning_tokens + answer_tokens;
        Usage { prompt_tokens, completion_tokens, total_tokens: prompt_tokens + completion_tokens }
    }

    /// Merges the usage of the two phases where the counters can hold it.
    pub fn checked_merge(prompt_tokens: i32, reasoning_tokens: i32, answer_tokens: i32) -> (r: Option<
        Usage,
    >)
        ensures
            r is Some <==> Usage::merge_fits(prompt_tokens, reasoning_tokens, answer_tokens),
            r is Some ==> r->0 == Usage::merged(prompt_tokens, reasoning_tokens, answer_tokens),
    {
        match reasoning_tokens.checked_add(answer_tokens) {
            Some(completion_tokens) => match prompt_tokens.checked_add(completion_tokens) {
                Some(total_tokens) => Some(Usage { prompt_tokens, completion_tokens, total_tokens }),
                None => None,
            },
            None => None,
        }
    }
}

} // verus!
