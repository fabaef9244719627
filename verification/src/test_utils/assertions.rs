//! Checks on responses. Each says whether the value is as expected.

use crate::models::response_direct::{ChatCompletion, Choice};
use crate::models::response_stream::{ChatCompletionChunk, ChunkChoice};
use crate::models::{text_of, FinishReason, Usage};
use vstd::prelude::*;
use vstd::string::StringExecFns;

verus! {

/// Whether the text is there and is the expected one.
fn text_is(text: &Option<String>, expected: &str) -> (b: bool)
    ensures
        b == (text_of(*text) == Some(expected@)),
{
    match text {
        Some(t) => *t == String::from_str(expected),
        None => false,
    }
}

/// The choice has the given index and content, stopped of itself, and
/// carries no log probabilities.
pub open spec fn choice_is(choice: Choice, index: i32, content: Seq<char>) -> bool {
    &&& choice.index == index
    &&& text_of(choice.message.content) == Some(content)
    &&& choice.finish_reason == FinishReason::Stop
    &&& choice.logprobs is None
}

/// Whether the completion is of the given model and holds one choice, of
/// index 0, that stopped of itself with the given content.
pub fn assert_chat_completion_response(
    response: &ChatCompletion,
    expected_model: &str,
    expected_content: &str,
) -> (b: bool)
    ensures
        b == (response.model@ == expected_model@ && response.choices@.len() == 1
            && response.choices@[0].index == 0 && response.choices@[0].finish_reason
            == FinishReason::Stop && text_of(response.choices@[0].message.content) == Some(
            expected_content@,
        )),
{
    if !(response.model == String::from_str(expected_model)) || response.choices.len() != 1 {
        return false;
    }
    let choice = &response.choices[0];
    choice.index == 0 && choice.finish_reason == FinishReason::Stop && text_is(
        &choice.message.content,
        expected_content,
    )
}

/// Whether the three counts are the expected ones.
pub fn assert_usage(
    usage: &Usage,
    expected_prompt_tokens: i32,
    expected_completion_tokens: i32,
    expected_total_tokens: i32,
) -> (b: bool)
    ensures
        b == (usage.prompt_tokens == expected_prompt_tokens && usage.completion_tokens
            == expected_completion_tokens && usage.total_tokens == expected_total_tokens),
{
    usage.prompt_tokens == expected_prompt_tokens && usage.completion_tokens
        == expected_completion_tokens && usage.total_tokens == expected_total_tokens
}

/// Whether there is a chunk, and every chunk is of the given model and is
/// marked as a chunk.
pub fn assert_streaming_chunks(chunks: &[ChatCompletionChunk], expected_model: &str) -> (b: bool)
    ensures
        b == (chunks@.len() > 0 && forall|i: int|
            0 <= i < chunks@.len() ==> (#[trigger] chunks@[i]).model@ == expected_model@
                && chunks@[i].object@ == "chat.completion.chunk"@),
{
    if chunks.len() == 0 {
        return false;
    }
    let model = String::from_str(expected_model);
    let object = String::from_str("chat.completion.chunk");
    let mut i: usize = 0;
    while i < chunks.len()
        invariant
            i <= chunks@.len(),
            model@ == expected_model@,
            object@ == "chat.completion.chunk"@,
            forall|k: int|
                0 <= k < i ==> (#[trigger] chunks@[k]).model@ == expected_model@
                    && chunks@[k].object@ == "chat.completion.chunk"@,
        decreases chunks@.len() - i,
    {
        if !(chunks[i].model == model) || !(chunks[i].object == object) {
            return false;
        }
        i += 1;
    }
    true
}

/// Whether the chunk holds one choice with a finish reason, and the usage.
pub fn assert_final_chunk(chunk: &ChatCompletionChunk) -> (b: bool)
    ensures
        b == (chunk.choices@.len() == 1 && chunk.choices@[0].finish_reason is Some
            && chunk.usage is Some),
{
    chunk.choices.len() == 1 && chunk.choices[0].finish_reason.is_some() && chunk.usage.is_some()
}

/// Whether the choice has the given index and content, stopped of itself,
/// and carries no log probabilities.
pub fn assert_choice_structure(choice: &Choice, index: i32, expected_content: &str) -> (b: bool)
    ensures
        b == choice_is(*choice, index, expected_content@),
{
    choice.index == index && text_is(&choice.message.content, expected_content)
        && choice.finish_reason == FinishReason::Stop && choice.logprobs.is_none()
}

/// Whether the choice of a chunk has the given index and content, and
/// carries no log probabilities.
pub fn assert_chunk_choice_structure(
    chunk_choice: &ChunkChoice,
    index: i32,
    expected_content: Option<&str>,
) -> (b: bool)
    ensures
        b == (chunk_choice.index == index && text_of(chunk_choice.delta.content) == (
        match expected_content {
            Some(t) => Some(t@),
            None => None,
        }) && chunk_choice.logprobs is None),
{
    let content_ok = match expected_content {
        Some(t) => text_is(&chunk_choice.delta.content, t),
        None => chunk_choice.delta.content.is_none(),
    };
    chunk_choice.index == index && content_ok && chunk_choice.logprobs.is_none()
}

} // verus!
