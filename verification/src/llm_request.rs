//! Validation of a request, the token budget, and the requests of the two phases.

use crate::config::ModelConfig;
use crate::consts::{think_end, think_start, DEFAULT_MAX_TOKENS, THINK_END, THINK_START};
use crate::errors::{ErrorKind, ReasonerError};
use crate::models::request::{
    messages_view, AssistantView, ChatCompletionCreate, Message, MessageAssistant, MessageView,
    RequestView,
};
use crate::text::concat3;
use vstd::prelude::*;
use vstd::string::StringExecFns;

verus! {

/// The overall allowance of a request: the one it names, or the default.
pub open spec fn allowance(max_tokens: Option<i32>) -> int {
    match max_tokens {
        Some(m) => m as int,
        None => DEFAULT_MAX_TOKENS as int,
    }
}

/// The tokens that are left for the answer once the reasoning phase has
/// spent `reasoning_tokens`.
pub open spec fn remaining_tokens(max_tokens: Option<i32>, reasoning_tokens: i32) -> int {
    allowance(max_tokens) - reasoning_tokens
}

/// The remaining tokens are within `i32`.
pub open spec fn remaining_fits(max_tokens: Option<i32>, reasoning_tokens: i32) -> bool {
    i32::MIN <= remaining_tokens(max_tokens, reasoning_tokens) <= i32::MAX
}

/// The answer phase runs: tokens are left for it.
pub open spec fn answer_runs(max_tokens: Option<i32>, reasoning_tokens: i32) -> bool {
    remaining_tokens(max_tokens, reasoning_tokens) > 0
}

/// The tokens that are left for the answer.
pub fn calculate_remaining_tokens(max_tokens: Option<i32>, reasoning_tokens: i32) -> (remaining:
    i32)
    requires
        remaining_fits(max_tokens, reasoning_tokens),
    ensures
        remaining == remaining_tokens(max_tokens, reasoning_tokens),
        remaining > 0 <==> answer_runs(max_tokens, reasoning_tokens),
{
    match max_tokens {
        Some(m) => m - reasoning_tokens,
        None => DEFAULT_MAX_TOKENS - reasoning_tokens,
    }
}

/// The tokens that are left for the answer, where an `i32` can hold them.
pub fn checked_remaining_tokens(max_tokens: Option<i32>, reasoning_tokens: i32) -> (remaining:
    Option<i32>)
    ensures
        remaining is Some <==> remaining_fits(max_tokens, reasoning_tokens),
        remaining is Some ==> remaining->0 == remaining_tokens(max_tokens, reasoning_tokens),
{
    match max_tokens {
        Some(m) => m.checked_sub(reasoning_tokens),
        None => DEFAULT_MAX_TOKENS.checked_sub(reasoning_tokens),
    }
}

/// The model of an assistant message that holds `content` and nothing else.
pub open spec fn seed_message(content: Seq<char>) -> MessageView {
    MessageView::Assistant(
        AssistantView { reasoning_content: None, content: Some(content), tool_calls: None },
    )
}

/// The model of the request of the reasoning phase: the client's request
/// under the upstream's model name, seeded with the opening marker, stopped
/// by the closing marker, capped by the budget of the route.
pub open spec fn reasoning_request(request: RequestView, model_name: Seq<char>, budget: i32) -> RequestView {
    RequestView {
        model: model_name,
        messages: request.messages.push(seed_message(think_start())),
        stop: Some(seq![think_end()]),
        max_tokens: Some(budget),
        ..request
    }
}

/// The model of the request of the answer phase: the client's request under
/// the upstream's model name, seeded with the trace between the markers,
/// capped by `max_tokens`.
pub open spec fn answer_request(
    request: RequestView,
    model_name: Seq<char>,
    reasoning_text: Seq<char>,
    max_tokens: i32,
) -> RequestView {
    RequestView {
        model: model_name,
        messages: request.messages.push(
            seed_message(think_start() + reasoning_text + think_end()),
        ),
        max_tokens: Some(max_tokens),
        ..request
    }
}

/// The models of the messages once one more stands at the end.
proof fn lemma_messages_push(messages: Seq<Message>, m: Message)
    ensures
        messages_view(messages.push(m)) == messages_view(messages).push(m@),
{
    assert(messages_view(messages.push(m)) =~= messages_view(messages).push(m@));
}

/// The request that elicits the reasoning trace.
pub fn build_reasoning_request(request: ChatCompletionCreate, model_config: &ModelConfig) -> (built:
    ChatCompletionCreate)
    ensures
        built@ == reasoning_request(
            request@,
            model_config.model_name@,
            model_config.reasoning_budget,
        ),
{
    let mut built = request;
    built.model = model_config.model_name.clone();
    let seed = MessageAssistant {
        reasoning_content: None,
        content: Some(String::from_str(THINK_START)),
        tool_calls: None,
    };
    built.messages.push(Message::Assistant(seed));
    let mut stop: Vec<String> = Vec::new();
    stop.push(String::from_str(THINK_END));
    built.stop = Some(stop);
    built.max_tokens = Some(model_config.reasoning_budget);
    proof {
        lemma_messages_push(request.messages@, built.messages@.last());
        assert(built.messages@ =~= request.messages@.push(built.messages@.last()));
        assert(stop@.map_values(|t: String| t@) =~= seq![think_end()]);
    }
    built
}

/// The request that elicits the answer, the trace given as what the
/// assistant has said so far.
pub fn build_answer_request(
    request: ChatCompletionCreate,
    model_config: &ModelConfig,
    reasoning_text: &str,
    max_tokens: i32,
) -> (built: ChatCompletionCreate)
    ensures
        built@ == answer_request(request@, model_config.model_name@, reasoning_text@, max_tokens),
{
    let mut built = request;
    built.model = model_config.model_name.clone();
    let seed = MessageAssistant {
        reasoning_content: None,
        content: Some(concat3(THINK_START, reasoning_text, THINK_END)),
        tool_calls: None,
    };
    built.messages.push(Message::Assistant(seed));
    built.max_tokens = Some(max_tokens);
    proof {
        lemma_messages_push(request.messages@, built.messages@.last());
        assert(built.messages@ =~= request.messages@.push(built.messages@.last()));
    }
    built
}

/// The conversation can be served: it holds a message, and the last one is
/// not the assistant's.
pub open spec fn is_valid_conversation(messages: Seq<MessageView>) -> bool {
    messages.len() > 0 && !(messages.last() is Assistant)
}

/// The words with which a conversation is turned down.
pub open spec fn validation_message(messages: Seq<MessageView>) -> Seq<char> {
    if messages.len() == 0 {
        "error: empty messages"@
    } else {
        "error: cannot process partial assistant response content in messages yet!"@
    }
}

/// Accepts a request whose conversation can be served, and turns down every
/// other one with a validation error.
pub fn validate_chat_request(request: &ChatCompletionCreate) -> (r: Result<(), ReasonerError>)
    ensures
        r is Ok <==> is_valid_conversation(request@.messages),
        r is Err ==> r->Err_0.kind() == ErrorKind::Validation && r->Err_0.message()
            == validation_message(request@.messages),
{
    let n: usize = request.messages.len();
    proof {
        if n > 0 {
            assert(request@.messages.last() == request.messages@[n - 1]@);
        }
    }
    if n == 0 {
        return Err(ReasonerError::ValidationError(String::from_str("error: empty messages")));
    }
    match &request.messages[n - 1] {
        Message::Assistant(_) => Err(
            ReasonerError::ValidationError(
                String::from_str(
                    "error: cannot process partial assistant response content in messages yet!",
                ),
            ),
        ),
        _ => Ok(()),
    }
}

} // verus!
