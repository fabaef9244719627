//! The two-phase completion that is answered in one piece.
//!
//! The caller performs the upstream calls; the functions here decide what
//! is sent and what is made of each answer: [`ReasoningService::begin`]
//! gives the request of the reasoning phase,
//! [`ReasoningService::after_reasoning`] takes its response and either asks
//! for the answer phase or finishes, and [`ReasoningService::after_answer`]
//! merges the two responses.

use crate::config::ModelConfig;
use crate::consts::{cutoff_stub, REASONING_CUTOFF_STUB};
use crate::errors::{ErrorKind, ReasonerError};
use crate::llm_request::{
    answer_request, answer_runs, build_answer_request, build_reasoning_request,
    calculate_remaining_tokens, is_valid_conversation, reasoning_request, remaining_fits,
    remaining_tokens, validate_chat_request, validation_message,
};
use crate::models::request::{ChatCompletionCreate, MessageAssistant, RequestView};
use crate::models::response_direct::{ChatCompletion, ChoiceView, Choice, CompletionView};
use crate::models::{items_of, text_of, FinishReason, RenderingMode, Usage};
use crate::text::{trim, trimmed};
use serde_json::Value;
use vstd::prelude::*;
use vstd::string::StringExecFns;

verus! {

/// The orchestrator of two-phase completions.
#[derive(Debug, Clone, Copy)]
pub struct ReasoningService {
    pub rendering_mode: RenderingMode,
}

/// What the reasoning phase leaves for the merge.
#[derive(Debug, Clone)]
pub struct ReasoningResult {
    /// The logical model name that the client asked for.
    pub model: String,
    pub id: String,
    pub object: String,
    pub created: i64,
    /// The trace, with the cutoff notice where the phase ran into its budget.
    pub reasoning_text: String,
    pub prompt_tokens: i32,
    pub reasoning_tokens: i32,
}

/// What the reasoning phase leaves for the merge, as a value of the model.
pub struct ReasoningRecord {
    pub model: Seq<char>,
    pub id: Seq<char>,
    pub object: Seq<char>,
    pub created: i64,
    pub reasoning_text: Seq<char>,
    pub prompt_tokens: i32,
    pub reasoning_tokens: i32,
}

impl View for ReasoningResult {
    type V = ReasoningRecord;

    open spec fn view(&self) -> ReasoningRecord {
        ReasoningRecord {
            model: self.model@,
            id: self.id@,
            object: self.object@,
            created: self.created,
            reasoning_text: self.reasoning_text@,
            prompt_tokens: self.prompt_tokens,
            reasoning_tokens: self.reasoning_tokens,
        }
    }
}

/// What follows the reasoning phase.
#[derive(Debug, Clone)]
pub enum ReasoningDecision {
    /// Tokens are left: the answer phase is to be called with `request`.
    Answer { request: ChatCompletionCreate, result: ReasoningResult },
    /// No token is left: this is the completion.
    Finish(ChatCompletion),
}

/// The model of a [`ReasoningDecision`].
pub enum DecisionView {
    Answer { request: RequestView, result: ReasoningRecord },
    Finish(CompletionView),
}

impl View for ReasoningDecision {
    type V = DecisionView;

    open spec fn view(&self) -> DecisionView {
        match self {
            ReasoningDecision::Answer { request, result } => DecisionView::Answer {
                request: request@,
                result: result@,
            },
            ReasoningDecision::Finish(c) => DecisionView::Finish(c@),
        }
    }
}

/// The text of an optional text, the empty text where there is none.
pub open spec fn text_or_empty(s: Option<Seq<char>>) -> Seq<char> {
    match s {
        Some(t) => t,
        None => Seq::empty(),
    }
}

/// The trace as the answer phase gets it: with the cutoff notice behind it
/// where the reasoning phase ended for want of tokens.
pub open spec fn trace_for_answer(text: Seq<char>, finish_reason: FinishReason) -> Seq<char> {
    if finish_reason == FinishReason::Length {
        text + cutoff_stub()
    } else {
        text
    }
}

/// The words of the error for a response without choices.
pub open spec fn no_choices_message() -> Seq<char> {
    "error: no choices in response"@
}

/// The one completion that the client sees: the envelope of the reasoning
/// response under the client's model name, one choice that renders trace
/// and answer, and the merged usage.
pub open spec fn merged_completion(
    mode: RenderingMode,
    result: ReasoningRecord,
    answer: Seq<char>,
    tool_calls: Option<Seq<Value>>,
    finish_reason: FinishReason,
    answer_tokens: i32,
) -> CompletionView {
    CompletionView {
        id: result.id,
        object: result.object,
        created: result.created,
        model: result.model,
        choices: seq![
            ChoiceView {
                index: 0,
                message: MessageAssistant::rendered(
                    mode,
                    result.reasoning_text,
                    answer,
                    tool_calls,
                ),
                logprobs: None,
                finish_reason,
            },
        ],
        usage: Usage::merged(result.prompt_tokens, result.reasoning_tokens, answer_tokens),
    }
}

/// The record of the reasoning response `response` to a request for
/// `model`, the trace being `text`: the client's model name, the envelope
/// of the response, the trace, and the two counts that the response reports.
pub open spec fn record_of(
    model: Seq<char>,
    response: CompletionView,
    text: Seq<char>,
) -> ReasoningRecord {
    ReasoningRecord {
        model,
        id: response.id,
        object: response.object,
        created: response.created,
        reasoning_text: text,
        prompt_tokens: response.usage.prompt_tokens,
        reasoning_tokens: response.usage.completion_tokens,
    }
}

/// What follows a reasoning response that holds a choice.
///
/// The trace is the trimmed content of the first choice. Where tokens are
/// left, the answer phase is asked for, with the trace (and the cutoff
/// notice, where the trace was cut) and the tokens that are left. Where
/// none is left, the completion is finished without an answer, for want of
/// tokens.
pub open spec fn reasoning_decision(
    mode: RenderingMode,
    request: RequestView,
    model_name: Seq<char>,
    response: CompletionView,
) -> DecisionView
    recommends
        response.choices.len() > 0,
{
    let first = response.choices[0];
    let text = trimmed(text_or_empty(first.message.content));
    if answer_runs(request.max_tokens, response.usage.completion_tokens) {
        let trace = trace_for_answer(text, first.finish_reason);
        DecisionView::Answer {
            request: answer_request(
                request,
                model_name,
                trace,
                remaining_tokens(request.max_tokens, response.usage.completion_tokens) as i32,
            ),
            result: record_of(request.model, response, trace),
        }
    } else {
        DecisionView::Finish(
            merged_completion(
                mode,
                record_of(request.model, response, text),
                Seq::empty(),
                None,
                FinishReason::Length,
                0,
            ),
        )
    }
}

/// The answer phase runs exactly where tokens are left for it. Where none
/// is left, the completion is finished for want of tokens, with an empty
/// answer and with the tokens of the reasoning phase as its only completion
/// tokens.
pub proof fn lemma_answer_runs_iff_tokens_left(
    mode: RenderingMode,
    request: RequestView,
    model_name: Seq<char>,
    response: CompletionView,
)
    requires
        response.choices.len() > 0,
    ensures
        reasoning_decision(mode, request, model_name, response) is Answer <==> remaining_tokens(
            request.max_tokens,
            response.usage.completion_tokens,
        ) > 0,
        remaining_tokens(request.max_tokens, response.usage.completion_tokens) <= 0 ==> ({
            let c = reasoning_decision(mode, request, model_name, response)->Finish_0;
            &&& c.choices.len() == 1
            &&& c.choices[0].finish_reason == FinishReason::Length
            &&& c.choices[0].message == MessageAssistant::rendered(
                mode,
                trimmed(text_or_empty(response.choices[0].message.content)),
                Seq::empty(),
                None,
            )
            &&& c.usage.prompt_tokens == response.usage.prompt_tokens
            &&& c.usage.completion_tokens == response.usage.completion_tokens
        }),
{
}

/// The merged usage counts the prompt of the reasoning phase alone and the
/// completions of both phases; what the answer phase reports of its prompt
/// plays no part in it.
pub proof fn lemma_merged_usage(
    mode: RenderingMode,
    result: ReasoningRecord,
    answer: Seq<char>,
    tool_calls: Option<Seq<Value>>,
    finish_reason: FinishReason,
    answer_tokens: i32,
)
    requires
        Usage::merge_fits(result.prompt_tokens, result.reasoning_tokens, answer_tokens),
    ensures
        ({
            let usage = merged_completion(
                mode,
                result,
                answer,
                tool_calls,
                finish_reason,
                answer_tokens,
            ).usage;
            &&& usage.prompt_tokens == result.prompt_tokens
            &&& usage.completion_tokens == result.reasoning_tokens + answer_tokens
            &&& usage.total_tokens == result.prompt_tokens + result.reasoning_tokens
                + answer_tokens
        }),
{
}

/// A trace that was cut gets the cutoff notice once: where the reasoning
/// phase ended for want of tokens and the answer phase runs, the trace that
/// is handed on and later merged is the trimmed content with the notice
/// behind it, and a trace that ended otherwise is the trimmed content alone.
pub proof fn lemma_cutoff_notice_once(
    mode: RenderingMode,
    request: RequestView,
    model_name: Seq<char>,
    response: CompletionView,
)
    requires
        response.choices.len() > 0,
        answer_runs(request.max_tokens, response.usage.completion_tokens),
    ensures
        ({
            let text = trimmed(text_or_empty(response.choices[0].message.content));
            let decision = reasoning_decision(mode, request, model_name, response);
            &&& decision is Answer
            &&& decision->result.reasoning_text == (if response.choices[0].finish_reason
                == FinishReason::Length {
                text + cutoff_stub()
            } else {
                text
            })
        }),
{
}

/// The error for a response without choices.
fn no_choices() -> (e: ReasonerError)
    ensures
        e.kind() == ErrorKind::Api,
        e.message() == no_choices_message(),
{
    ReasonerError::ApiError(String::from_str("error: no choices in response"))
}

/// The text of an optional string, the empty text where there is none.
fn unwrap_text(s: Option<String>) -> (t: String)
    ensures
        t@ == text_or_empty(text_of(s)),
{
    match s {
        Some(t) => t,
        None => String::new(),
    }
}

impl ReasoningService {
    /// An orchestrator that renders in the given mode.
    pub fn new(rendering_mode: RenderingMode) -> (s: ReasoningService)
        ensures
            s.rendering_mode == rendering_mode,
    {
        ReasoningService { rendering_mode }
    }

    /// Validates the request and gives the request of the reasoning phase.
    pub fn begin(&self, request: ChatCompletionCreate, model_config: &ModelConfig) -> (r: Result<
        ChatCompletionCreate,
        ReasonerError,
    >)
        ensures
            r is Ok <==> is_valid_conversation(request@.messages),
            r is Ok ==> (r->Ok_0)@ == reasoning_request(
                request@,
                model_config.model_name@,
                model_config.reasoning_budget,
            ),
            r is Err ==> r->Err_0.kind() == ErrorKind::Validation && r->Err_0.message()
                == validation_message(request@.messages),
    {
        match validate_chat_request(&request) {
            Err(e) => Err(e),
            Ok(()) => Ok(build_reasoning_request(request, model_config)),
        }
    }

    /// Merges what the two phases gave into the completion for the client.
    pub fn merge(
        &self,
        result: ReasoningResult,
        answer_text: String,
        tool_calls: Option<Vec<Value>>,
        finish_reason: FinishReason,
        answer_tokens: i32,
    ) -> (c: ChatCompletion)
        requires
            Usage::merge_fits(result.prompt_tokens, result.reasoning_tokens, answer_tokens),
        ensures
            c@ == merged_completion(
                self.rendering_mode,
                result@,
                answer_text@,
                items_of(tool_calls),
                finish_reason,
                answer_tokens,
            ),
    {
        let usage = Usage::merge(result.prompt_tokens, result.reasoning_tokens, answer_tokens);
        let message = MessageAssistant::new(
            self.rendering_mode,
            result.reasoning_text,
            answer_text,
            tool_calls,
        );
        let mut choices: Vec<Choice> = Vec::new();
        choices.push(Choice { index: 0, message, logprobs: None, finish_reason });
        proof {
            assert(choices@.map_values(|c: Choice| c@) =~= seq![choices@[0]@]);
        }
        ChatCompletion {
            id: result.id,
            object: result.object,
            created: result.created,
            model: result.model,
            choices,
            usage,
        }
    }

    /// Takes the response of the reasoning phase. A response without
    /// choices is an error of the upstream. Where tokens are left, the
    /// answer phase is asked for, with the trimmed trace (and the cutoff
    /// notice, where the trace was cut) and the tokens that are left. Where
    /// none is left, the completion is finished without an answer.
    pub fn after_reasoning(
        &self,
        request: ChatCompletionCreate,
        model_config: &ModelConfig,
        response: ChatCompletion,
    ) -> (r: Result<ReasoningDecision, ReasonerError>)
        requires
            response.choices@.len() > 0 ==> remaining_fits(
                request.max_tokens,
                response.usage.completion_tokens,
            ),
            response.choices@.len() > 0 && !answer_runs(
                request.max_tokens,
                response.usage.completion_tokens,
            ) ==> Usage::merge_fits(
                response.usage.prompt_tokens,
                response.usage.completion_tokens,
                0,
            ),
        ensures
            r is Ok <==> response@.choices.len() > 0,
            r is Err ==> r->Err_0.kind() == ErrorKind::Api && r->Err_0.message()
                == no_choices_message(),
            r is Ok ==> (r->Ok_0)@ == reasoning_decision(
                self.rendering_mode,
                request@,
                model_config.model_name@,
                response@,
            ),
    {
        let ChatCompletion { id, object, created, model: _, choices, usage } = response;
        let mut choices = choices;
        if choices.len() == 0 {
            return Err(no_choices());
        }
        let first = choices.remove(0);
        let mut reasoning_text = trim(unwrap_text(first.message.content).as_str());
        let remaining = calculate_remaining_tokens(request.max_tokens, usage.completion_tokens);
        if remaining > 0 {
            if first.finish_reason == FinishReason::Length {
                reasoning_text.append(REASONING_CUTOFF_STUB);
            }
            let result = ReasoningResult {
                model: request.model.clone(),
                id,
                object,
                created,
                reasoning_text,
                prompt_tokens: usage.prompt_tokens,
                reasoning_tokens: usage.completion_tokens,
            };
            let built = build_answer_request(
                request,
                model_config,
                result.reasoning_text.as_str(),
                remaining,
            );
            Ok(ReasoningDecision::Answer { request: built, result })
        } else {
            let result = ReasoningResult {
                model: request.model,
                id,
                object,
                created,
                reasoning_text,
                prompt_tokens: usage.prompt_tokens,
                reasoning_tokens: usage.completion_tokens,
            };
            let c = self.merge(result, String::new(), None, FinishReason::Length, 0);
            Ok(ReasoningDecision::Finish(c))
        }
    }

    /// Takes the response of the answer phase and merges it with what the
    /// reasoning phase left. A response without choices is an error of the
    /// upstream.
    pub fn after_answer(&self, result: ReasoningResult, response: ChatCompletion) -> (r: Result<
        ChatCompletion,
        ReasonerError,
    >)
        requires
            response.choices@.len() > 0 ==> Usage::merge_fits(
                result.prompt_tokens,
                result.reasoning_tokens,
                response.usage.completion_tokens,
            ),
        ensures
            r is Ok <==> response@.choices.len() > 0,
            r is Err ==> r->Err_0.kind() == ErrorKind::Api && r->Err_0.message()
                == no_choices_message(),
            r is Ok ==> (r->Ok_0)@ == merged_completion(
                self.rendering_mode,
                result@,
                text_or_empty(response@.choices[0].message.content),
                response@.choices[0].message.tool_calls,
                response@.choices[0].finish_reason,
                response@.usage.completion_tokens,
            ),
    {
        let ChatCompletion { id: _, object: _, created: _, model: _, choices, usage } = response;
        let mut choices = choices;
        if choices.len() == 0 {
            return Err(no_choices());
        }
        let first = choices.remove(0);
        let Choice { index: _, message, logprobs: _, finish_reason } = first;
        let answer_text = unwrap_text(message.content);
        Ok(
            self.merge(
                result,
                answer_text,
                message.tool_calls,
                finish_reason,
                usage.completion_tokens,
            ),
        )
    }
}

} // verus!
