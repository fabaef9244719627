//! The two-phase completion that is answered as a stream.
//!
//! The caller performs the upstream calls, decodes their bodies and writes
//! the outgoing queue; a [`StreamingSession`] decides what is written: it
//! takes the chunks of each phase one by one, is told when a phase's body
//! has ended, and gives back the items to put on the queue, in order.
//!
//! The decisions are stated over a model: [`SessionView`] is the state,
//! [`SessionEvent`] what happens to it, and [`step_state`] and
//! [`step_items`] say what state follows and what is given out.

use crate::config::ModelConfig;
use crate::consts::{cutoff_stub, REASONING_CUTOFF_STUB, THINK_END};
use crate::errors::{ErrorKind, ReasonerError};
use crate::llm_request::{
    answer_request, answer_runs, build_answer_request, build_reasoning_request,
    calculate_remaining_tokens, is_valid_conversation, reasoning_request, remaining_fits,
    remaining_tokens, validate_chat_request, validation_message,
};
use crate::models::request::{ChatCompletionCreate, RequestView, StreamOptions};
use crate::models::response_stream::{
    choices_view, empty_delta, opening_delta, reasoning_delta, thinking_end_delta,
    ChatCompletionChunk, ChunkChoice, ChunkChoiceDelta, ChunkChoiceView, ChunkView, DeltaView,
};
use crate::models::{FinishReason, RenderingMode, Usage};
use vstd::prelude::*;
use vstd::string::StringExecFns;

verus! {

/// One item of the outgoing queue.
#[derive(Debug, Clone)]
pub enum StreamItem {
    /// A chunk, to be framed as one event.
    Chunk(ChatCompletionChunk),
    /// The literal terminator.
    Done,
}

/// The model of a [`StreamItem`].
pub enum ItemView {
    Chunk(ChunkView),
    Done,
}

impl View for StreamItem {
    type V = ItemView;

    open spec fn view(&self) -> ItemView {
        match self {
            StreamItem::Chunk(c) => ItemView::Chunk(c@),
            StreamItem::Done => ItemView::Done,
        }
    }
}

/// The models of the items, in their order.
pub open spec fn items_view(items: Seq<StreamItem>) -> Seq<ItemView> {
    items.map_values(|i: StreamItem| i@)
}

/// Where a streamed completion stands.
#[derive(Debug, Clone, Copy, PartialEq, Eq, Structural)]
pub enum StreamPhase {
    /// The body of the reasoning phase is being read.
    Reasoning,
    /// The body of the answer phase is being read.
    Answering,
    /// The terminator has been given out.
    Finished,
}

/// The fields that every outgoing chunk of a phase shares.
pub struct Envelope {
    pub id: Seq<char>,
    pub created: i64,
    pub model: Seq<char>,
}

/// The state of one streamed completion.
#[derive(Debug, Clone)]
pub struct StreamingSession {
    pub mode: RenderingMode,
    pub phase: StreamPhase,
    /// The client asked for the usage at the end of the stream.
    pub include_usage: bool,
    /// A chunk of the current phase has come, and its envelope is pinned.
    pub opened: bool,
    pub id: String,
    pub created: i64,
    pub model: String,
    /// The trace gathered so far.
    pub reasoning_text: String,
    pub prompt_tokens: i32,
    pub reasoning_tokens: i32,
    pub answer_tokens: i32,
    /// The last finish reason that the reasoning phase reported.
    pub reasoning_finish: Option<FinishReason>,
}

/// The model of a [`StreamingSession`].
pub struct SessionView {
    pub mode: RenderingMode,
    pub phase: StreamPhase,
    pub include_usage: bool,
    pub opened: bool,
    pub envelope: Envelope,
    pub reasoning_text: Seq<char>,
    pub prompt_tokens: i32,
    pub reasoning_tokens: i32,
    pub answer_tokens: i32,
    pub reasoning_finish: Option<FinishReason>,
}

impl View for StreamingSession {
    type V = SessionView;

    open spec fn view(&self) -> SessionView {
        SessionView {
            mode: self.mode,
            phase: self.phase,
            include_usage: self.include_usage,
            opened: self.opened,
            envelope: Envelope { id: self.id@, created: self.created, model: self.model@ },
            reasoning_text: self.reasoning_text@,
            prompt_tokens: self.prompt_tokens,
            reasoning_tokens: self.reasoning_tokens,
            answer_tokens: self.answer_tokens,
            reasoning_finish: self.reasoning_finish,
        }
    }
}

/// What happens to a session.
pub enum SessionEvent {
    /// A chunk of the body that is being read has come.
    Chunk(ChunkView),
    /// The body of the reasoning phase has ended; the client's request
    /// allows this many tokens overall.
    ReasoningEnd { max_tokens: Option<i32> },
    /// The body of the answer phase has ended.
    AnswerEnd,
}

/// The value of the `object` field of every outgoing chunk.
pub open spec fn chunk_object() -> Seq<char> {
    "chat.completion.chunk"@
}

/// The chunk of the given choices and usage in the envelope.
pub open spec fn chunk_in(e: Envelope, choices: Seq<ChunkChoiceView>, usage: Option<Usage>) -> ChunkView {
    ChunkView {
        id: e.id,
        object: chunk_object(),
        created: e.created,
        model: e.model,
        choices,
        usage,
    }
}

/// The item that carries one delta: a chunk in the envelope with one choice
/// of index 0 and no usage.
pub open spec fn delta_item(e: Envelope, delta: DeltaView, finish: Option<FinishReason>) -> ItemView {
    ItemView::Chunk(
        chunk_in(
            e,
            seq![ChunkChoiceView { index: 0, delta, logprobs: None, finish_reason: finish }],
            None,
        ),
    )
}

/// The item that hands on a choice of the answer phase as it came.
pub open spec fn forwarded_item(e: Envelope, choice: ChunkChoiceView) -> ItemView {
    ItemView::Chunk(chunk_in(e, seq![choice], None))
}

/// The item that reports the usage: no choice, and the usage given.
pub open spec fn usage_item(e: Envelope, usage: Usage) -> ItemView {
    ItemView::Chunk(chunk_in(e, Seq::empty(), Some(usage)))
}

/// The envelope of a chunk as the upstream sent it.
pub open spec fn envelope_of(c: ChunkView) -> Envelope {
    Envelope { id: c.id, created: c.created, model: c.model }
}

/// The content that a chunk adds: that of the delta of its first choice.
pub open spec fn content_of(chunk: ChunkView) -> Option<Seq<char>> {
    if chunk.choices.len() > 0 {
        chunk.choices[0].delta.content
    } else {
        None
    }
}

/// The finish reason that a chunk reports: that of its first choice.
pub open spec fn finish_of(chunk: ChunkView) -> Option<FinishReason> {
    if chunk.choices.len() > 0 {
        chunk.choices[0].finish_reason
    } else {
        None
    }
}

/// The client asked for the usage at the end of the stream.
pub open spec fn wants_usage(request: RequestView) -> bool {
    match request.stream_options {
        Some(o) => o.include_usage == Some(true),
        None => false,
    }
}

/// The model of a request that asks the upstream to report the usage.
pub open spec fn with_usage(request: RequestView) -> RequestView {
    RequestView {
        stream_options: Some(StreamOptions { include_usage: Some(true) }),
        ..request
    }
}

/// The session at the start of the reasoning phase.
pub open spec fn fresh_session(mode: RenderingMode, include_usage: bool) -> SessionView {
    SessionView {
        mode,
        phase: StreamPhase::Reasoning,
        include_usage,
        opened: false,
        envelope: Envelope { id: Seq::empty(), created: 0, model: Seq::empty() },
        reasoning_text: Seq::empty(),
        prompt_tokens: 0,
        reasoning_tokens: 0,
        answer_tokens: 0,
        reasoning_finish: None,
    }
}

/// The envelope once `chunk` has come: the one that is pinned, or that of
/// `chunk` where it is the first of its phase.
pub open spec fn pinned(s: SessionView, chunk: ChunkView) -> Envelope {
    if s.opened {
        s.envelope
    } else {
        envelope_of(chunk)
    }
}

/// The usage of the completion so far.
pub open spec fn usage_of(s: SessionView) -> Usage {
    Usage::merged(s.prompt_tokens, s.reasoning_tokens, s.answer_tokens)
}

/// The usage of the completion so far fits its counters.
pub open spec fn usage_fits(s: SessionView) -> bool {
    Usage::merge_fits(s.prompt_tokens, s.reasoning_tokens, s.answer_tokens)
}

/// The reasoning phase ended for want of tokens.
pub open spec fn was_cut(s: SessionView) -> bool {
    s.reasoning_finish == Some(FinishReason::Length)
}

/// The trace as the answer phase gets it: with the cutoff notice behind it
/// where the reasoning phase ended for want of tokens.
pub open spec fn closed_trace(s: SessionView) -> Seq<char> {
    if was_cut(s) {
        s.reasoning_text + cutoff_stub()
    } else {
        s.reasoning_text
    }
}

/// The items that end a stream: the usage, where the client asked for it,
/// and the terminator.
pub open spec fn closing_items(s: SessionView) -> Seq<ItemView> {
    if s.include_usage {
        seq![usage_item(s.envelope, usage_of(s)), ItemView::Done]
    } else {
        seq![ItemView::Done]
    }
}

/// The session once a chunk has come.
///
/// The first chunk of a phase pins the envelope of the phase. In the
/// reasoning phase every chunk has its usage recorded, its content added to
/// the trace and its finish reason remembered. In the answer phase the
/// usage is recorded. After the terminator nothing is taken.
pub open spec fn after_chunk(s: SessionView, chunk: ChunkView) -> SessionView {
    match s.phase {
        StreamPhase::Finished => s,
        StreamPhase::Reasoning => SessionView {
            opened: true,
            envelope: pinned(s, chunk),
            prompt_tokens: match chunk.usage {
                Some(u) => u.prompt_tokens,
                None => s.prompt_tokens,
            },
            reasoning_tokens: match chunk.usage {
                Some(u) => u.completion_tokens,
                None => s.reasoning_tokens,
            },
            reasoning_finish: match finish_of(chunk) {
                Some(f) => Some(f),
                None => s.reasoning_finish,
            },
            reasoning_text: match content_of(chunk) {
                Some(piece) => s.reasoning_text + piece,
                None => s.reasoning_text,
            },
            ..s
        },
        StreamPhase::Answering => SessionView {
            opened: true,
            envelope: pinned(s, chunk),
            answer_tokens: match chunk.usage {
                Some(u) => u.completion_tokens,
                None => s.answer_tokens,
            },
            ..s
        },
    }
}

/// The items that a chunk brings.
///
/// In the reasoning phase the first chunk brings the opening item, and
/// every chunk with a content brings that content as a piece of the trace.
/// In the answer phase every chunk with a choice has its first choice
/// handed on as it came.
pub open spec fn chunk_items(s: SessionView, chunk: ChunkView) -> Seq<ItemView> {
    let e = pinned(s, chunk);
    match s.phase {
        StreamPhase::Finished => Seq::empty(),
        StreamPhase::Reasoning => {
            let opening = if s.opened {
                Seq::empty()
            } else {
                seq![delta_item(e, opening_delta(s.mode), None)]
            };
            match content_of(chunk) {
                Some(piece) => opening.push(delta_item(e, reasoning_delta(s.mode, piece), None)),
                None => opening,
            }
        },
        StreamPhase::Answering => if chunk.choices.len() > 0 {
            seq![forwarded_item(e, chunk.choices[0])]
        } else {
            Seq::empty()
        },
    }
}

/// The session once the body of the reasoning phase has ended: in the
/// answer phase with the trace closed where tokens are left, and finished
/// where none is.
pub open spec fn after_reasoning_end(s: SessionView, max_tokens: Option<i32>) -> SessionView {
    if s.phase != StreamPhase::Reasoning {
        s
    } else if answer_runs(max_tokens, s.reasoning_tokens) {
        SessionView {
            phase: StreamPhase::Answering,
            opened: false,
            reasoning_text: closed_trace(s),
            ..s
        }
    } else {
        SessionView { phase: StreamPhase::Finished, ..s }
    }
}

/// The items that the end of the reasoning phase brings.
///
/// Where tokens are left for the answer: the cutoff notice as a piece of
/// the trace, where the trace was cut, and the closing marker, where the
/// trace is rendered inline. Where none is left: one empty delta that
/// finishes for want of tokens, and the items that end the stream.
pub open spec fn reasoning_end_items(s: SessionView, max_tokens: Option<i32>) -> Seq<ItemView> {
    if s.phase != StreamPhase::Reasoning {
        Seq::empty()
    } else if answer_runs(max_tokens, s.reasoning_tokens) {
        let notice = if was_cut(s) {
            seq![delta_item(s.envelope, reasoning_delta(s.mode, cutoff_stub()), None)]
        } else {
            Seq::empty()
        };
        if s.mode == RenderingMode::InlineMarkers {
            notice.push(delta_item(s.envelope, thinking_end_delta(), None))
        } else {
            notice
        }
    } else {
        seq![delta_item(s.envelope, empty_delta(), Some(FinishReason::Length))] + closing_items(s)
    }
}

/// The request of the answer phase, where the end of the reasoning phase
/// asks for one: seeded with the closed trace, capped by the tokens that
/// are left, and asking the upstream for the usage.
pub open spec fn reasoning_end_request(
    s: SessionView,
    request: RequestView,
    model_name: Seq<char>,
) -> Option<RequestView> {
    if s.phase == StreamPhase::Reasoning && answer_runs(request.max_tokens, s.reasoning_tokens) {
        Some(
            with_usage(
                answer_request(
                    request,
                    model_name,
                    closed_trace(s),
                    remaining_tokens(request.max_tokens, s.reasoning_tokens) as i32,
                ),
            ),
        )
    } else {
        None
    }
}

/// The session once the body of the answer phase has ended.
pub open spec fn after_answer_end(s: SessionView) -> SessionView {
    if s.phase == StreamPhase::Answering {
        SessionView { phase: StreamPhase::Finished, ..s }
    } else {
        s
    }
}

/// The items that the end of the answer phase brings: those that end the
/// stream.
pub open spec fn answer_end_items(s: SessionView) -> Seq<ItemView> {
    if s.phase == StreamPhase::Answering {
        closing_items(s)
    } else {
        Seq::empty()
    }
}

/// The state that follows an event.
pub open spec fn step_state(s: SessionView, event: SessionEvent) -> SessionView {
    match event {
        SessionEvent::Chunk(chunk) => after_chunk(s, chunk),
        SessionEvent::ReasoningEnd { max_tokens } => after_reasoning_end(s, max_tokens),
        SessionEvent::AnswerEnd => after_answer_end(s),
    }
}

/// The items that an event brings.
pub open spec fn step_items(s: SessionView, event: SessionEvent) -> Seq<ItemView> {
    match event {
        SessionEvent::Chunk(chunk) => chunk_items(s, chunk),
        SessionEvent::ReasoningEnd { max_tokens } => reasoning_end_items(s, max_tokens),
        SessionEvent::AnswerEnd => answer_end_items(s),
    }
}

/// The state after a run of events.
pub open spec fn run_state(s: SessionView, events: Seq<SessionEvent>) -> SessionView
    decreases events.len(),
{
    if events.len() == 0 {
        s
    } else {
        step_state(run_state(s, events.drop_last()), events.last())
    }
}

/// The items that a run of events brings, in order.
pub open spec fn run_items(s: SessionView, events: Seq<SessionEvent>) -> Seq<ItemView>
    decreases events.len(),
{
    if events.len() == 0 {
        Seq::empty()
    } else {
        run_items(s, events.drop_last()) + step_items(
            run_state(s, events.drop_last()),
            events.last(),
        )
    }
}

/// No terminator is among the items.
pub open spec fn no_terminator(items: Seq<ItemView>) -> bool {
    forall|i: int| 0 <= i < items.len() ==> !(#[trigger] items[i] is Done)
}

/// The item reports a usage and holds no choice.
pub open spec fn is_summary(item: ItemView) -> bool {
    match item {
        ItemView::Chunk(c) => c.choices.len() == 0 && c.usage is Some,
        ItemView::Done => false,
    }
}

/// The items are a stream that has come to its end: the terminator is the
/// last of them and stands nowhere else, and where the usage was asked for,
/// the item before the terminator reports it and holds no choice.
pub open spec fn is_ended_stream(items: Seq<ItemView>, include_usage: bool) -> bool {
    &&& items.len() >= 1
    &&& items.last() is Done
    &&& no_terminator(items.drop_last())
    &&& include_usage ==> items.len() >= 2 && is_summary(items[items.len() - 2])
}

/// What one event does to the stream: whether the usage is asked for never
/// changes; a stream that has ended stays ended and brings nothing more;
/// the event that ends a stream brings items that end it; and every other
/// event brings no terminator.
pub proof fn lemma_step(s: SessionView, event: SessionEvent)
    ensures
        step_state(s, event).include_usage == s.include_usage,
        s.phase == StreamPhase::Finished ==> step_state(s, event).phase == StreamPhase::Finished
            && step_items(s, event).len() == 0,
        s.phase != StreamPhase::Finished && step_state(s, event).phase != StreamPhase::Finished
            ==> no_terminator(step_items(s, event)),
        s.phase != StreamPhase::Finished && step_state(s, event).phase == StreamPhase::Finished
            ==> is_ended_stream(step_items(s, event), s.include_usage),
{
    let items = step_items(s, event);
    if s.phase != StreamPhase::Finished && step_state(s, event).phase == StreamPhase::Finished {
        match event {
            SessionEvent::ReasoningEnd { max_tokens } => {
                let first = delta_item(s.envelope, empty_delta(), Some(FinishReason::Length));
                assert(items =~= seq![first] + closing_items(s));
                if s.include_usage {
                    assert(items.drop_last() =~= seq![
                        first,
                        usage_item(s.envelope, usage_of(s)),
                    ]);
                } else {
                    assert(items.drop_last() =~= seq![first]);
                }
            },
            _ => {
                if s.include_usage {
                    assert(items.drop_last() =~= seq![usage_item(s.envelope, usage_of(s))]);
                } else {
                    assert(items.drop_last() =~= Seq::<ItemView>::empty());
                }
            },
        }
    }
}

/// Every streamed completion that comes to its end closes with the
/// terminator: whatever events a session meets from its start, once it is
/// finished the last item given out is the terminator, no other item is
/// one, and where the client asked for the usage, the item before the
/// terminator reports a usage and holds no choice. Until then no terminator
/// is given out.
pub proof fn lemma_finished_run_is_ended_stream(s: SessionView, events: Seq<SessionEvent>)
    requires
        s.phase != StreamPhase::Finished,
    ensures
        run_state(s, events).include_usage == s.include_usage,
        run_state(s, events).phase != StreamPhase::Finished ==> no_terminator(run_items(s, events)),
        run_state(s, events).phase == StreamPhase::Finished ==> is_ended_stream(
            run_items(s, events),
            s.include_usage,
        ),
    decreases events.len(),
{
    if events.len() > 0 {
        let before = run_state(s, events.drop_last());
        let given = run_items(s, events.drop_last());
        let items = step_items(before, events.last());
        let all = run_items(s, events);
        lemma_finished_run_is_ended_stream(s, events.drop_last());
        lemma_step(before, events.last());
        if before.phase == StreamPhase::Finished {
            assert(all =~= given);
        } else if run_state(s, events).phase == StreamPhase::Finished {
            assert(all.last() == items.last());
            assert(all.drop_last() =~= given + items.drop_last());
            if s.include_usage {
                assert(all[all.len() - 2] == items[items.len() - 2]);
            }
        }
    }
}

/// In a stream, too, the answer phase runs exactly where tokens are left for
/// it: the end of the reasoning phase asks for the answer phase where the
/// tokens that the reasoning phase spent leave some of the allowance, and
/// ends the stream where they leave none.
pub proof fn lemma_stream_answer_runs_iff_tokens_left(
    s: SessionView,
    request: RequestView,
    model_name: Seq<char>,
)
    requires
        s.phase == StreamPhase::Reasoning,
    ensures
        reasoning_end_request(s, request, model_name) is Some <==> remaining_tokens(
            request.max_tokens,
            s.reasoning_tokens,
        ) > 0,
        after_reasoning_end(s, request.max_tokens).phase == (if remaining_tokens(
            request.max_tokens,
            s.reasoning_tokens,
        ) > 0 {
            StreamPhase::Answering
        } else {
            StreamPhase::Finished
        }),
{
}

/// In a stream a trace that was cut brings the cutoff notice as one item:
/// where the answer phase runs, the end of the reasoning phase brings one
/// item more for a trace that was cut than for one that was not, that item
/// carries the notice as a piece of the trace, and the notice stands once
/// behind the trace.
pub proof fn lemma_stream_cutoff_notice_once(s: SessionView, max_tokens: Option<i32>)
    requires
        s.phase == StreamPhase::Reasoning,
        answer_runs(max_tokens, s.reasoning_tokens),
        was_cut(s),
    ensures
        ({
            let uncut = SessionView { reasoning_finish: None, ..s };
            let items = reasoning_end_items(s, max_tokens);
            &&& items.len() == reasoning_end_items(uncut, max_tokens).len() + 1
            &&& items[0] == delta_item(s.envelope, reasoning_delta(s.mode, cutoff_stub()), None)
            &&& after_reasoning_end(s, max_tokens).reasoning_text == s.reasoning_text
                + cutoff_stub()
            &&& after_reasoning_end(uncut, max_tokens).reasoning_text == s.reasoning_text
        }),
{
}

/// The models of the items once one more stands at the end.
proof fn lemma_items_push(items: Seq<StreamItem>, item: StreamItem)
    ensures
        items_view(items.push(item)) == items_view(items).push(item@),
{
    assert(items_view(items.push(item)) =~= items_view(items).push(item@));
}

impl StreamingSession {
    /// Validates the request and gives a session with the request of the
    /// reasoning phase, which asks the upstream for the usage.
    pub fn begin(mode: RenderingMode, request: ChatCompletionCreate, model_config: &ModelConfig) -> (r:
        Result<(StreamingSession, ChatCompletionCreate), ReasonerError>)
        ensures
            r is Ok <==> is_valid_conversation(request@.messages),
            r is Ok ==> (r->Ok_0).0@ == fresh_session(mode, wants_usage(request@)) && (r->Ok_0).1@
                == with_usage(
                reasoning_request(
                    request@,
                    model_config.model_name@,
                    model_config.reasoning_budget,
                ),
            ),
            r is Err ==> r->Err_0.kind() == ErrorKind::Validation && r->Err_0.message()
                == validation_message(request@.messages),
    {
        match validate_chat_request(&request) {
            Err(e) => Err(e),
            Ok(()) => {
                let include_usage = match &request.stream_options {
                    Some(o) => match o.include_usage {
                        Some(b) => b,
                        None => false,
                    },
                    None => false,
                };
                let mut built = build_reasoning_request(request, model_config);
                built.stream_options = Some(StreamOptions { include_usage: Some(true) });
                let session = StreamingSession {
                    mode,
                    phase: StreamPhase::Reasoning,
                    include_usage,
                    opened: false,
                    id: String::new(),
                    created: 0,
                    model: String::new(),
                    reasoning_text: String::new(),
                    prompt_tokens: 0,
                    reasoning_tokens: 0,
                    answer_tokens: 0,
                    reasoning_finish: None,
                };
                Ok((session, built))
            },
        }
    }

    /// A chunk in the pinned envelope.
    fn chunk(&self, choices: Vec<ChunkChoice>, usage: Option<Usage>) -> (c: ChatCompletionChunk)
        ensures
            c@ == chunk_in(self@.envelope, choices_view(choices@), usage),
    {
        ChatCompletionChunk {
            id: self.id.clone(),
            object: String::from_str("chat.completion.chunk"),
            created: self.created,
            model: self.model.clone(),
            choices,
            usage,
        }
    }

    /// The item that carries one delta.
    fn delta_item(&self, delta: ChunkChoiceDelta, finish: Option<FinishReason>) -> (item:
        StreamItem)
        ensures
            item@ == delta_item(self@.envelope, delta@, finish),
    {
        let mut choices: Vec<ChunkChoice> = Vec::new();
        choices.push(ChunkChoice { index: 0, delta, logprobs: None, finish_reason: finish });
        proof {
            assert(choices_view(choices@) =~= seq![
                ChunkChoiceView { index: 0, delta: delta@, logprobs: None, finish_reason: finish },
            ]);
        }
        StreamItem::Chunk(self.chunk(choices, None))
    }

    /// Puts the items that end the stream behind the others.
    fn closing_run(&self, items: &mut Vec<StreamItem>)
        requires
            self.include_usage ==> usage_fits(self@),
        ensures
            items_view(final(items)@) == items_view(old(items)@) + closing_items(self@),
    {
        if self.include_usage {
            let usage = Usage::merge(self.prompt_tokens, self.reasoning_tokens, self.answer_tokens);
            let c = self.chunk(Vec::new(), Some(usage));
            proof {
                assert(choices_view(Seq::<ChunkChoice>::empty()) =~= Seq::<
                    ChunkChoiceView,
                >::empty());
                lemma_items_push(items@, StreamItem::Chunk(c));
            }
            items.push(StreamItem::Chunk(c));
        }
        proof {
            lemma_items_push(items@, StreamItem::Done);
        }
        items.push(StreamItem::Done);
        proof {
            assert(items_view(items@) =~= items_view(old(items)@) + closing_items(self@));
        }
    }

    /// Takes one chunk of the body that is being read, and gives the items
    /// that it brings.
    ///
    /// The first chunk of a phase pins the envelope of the phase. In the
    /// reasoning phase it also brings the opening item. Every chunk of the
    /// reasoning phase then has its usage recorded, its content added to the
    /// trace and handed on as a piece of the trace, and its finish reason
    /// remembered. In the answer phase the usage is recorded and the first
    /// choice is handed on as it came. After the terminator nothing is taken.
    pub fn on_chunk(&mut self, chunk: ChatCompletionChunk) -> (items: Vec<StreamItem>)
        ensures
            final(self)@ == after_chunk(old(self)@, chunk@),
            items_view(items@) == chunk_items(old(self)@, chunk@),
    {
        let mut items: Vec<StreamItem> = Vec::new();
        let ChatCompletionChunk { id, object: _, created, model, choices, usage } = chunk;
        let mut choices = choices;
        proof {
            assert(items_view(items@) =~= Seq::<ItemView>::empty());
        }
        match self.phase {
            StreamPhase::Finished => {},
            StreamPhase::Reasoning => {
                if !self.opened {
                    self.id = id;
                    self.created = created;
                    self.model = model;
                    self.opened = true;
                    let opening = ChunkChoiceDelta::chunk_choice_delta_opening(self.mode);
                    let item = self.delta_item(opening, None);
                    proof {
                        lemma_items_push(items@, item);
                    }
                    items.push(item);
                }
                match usage {
                    Some(u) => {
                        self.prompt_tokens = u.prompt_tokens;
                        self.reasoning_tokens = u.completion_tokens;
                    },
                    None => {},
                }
                if choices.len() > 0 {
                    let first = choices.remove(0);
                    match first.finish_reason {
                        Some(f) => {
                            self.reasoning_finish = Some(f);
                        },
                        None => {},
                    }
                    match first.delta.content {
                        Some(piece) => {
                            self.reasoning_text.append(piece.as_str());
                            let delta = ChunkChoiceDelta::chunk_choice_delta_reasoning(
                                self.mode,
                                piece,
                            );
                            let item = self.delta_item(delta, None);
                            proof {
                                lemma_items_push(items@, item);
                            }
                            items.push(item);
                        },
                        None => {},
                    }
                }
                proof {
                    assert(items_view(items@) =~= chunk_items(old(self)@, chunk@));
                }
            },
            StreamPhase::Answering => {
                if !self.opened {
                    self.id = id;
                    self.created = created;
                    self.model = model;
                    self.opened = true;
                }
                match usage {
                    Some(u) => {
                        self.answer_tokens = u.completion_tokens;
                    },
                    None => {},
                }
                if choices.len() > 0 {
                    let first = choices.remove(0);
                    let ghost first_view = first@;
                    let mut forwarded: Vec<ChunkChoice> = Vec::new();
                    forwarded.push(first);
                    proof {
                        assert(choices_view(forwarded@) =~= seq![first_view]);
                    }
                    let c = self.chunk(forwarded, None);
                    proof {
                        lemma_items_push(items@, StreamItem::Chunk(c));
                    }
                    items.push(StreamItem::Chunk(c));
                }
                proof {
                    assert(items_view(items@) =~= chunk_items(old(self)@, chunk@));
                }
            },
        }
        items
    }

    /// Told that the body of the reasoning phase has ended, decides how the
    /// stream goes on.
    ///
    /// Where tokens are left for the answer, the trace is closed (with the
    /// cutoff notice where it was cut, and with the closing marker where it
    /// is rendered inline), and the request of the answer phase is given
    /// back. Where none is left, the stream is ended: one empty delta that
    /// finishes for want of tokens, the usage where it was asked for, and
    /// the terminator. In any other phase nothing happens.
    pub fn on_reasoning_end(&mut self, request: ChatCompletionCreate, model_config: &ModelConfig) -> (r:
        (Vec<StreamItem>, Option<ChatCompletionCreate>))
        requires
            old(self).phase == StreamPhase::Reasoning ==> remaining_fits(
                request.max_tokens,
                old(self).reasoning_tokens,
            ),
            old(self).phase == StreamPhase::Reasoning && old(self).include_usage && !answer_runs(
                request.max_tokens,
                old(self).reasoning_tokens,
            ) ==> usage_fits(old(self)@),
        ensures
            final(self)@ == after_reasoning_end(old(self)@, request.max_tokens),
            items_view(r.0@) == reasoning_end_items(old(self)@, request.max_tokens),
            match r.1 {
                Some(built) => reasoning_end_request(old(self)@, request@, model_config.model_name@)
                    == Some(built@),
                None => reasoning_end_request(old(self)@, request@, model_config.model_name@)
                    is None,
            },
    {
        let mut items: Vec<StreamItem> = Vec::new();
        proof {
            assert(items_view(items@) =~= Seq::<ItemView>::empty());
        }
        match self.phase {
            StreamPhase::Reasoning => {},
            _ => {
                return (items, None);
            },
        }
        let remaining = calculate_remaining_tokens(request.max_tokens, self.reasoning_tokens);
        if remaining > 0 {
            let cut = match self.reasoning_finish {
                Some(FinishReason::Length) => true,
                _ => false,
            };
            if cut {
                let delta = ChunkChoiceDelta::chunk_choice_delta_reasoning(
                    self.mode,
                    String::from_str(REASONING_CUTOFF_STUB),
                );
                let item = self.delta_item(delta, None);
                proof {
                    lemma_items_push(items@, item);
                }
                items.push(item);
                self.reasoning_text.append(REASONING_CUTOFF_STUB);
            }
            match self.mode {
                RenderingMode::InlineMarkers => {
                    let delta = ChunkChoiceDelta {
                        role: None,
                        reasoning_content: None,
                        content: Some(String::from_str(THINK_END)),
                        tool_calls: None,
                    };
                    let item = self.delta_item(delta, None);
                    proof {
                        lemma_items_push(items@, item);
                    }
                    items.push(item);
                },
                RenderingMode::SeparateField => {},
            }
            let mut built = build_answer_request(
                request,
                model_config,
                self.reasoning_text.as_str(),
                remaining,
            );
            built.stream_options = Some(StreamOptions { include_usage: Some(true) });
            self.phase = StreamPhase::Answering;
            self.opened = false;
            proof {
                assert(items_view(items@) =~= reasoning_end_items(old(self)@, request.max_tokens));
            }
            (items, Some(built))
        } else {
            let item = self.delta_item(
                ChunkChoiceDelta::chunk_choice_delta_empty(),
                Some(FinishReason::Length),
            );
            proof {
                lemma_items_push(items@, item);
            }
            items.push(item);
            self.closing_run(&mut items);
            self.phase = StreamPhase::Finished;
            proof {
                assert(items_view(items@) =~= reasoning_end_items(old(self)@, request.max_tokens));
            }
            (items, None)
        }
    }

    /// Told that the body of the answer phase has ended, ends the stream:
    /// the usage where it was asked for, and the terminator. In any other
    /// phase nothing happens.
    pub fn on_answer_end(&mut self) -> (items: Vec<StreamItem>)
        requires
            old(self).phase == StreamPhase::Answering && old(self).include_usage ==> usage_fits(
                old(self)@,
            ),
        ensures
            final(self)@ == after_answer_end(old(self)@),
            items_view(items@) == answer_end_items(old(self)@),
    {
        let mut items: Vec<StreamItem> = Vec::new();
        proof {
            assert(items_view(items@) =~= Seq::<ItemView>::empty());
        }
        match self.phase {
            StreamPhase::Answering => {},
            _ => {
                return items;
            },
        }
        self.closing_run(&mut items);
        self.phase = StreamPhase::Finished;
        proof {
            assert(items_view(items@) =~= answer_end_items(old(self)@));
        }
        items
    }
}

} // verus!
