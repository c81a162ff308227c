//! Streamed answers.
//!
//! A provider streams its answer as server-sent events. Each event is read into
//! a [`SseChunk`], and the chunks are put together in a [`StreamState`] until the
//! stream ends.
use vstd::prelude::*;
use vstd::string::StringExecFns;

use crate::direct_error::{
    DirectProviderError, DirectProviderErrorClass, DirectProviderErrorView, TransportFailure, TransportFailureView,
};
use crate::http_status::HttpStatus;
use crate::json;
use crate::json::{Json, JsonView};
use crate::profile::ProviderKind;
use crate::serde_values;
use crate::serde_values::parse_json;
use crate::text;
use crate::text::{str_eq, trim};
use crate::tools::{ToolCall, ToolCallView};

verus! {

/// The data of the event that ends a stream.
pub const DONE_MARK: &'static str = "[DONE]";

/// What an event of a stream says.
#[derive(Debug, PartialEq, Eq)]
pub enum SseChunk {
    /// More text.
    TextDelta(String),
    /// A tool call begins.
    ToolCallStart { id: String, name: String },
    /// More of the arguments of a tool call.
    ToolCallDelta { id: String, partial_json: String },
    /// A tool call is complete.
    ToolCallStop { id: String },
    /// The stream is at its end.
    Done,
    /// Nothing (common in OpenAI-compatible streams).
    Skip,
}

/// What an [`SseChunk`] is.
pub enum SseChunkView {
    TextDelta(Seq<char>),
    ToolCallStart { id: Seq<char>, name: Seq<char> },
    ToolCallDelta { id: Seq<char>, partial_json: Seq<char> },
    ToolCallStop { id: Seq<char> },
    Done,
    Skip,
}

impl View for SseChunk {
    type V = SseChunkView;

    open spec fn view(&self) -> SseChunkView {
        match self {
            SseChunk::TextDelta(t) => SseChunkView::TextDelta(t@),
            SseChunk::ToolCallStart { id, name } => SseChunkView::ToolCallStart { id: id@, name: name@ },
            SseChunk::ToolCallDelta { id, partial_json } => SseChunkView::ToolCallDelta {
                id: id@,
                partial_json: partial_json@,
            },
            SseChunk::ToolCallStop { id } => SseChunkView::ToolCallStop { id: id@ },
            SseChunk::Done => SseChunkView::Done,
            SseChunk::Skip => SseChunkView::Skip,
        }
    }
}

/// What a chunk, or the error in its place, is.
pub open spec fn chunk_view(r: Result<SseChunk, DirectProviderError>) -> Result<SseChunkView, DirectProviderErrorView> {
    match r {
        Ok(chunk) => Ok(chunk@),
        Err(error) => Err(error@),
    }
}

// ---------------------------------------------------------------------------
// Reading events
// ---------------------------------------------------------------------------

/// A text, or the empty text where there is none.
pub open spec fn or_empty(s: Option<Seq<char>>) -> Seq<char> {
    match s {
        Some(t) => t,
        None => Seq::empty(),
    }
}

/// A text, or the empty text where there is none.
fn or_empty_string(s: Option<&str>) -> (r: String)
    ensures
        r@ == or_empty(json::opt_str(s)),
{
    match s {
        Some(t) => t.to_string(),
        None => String::new(),
    }
}

/// More text; an empty text is taken for the end of the stream.
pub open spec fn text_chunk(t: Seq<char>) -> SseChunkView {
    if t.len() == 0 {
        SseChunkView::Done
    } else {
        SseChunkView::TextDelta(t)
    }
}

/// More of the arguments of a tool call; an empty text is taken for the end of
/// the stream.
pub open spec fn arguments_chunk(partial_json: Seq<char>) -> SseChunkView {
    if partial_json.len() == 0 {
        SseChunkView::Done
    } else {
        SseChunkView::ToolCallDelta { id: Seq::empty(), partial_json }
    }
}

/// What an event of the OpenAI Responses API says.
pub open spec fn responses_chunk(value: JsonView) -> SseChunkView {
    let event = or_empty(value.str_at("type"@));
    let is_call = value.str_in("item"@, "type"@) == Some("function_call"@);
    if event == "response.output_text.delta"@ || event == "response.reasoning_text.delta"@ {
        text_chunk(or_empty(value.str_in("delta"@, "text"@)))
    } else if event == "response.function_call_arguments.delta"@ {
        arguments_chunk(or_empty(value.str_in("delta"@, "text"@)))
    } else if event == "response.output_item.added"@ && is_call {
        SseChunkView::ToolCallStart {
            id: or_empty(value.str_in("item"@, "id"@)),
            name: or_empty(value.str_in("item"@, "name"@)),
        }
    } else if event == "response.output_item.done"@ && is_call {
        SseChunkView::ToolCallStop { id: or_empty(value.str_in("item"@, "id"@)) }
    } else {
        SseChunkView::Done
    }
}

/// More text.
fn read_text_chunk(t: String) -> (r: SseChunk)
    ensures
        r@ == text_chunk(t@),
{
    if t.as_str().is_empty() {
        SseChunk::Done
    } else {
        SseChunk::TextDelta(t)
    }
}

/// More of the arguments of a tool call.
fn read_arguments_chunk(partial_json: String) -> (r: SseChunk)
    ensures
        r@ == arguments_chunk(partial_json@),
{
    if partial_json.as_str().is_empty() {
        SseChunk::Done
    } else {
        SseChunk::ToolCallDelta { id: String::new(), partial_json }
    }
}

/// Is a member of a member this text?
fn member_is(value: &Json, outer: &str, inner: &str, wanted: &str) -> (r: bool)
    ensures
        r == (value@.str_in(outer@, inner@) == Some(wanted@)),
{
    match value.str_in(outer, inner) {
        Some(found) => str_eq(found, wanted),
        None => false,
    }
}

/// Reads an event of the OpenAI Responses API.
pub fn parse_openai_responses_chunk(value: &Json) -> (r: Result<SseChunk, DirectProviderError>)
    ensures
        chunk_view(r) == Ok::<SseChunkView, DirectProviderErrorView>(responses_chunk(value@)),
{
    let event = or_empty_string(value.str_at("type"));
    let event = event.as_str();
    if str_eq(event, "response.output_text.delta") || str_eq(event, "response.reasoning_text.delta") {
        return Ok(read_text_chunk(or_empty_string(value.str_in("delta", "text"))));
    }
    if str_eq(event, "response.function_call_arguments.delta") {
        return Ok(read_arguments_chunk(or_empty_string(value.str_in("delta", "text"))));
    }
    if str_eq(event, "response.output_item.added") && member_is(value, "item", "type", "function_call") {
        return Ok(
            SseChunk::ToolCallStart {
                id: or_empty_string(value.str_in("item", "id")),
                name: or_empty_string(value.str_in("item", "name")),
            },
        );
    }
    if str_eq(event, "response.output_item.done") && member_is(value, "item", "type", "function_call") {
        return Ok(SseChunk::ToolCallStop { id: or_empty_string(value.str_in("item", "id")) });
    }
    Ok(SseChunk::Done)
}

/// The first tool call in the first choice of a chat event.
pub open spec fn first_tool_call(choice: JsonView) -> Option<JsonView> {
    match choice.array_in("delta"@, "tool_calls"@) {
        Some(calls) => if calls.len() > 0 {
            Some(calls[0])
        } else {
            None
        },
        None => None,
    }
}

/// What a tool call in a chat event says, where it says something: it begins
/// where it has a name, else it goes on where it has arguments.
pub open spec fn tool_call_chunk(call: JsonView) -> Option<SseChunkView> {
    let id = or_empty(call.str_at("id"@));
    match call.str_in("function"@, "name"@) {
        Some(name) => Some(SseChunkView::ToolCallStart { id, name }),
        None => match call.str_in("function"@, "arguments"@) {
            Some(partial_json) => if partial_json.len() > 0 {
                Some(SseChunkView::ToolCallDelta { id, partial_json })
            } else {
                None
            },
            None => None,
        },
    }
}

/// What the first choice of a chat event says: a tool call, else the end where
/// there is a reason to finish, else text.
pub open spec fn choice_chunk(choice: JsonView) -> SseChunkView {
    let call = match first_tool_call(choice) {
        Some(call) => tool_call_chunk(call),
        None => None,
    };
    match call {
        Some(chunk) => chunk,
        None => {
            let finished = match choice.get("finish_reason"@) {
                Some(reason) => reason != JsonView::Null,
                None => false,
            };
            let content = or_empty(choice.str_in("delta"@, "content"@));
            if finished {
                SseChunkView::Done
            } else if content.len() == 0 {
                SseChunkView::Skip
            } else {
                SseChunkView::TextDelta(content)
            }
        },
    }
}

/// The error of an answer whose shape is not known.
pub open spec fn bad_shape(message: Seq<char>) -> DirectProviderErrorView {
    DirectProviderErrorView::plain(DirectProviderErrorClass::InvalidResponseShape, message)
}

/// What an event of the OpenAI Chat Completions API says.
pub open spec fn chat_chunk(value: JsonView) -> Result<SseChunkView, DirectProviderErrorView> {
    match value.array_at("choices"@) {
        None => Err(bad_shape("chat completion chunk missing choices"@)),
        Some(choices) => if choices.len() == 0 {
            Err(bad_shape("chat completion chunk has empty choices"@))
        } else {
            Ok(choice_chunk(choices[0]))
        },
    }
}

/// What a tool call in a chat event says, where it says something.
fn read_tool_call(call: &Json) -> (r: Option<SseChunk>)
    ensures
        match r {
            Some(chunk) => tool_call_chunk(call@) == Some(chunk@),
            None => tool_call_chunk(call@) is None,
        },
{
    let id = or_empty_string(call.str_at("id"));
    match call.str_in("function", "name") {
        Some(name) => {
            return Some(SseChunk::ToolCallStart { id, name: name.to_string() });
        },
        None => {},
    }
    match call.str_in("function", "arguments") {
        Some(partial_json) => {
            if !partial_json.is_empty() {
                return Some(SseChunk::ToolCallDelta { id, partial_json: partial_json.to_string() });
            }
        },
        None => {},
    }
    None
}

/// What the first choice of a chat event says.
fn read_choice(choice: &Json) -> (r: SseChunk)
    ensures
        r@ == choice_chunk(choice@),
{
    match choice.array_in("delta", "tool_calls") {
        Some(calls) => {
            if calls.len() > 0 {
                match read_tool_call(&calls[0]) {
                    Some(chunk) => {
                        return chunk;
                    },
                    None => {},
                }
            }
        },
        None => {},
    }
    match choice.get("finish_reason") {
        Some(reason) => {
            if !reason.is_null() {
                return SseChunk::Done;
            }
        },
        None => {},
    }
    let content = or_empty_string(choice.str_in("delta", "content"));
    if content.as_str().is_empty() {
        SseChunk::Skip
    } else {
        SseChunk::TextDelta(content)
    }
}

/// Reads an event of the OpenAI Chat Completions API.
pub fn parse_openai_chat_chunk(value: &Json) -> (r: Result<SseChunk, DirectProviderError>)
    ensures
        chunk_view(r) == chat_chunk(value@),
{
    match value.array_at("choices") {
        None => Err(
            DirectProviderError::new(
                DirectProviderErrorClass::InvalidResponseShape,
                "chat completion chunk missing choices",
            ),
        ),
        Some(choices) => {
            if choices.len() == 0 {
                Err(
                    DirectProviderError::new(
                        DirectProviderErrorClass::InvalidResponseShape,
                        "chat completion chunk has empty choices",
                    ),
                )
            } else {
                Ok(read_choice(&choices[0]))
            }
        },
    }
}

/// What an event of the Anthropic Messages API says. The type of the event comes
/// with it, outside of its data.
pub open spec fn messages_chunk(event: Seq<char>, value: JsonView) -> SseChunkView {
    let delta_type = value.str_in("delta"@, "type"@);
    if event == "content_block_start"@ && value.str_in("content_block"@, "type"@) == Some("tool_use"@) {
        SseChunkView::ToolCallStart {
            id: or_empty(value.str_in("content_block"@, "id"@)),
            name: or_empty(value.str_in("content_block"@, "name"@)),
        }
    } else if event == "content_block_delta"@ && delta_type == Some("text_delta"@) {
        text_chunk(or_empty(value.str_in("delta"@, "text"@)))
    } else if event == "content_block_delta"@ && delta_type == Some("input_json_delta"@) {
        arguments_chunk(or_empty(value.str_in("delta"@, "partial_json"@)))
    } else if event == "content_block_stop"@ {
        SseChunkView::ToolCallStop { id: Seq::empty() }
    } else {
        SseChunkView::Done
    }
}

/// Reads an event of the Anthropic Messages API.
pub fn parse_anthropic_chunk(event_type: &str, value: &Json) -> (r: Result<SseChunk, DirectProviderError>)
    ensures
        chunk_view(r) == Ok::<SseChunkView, DirectProviderErrorView>(messages_chunk(event_type@, value@)),
{
    proof {
        reveal_strlit("content_block_start");
        reveal_strlit("content_block_delta");
        reveal_strlit("content_block_stop");
        reveal_strlit("text_delta");
        reveal_strlit("input_json_delta");
        assert("content_block_start"@.len() != "content_block_stop"@.len());
        assert("content_block_delta"@.len() != "content_block_stop"@.len());
        assert("content_block_start"@[14] != "content_block_delta"@[14]);
        assert("text_delta"@.len() != "input_json_delta"@.len());
    }
    if str_eq(event_type, "content_block_start") {
        if member_is(value, "content_block", "type", "tool_use") {
            return Ok(
                SseChunk::ToolCallStart {
                    id: or_empty_string(value.str_in("content_block", "id")),
                    name: or_empty_string(value.str_in("content_block", "name")),
                },
            );
        }
        return Ok(SseChunk::Done);
    }
    if str_eq(event_type, "content_block_delta") {
        if member_is(value, "delta", "type", "text_delta") {
            return Ok(read_text_chunk(or_empty_string(value.str_in("delta", "text"))));
        }
        if member_is(value, "delta", "type", "input_json_delta") {
            return Ok(read_arguments_chunk(or_empty_string(value.str_in("delta", "partial_json"))));
        }
        return Ok(SseChunk::Done);
    }
    if str_eq(event_type, "content_block_stop") {
        return Ok(SseChunk::ToolCallStop { id: String::new() });
    }
    Ok(SseChunk::Done)
}

/// What an event of a provider of this kind says.
pub open spec fn value_chunk(
    kind: ProviderKind,
    event: Seq<char>,
    value: JsonView,
) -> Result<SseChunkView, DirectProviderErrorView> {
    match kind {
        ProviderKind::OpenAI => Ok(responses_chunk(value)),
        ProviderKind::OpenAICompatible => chat_chunk(value),
        ProviderKind::WarpHosted => Err(DirectProviderErrorView::warp_hosted()),
        _ => Ok(messages_chunk(event, value)),
    }
}

/// What an event says whose trimmed data reads as `value`.
pub open spec fn data_chunk(
    kind: ProviderKind,
    event: Seq<char>,
    data: Seq<char>,
    value: Option<JsonView>,
) -> Result<SseChunkView, DirectProviderErrorView> {
    let trimmed = text::trimmed(data);
    if trimmed.len() == 0 || trimmed == DONE_MARK@ {
        Ok(SseChunkView::Done)
    } else {
        match value {
            Some(value) => value_chunk(kind, event, value),
            None => Err(bad_shape("provider returned invalid SSE JSON"@)),
        }
    }
}

/// What an event of a stream says.
pub open spec fn sse_chunk(
    kind: ProviderKind,
    event: Seq<char>,
    data: Seq<char>,
) -> Result<SseChunkView, DirectProviderErrorView> {
    data_chunk(kind, event, data, serde_values::parsed_json(text::trimmed(data)))
}

/// Reads an event of a provider of this kind.
pub fn parse_value_chunk(kind: ProviderKind, event: &str, value: &Json) -> (r: Result<SseChunk, DirectProviderError>)
    ensures
        chunk_view(r) == value_chunk(kind, event@, value@),
{
    match kind {
        ProviderKind::OpenAI => parse_openai_responses_chunk(value),
        ProviderKind::OpenAICompatible => parse_openai_chat_chunk(value),
        ProviderKind::WarpHosted => Err(DirectProviderError::warp_hosted()),
        _ => parse_anthropic_chunk(event, value),
    }
}

/// Reads an event of a stream.
pub fn parse_sse_chunk(kind: ProviderKind, event: &str, data: &str) -> (r: Result<SseChunk, DirectProviderError>)
    ensures
        chunk_view(r) == sse_chunk(kind, event@, data@),
{
    let data = trim(data);
    if data.is_empty() || str_eq(data, DONE_MARK) {
        return Ok(SseChunk::Done);
    }
    match parse_json(data) {
        Some(value) => parse_value_chunk(kind, event, &value),
        None => Err(
            DirectProviderError::new(
                DirectProviderErrorClass::InvalidResponseShape,
                "provider returned invalid SSE JSON",
            ),
        ),
    }
}

// ---------------------------------------------------------------------------
// Putting chunks together
// ---------------------------------------------------------------------------

/// What a stream has given so far. A tool call is open from its start, or from
/// the first of its arguments, to its stop.
#[derive(Debug)]
pub struct StreamState {
    pub accumulated_text: String,
    pub tool_calls: Vec<ToolCall>,
    pub current_tool_id: Option<String>,
    pub current_tool_name: Option<String>,
    pub current_tool_input: String,
}

/// What a [`StreamState`] is.
pub struct StreamStateView {
    pub accumulated_text: Seq<char>,
    pub tool_calls: Seq<ToolCallView>,
    pub current_tool_id: Option<Seq<char>>,
    pub current_tool_name: Option<Seq<char>>,
    pub current_tool_input: Seq<char>,
}

impl View for StreamState {
    type V = StreamStateView;

    open spec fn view(&self) -> StreamStateView {
        StreamStateView {
            accumulated_text: self.accumulated_text@,
            tool_calls: self.tool_calls.deep_view(),
            current_tool_id: self.current_tool_id.deep_view(),
            current_tool_name: self.current_tool_name.deep_view(),
            current_tool_input: self.current_tool_input@,
        }
    }
}

/// What a turn gave: text, tool calls, and the HTTP status where it is known.
#[derive(Debug)]
pub struct StreamingResult {
    pub accumulated_text: String,
    pub tool_calls: Vec<ToolCall>,
    pub http_status: Option<HttpStatus>,
}

/// What a [`StreamingResult`] is.
pub struct StreamingResultView {
    pub accumulated_text: Seq<char>,
    pub tool_calls: Seq<ToolCallView>,
    pub http_status: Option<u16>,
}

impl View for StreamingResult {
    type V = StreamingResultView;

    open spec fn view(&self) -> StreamingResultView {
        StreamingResultView {
            accumulated_text: self.accumulated_text@,
            tool_calls: self.tool_calls.deep_view(),
            http_status: self.http_status.deep_view(),
        }
    }
}

/// The arguments of a tool call whose text reads as `value`: the text itself
/// where it is no JSON text.
pub open spec fn tool_input_of(raw: Seq<char>, value: Option<JsonView>) -> JsonView {
    match value {
        Some(value) => value,
        None => JsonView::Text(raw),
    }
}

/// The arguments of a tool call.
pub open spec fn tool_input(raw: Seq<char>) -> JsonView {
    tool_input_of(raw, serde_values::parsed_json(raw))
}

/// The arguments of a tool call whose text was read as `value`.
pub fn read_tool_input_as(raw: &str, value: Option<Json>) -> (r: Json)
    ensures
        r@ == tool_input_of(raw@, value.deep_view()),
{
    match value {
        Some(value) => value,
        None => Json::text(raw),
    }
}

/// The arguments of a tool call.
pub fn read_tool_input(raw: &str) -> (r: Json)
    ensures
        r@ == tool_input(raw@),
{
    read_tool_input_as(raw, parse_json(raw))
}

impl StreamStateView {
    /// Nothing has come yet.
    pub open spec fn initial() -> Self {
        StreamStateView {
            accumulated_text: Seq::empty(),
            tool_calls: Seq::empty(),
            current_tool_id: None,
            current_tool_name: None,
            current_tool_input: Seq::empty(),
        }
    }

    /// The open tool call is complete, under this id.
    pub open spec fn closed(self, id: Seq<char>) -> Self {
        StreamStateView {
            tool_calls: self.tool_calls.push(
                ToolCallView {
                    id,
                    name: or_empty(self.current_tool_name),
                    input: tool_input(self.current_tool_input),
                },
            ),
            current_tool_id: None,
            current_tool_name: None,
            current_tool_input: Seq::empty(),
            ..self
        }
    }

    /// The open tool call is complete where it has arguments.
    pub open spec fn flushed(self) -> Self {
        if self.current_tool_input.len() > 0 {
            self.closed(or_empty(self.current_tool_id))
        } else {
            self
        }
    }

    /// What the stream has given when a chunk has come that does not end it.
    pub open spec fn with_chunk(self, chunk: SseChunkView) -> Self {
        match chunk {
            SseChunkView::TextDelta(t) => StreamStateView { accumulated_text: self.accumulated_text + t, ..self },
            SseChunkView::ToolCallStart { id, name } => StreamStateView {
                current_tool_id: Some(id),
                current_tool_name: Some(name),
                current_tool_input: Seq::empty(),
                ..self.flushed()
            },
            SseChunkView::ToolCallDelta { partial_json, .. } => StreamStateView {
                current_tool_input: self.current_tool_input + partial_json,
                ..self
            },
            SseChunkView::ToolCallStop { id } => self.closed(
                match self.current_tool_id {
                    Some(current) => current,
                    None => id,
                },
            ),
            SseChunkView::Done => self,
            SseChunkView::Skip => self,
        }
    }

    /// What a stream that ends now has given.
    pub open spec fn result(self) -> StreamingResultView {
        StreamingResultView {
            accumulated_text: self.accumulated_text,
            tool_calls: self.flushed().tool_calls,
            http_status: None,
        }
    }
}

/// A signal of an event source.
#[derive(Debug)]
pub enum StreamSignal {
    /// The connection is open.
    Open,
    /// An event has come.
    Message { event: String, data: String },
    /// The stream has ended.
    StreamEnded,
    /// No answer came.
    Transport(TransportFailure),
    /// Something else went wrong.
    OtherFailure(String),
}

/// What a [`StreamSignal`] is.
pub enum StreamSignalView {
    Open,
    Message { event: Seq<char>, data: Seq<char> },
    StreamEnded,
    Transport(TransportFailureView),
    OtherFailure(Seq<char>),
}

impl DeepView for StreamSignal {
    type V = StreamSignalView;

    open spec fn deep_view(&self) -> StreamSignalView {
        match self {
            StreamSignal::Open => StreamSignalView::Open,
            StreamSignal::Message { event, data } => StreamSignalView::Message { event: event@, data: data@ },
            StreamSignal::StreamEnded => StreamSignalView::StreamEnded,
            StreamSignal::Transport(failure) => StreamSignalView::Transport(failure@),
            StreamSignal::OtherFailure(detail) => StreamSignalView::OtherFailure(detail@),
        }
    }
}

impl View for StreamSignal {
    type V = StreamSignalView;

    open spec fn view(&self) -> StreamSignalView {
        self.deep_view()
    }
}

/// How a stream goes on after a signal.
#[derive(Debug)]
pub enum StreamStep {
    Continue,
    Finished,
    Failed(DirectProviderError),
}

/// How a stream goes on after a signal, and what it has given by then.
pub enum StreamStepView {
    Continue(StreamStateView),
    Finished(StreamStateView),
    Failed(DirectProviderErrorView),
}

/// How a stream goes on after an event.
pub open spec fn after_chunk(
    state: StreamStateView,
    chunk: Result<SseChunkView, DirectProviderErrorView>,
) -> StreamStepView {
    match chunk {
        Ok(SseChunkView::Done) => StreamStepView::Finished(state),
        Ok(chunk) => StreamStepView::Continue(state.with_chunk(chunk)),
        Err(error) => StreamStepView::Failed(error),
    }
}

/// How a stream of a provider of this kind goes on after a signal.
pub open spec fn after_signal(kind: ProviderKind, state: StreamStateView, signal: StreamSignalView) -> StreamStepView {
    match signal {
        StreamSignalView::Open => StreamStepView::Continue(state),
        StreamSignalView::Message { event, data } => after_chunk(state, sse_chunk(kind, event, data)),
        StreamSignalView::StreamEnded => StreamStepView::Finished(state),
        StreamSignalView::Transport(failure) => StreamStepView::Failed(
            DirectProviderErrorView::of_transport(failure),
        ),
        StreamSignalView::OtherFailure(detail) => StreamStepView::Failed(
            DirectProviderErrorView::plain(DirectProviderErrorClass::Unknown, detail),
        ),
    }
}

/// What a stream with these signals gives from this state on.
pub open spec fn stream_outcome(
    kind: ProviderKind,
    state: StreamStateView,
    signals: Seq<StreamSignalView>,
) -> Result<StreamingResultView, DirectProviderErrorView>
    decreases signals.len(),
{
    if signals.len() == 0 {
        Ok(state.result())
    } else {
        match after_signal(kind, state, signals[0]) {
            StreamStepView::Continue(next) => stream_outcome(kind, next, signals.drop_first()),
            StreamStepView::Finished(last) => Ok(last.result()),
            StreamStepView::Failed(error) => Err(error),
        }
    }
}

/// What the outcome of a stream is.
pub open spec fn outcome_view(r: Result<StreamingResult, DirectProviderError>) -> Result<
    StreamingResultView,
    DirectProviderErrorView,
> {
    match r {
        Ok(result) => Ok(result@),
        Err(error) => Err(error@),
    }
}

/// Puts the open tool call behind the others, where it has no id under an empty
/// one, and where it has no name with an empty one.
pub fn flush_current_tool_call(
    tool_calls: &mut Vec<ToolCall>,
    current_tool_id: &mut Option<String>,
    current_tool_name: &mut Option<String>,
    current_tool_input: &mut String,
)
    ensures
        final(tool_calls).deep_view() == old(tool_calls).deep_view().push(
            ToolCallView {
                id: or_empty(old(current_tool_id).deep_view()),
                name: or_empty(old(current_tool_name).deep_view()),
                input: tool_input(old(current_tool_input)@),
            },
        ),
        *final(current_tool_id) is None,
        *final(current_tool_name) is None,
        final(current_tool_input)@ == Seq::<char>::empty(),
{
    let ghost before = tool_calls.deep_view();
    let input = read_tool_input(current_tool_input.as_str());
    let id = match current_tool_id.take() {
        Some(id) => id,
        None => String::new(),
    };
    let name = match current_tool_name.take() {
        Some(name) => name,
        None => String::new(),
    };
    let call = ToolCall { id, name, input };
    let ghost pushed = call@;
    tool_calls.push(call);
    *current_tool_input = String::new();
    proof {
        assert(tool_calls.deep_view() =~= before.push(pushed));
    }
}

impl StreamState {
    /// Nothing has come yet.
    pub fn new() -> (r: Self)
        ensures
            r@ == StreamStateView::initial(),
    {
        let r = StreamState {
            accumulated_text: String::new(),
            tool_calls: Vec::new(),
            current_tool_id: None,
            current_tool_name: None,
            current_tool_input: String::new(),
        };
        proof {
            assert(r@.tool_calls =~= Seq::<ToolCallView>::empty());
        }
        r
    }

    /// Completes the open tool call where it has arguments.
    fn flush(&mut self)
        ensures
            final(self)@ == old(self)@.flushed(),
    {
        if !self.current_tool_input.as_str().is_empty() {
            flush_current_tool_call(
                &mut self.tool_calls,
                &mut self.current_tool_id,
                &mut self.current_tool_name,
                &mut self.current_tool_input,
            );
        }
    }

    /// Adds a chunk. The end of a stream adds nothing.
    pub fn absorb(&mut self, chunk: SseChunk)
        ensures
            final(self)@ == old(self)@.with_chunk(chunk@),
    {
        match chunk {
            SseChunk::TextDelta(t) => {
                self.accumulated_text.append(t.as_str());
            },
            SseChunk::ToolCallStart { id, name } => {
                self.flush();
                self.current_tool_id = Some(id);
                self.current_tool_name = Some(name);
                self.current_tool_input = String::new();
            },
            SseChunk::ToolCallDelta { partial_json, .. } => {
                self.current_tool_input.append(partial_json.as_str());
            },
            SseChunk::ToolCallStop { id } => {
                if self.current_tool_id.is_none() {
                    self.current_tool_id = Some(id);
                }
                flush_current_tool_call(
                    &mut self.tool_calls,
                    &mut self.current_tool_id,
                    &mut self.current_tool_name,
                    &mut self.current_tool_input,
                );
            },
            SseChunk::Done => {},
            SseChunk::Skip => {},
        }
    }

    /// Takes a signal of the stream of a provider of this kind in.
    pub fn step(&mut self, kind: ProviderKind, signal: &StreamSignal) -> (r: StreamStep)
        ensures
            match r {
                StreamStep::Continue => after_signal(kind, old(self)@, signal@) == StreamStepView::Continue(
                    final(self)@,
                ),
                StreamStep::Finished => after_signal(kind, old(self)@, signal@) == StreamStepView::Finished(
                    final(self)@,
                ),
                StreamStep::Failed(error) => after_signal(kind, old(self)@, signal@) == StreamStepView::Failed(
                    error@,
                ) && final(self)@ == old(self)@,
            },
    {
        match signal {
            StreamSignal::Open => StreamStep::Continue,
            StreamSignal::Message { event, data } => match parse_sse_chunk(kind, event.as_str(), data.as_str()) {
                Ok(SseChunk::Done) => StreamStep::Finished,
                Ok(chunk) => {
                    self.absorb(chunk);
                    StreamStep::Continue
                },
                Err(error) => StreamStep::Failed(error),
            },
            StreamSignal::StreamEnded => StreamStep::Finished,
            StreamSignal::Transport(failure) => StreamStep::Failed(DirectProviderError::from_transport(failure)),
            StreamSignal::OtherFailure(detail) => StreamStep::Failed(
                DirectProviderError::new(DirectProviderErrorClass::Unknown, detail.as_str()),
            ),
        }
    }

    /// What a stream that ends now has given.
    pub fn finish(self) -> (r: StreamingResult)
        ensures
            r@ == self@.result(),
    {
        let mut state = self;
        state.flush();
        StreamingResult {
            accumulated_text: state.accumulated_text,
            tool_calls: state.tool_calls,
            http_status: None,
        }
    }
}

/// What the stream of a provider of this kind gives whose signals were these,
/// up to the one that ends it, or all where none does.
pub fn stream_to_result(signals: &[StreamSignal], kind: ProviderKind) -> (r: Result<
    StreamingResult,
    DirectProviderError,
>)
    ensures
        outcome_view(r) == stream_outcome(kind, StreamStateView::initial(), signals.deep_view()),
{
    let mut state = StreamState::new();
    let ghost all = signals.deep_view();
    proof {
        assert(all.skip(0) =~= all);
    }
    let mut i: usize = 0;
    while i < signals.len()
        invariant
            i <= signals@.len(),
            all == signals.deep_view(),
            stream_outcome(kind, StreamStateView::initial(), all) == stream_outcome(
                kind,
                state@,
                all.skip(i as int),
            ),
        decreases signals@.len() - i,
    {
        proof {
            assert(all.skip(i as int)[0] == signals@[i as int]@);
            assert(all.skip(i as int).drop_first() =~= all.skip(i + 1));
        }
        match state.step(kind, &signals[i]) {
            StreamStep::Continue => {},
            StreamStep::Finished => {
                return Ok(state.finish());
            },
            StreamStep::Failed(error) => {
                return Err(error);
            },
        }
        i = i + 1;
    }
    Ok(state.finish())
}

// ---------------------------------------------------------------------------
// Laws
// ---------------------------------------------------------------------------

/// What the stream has given when these chunks have come.
pub open spec fn with_chunks(state: StreamStateView, chunks: Seq<SseChunkView>) -> StreamStateView
    decreases chunks.len(),
{
    if chunks.len() == 0 {
        state
    } else {
        with_chunks(state, chunks.drop_last()).with_chunk(chunks.last())
    }
}

/// The texts in chunks, one after the other.
pub open spec fn texts_of(chunks: Seq<SseChunkView>) -> Seq<char>
    decreases chunks.len(),
{
    if chunks.len() == 0 {
        Seq::empty()
    } else {
        match chunks.last() {
            SseChunkView::TextDelta(t) => texts_of(chunks.drop_last()) + t,
            _ => texts_of(chunks.drop_last()),
        }
    }
}

/// The arguments in chunks, one after the other.
pub open spec fn arguments_of(chunks: Seq<SseChunkView>) -> Seq<char>
    decreases chunks.len(),
{
    if chunks.len() == 0 {
        Seq::empty()
    } else {
        match chunks.last() {
            SseChunkView::ToolCallDelta { partial_json, .. } => arguments_of(chunks.drop_last()) + partial_json,
            _ => arguments_of(chunks.drop_last()),
        }
    }
}

/// The text of an answer is that of its chunks, one after the other, whatever
/// tool calls come between them.
pub proof fn law_text_is_the_texts_in_order(state: StreamStateView, chunks: Seq<SseChunkView>)
    ensures
        with_chunks(state, chunks).accumulated_text == state.accumulated_text + texts_of(chunks),
    decreases chunks.len(),
{
    if chunks.len() > 0 {
        law_text_is_the_texts_in_order(state, chunks.drop_last());
        assert(with_chunks(state, chunks).accumulated_text =~= state.accumulated_text + texts_of(chunks));
    } else {
        assert(state.accumulated_text + texts_of(chunks) =~= state.accumulated_text);
    }
}

/// A tool call that starts, gets its arguments piece by piece, with text between
/// them, and stops, gives one call: with the id and the name of its start and
/// the arguments put together.
pub proof fn law_tool_call_is_put_together(
    state: StreamStateView,
    id: Seq<char>,
    name: Seq<char>,
    pieces: Seq<SseChunkView>,
    stop_id: Seq<char>,
)
    requires
        forall|i: int|
            0 <= i < pieces.len() ==> ((#[trigger] pieces[i]) is ToolCallDelta || pieces[i] is TextDelta
                || pieces[i] is Skip),
    ensures
        ({
            let started = state.with_chunk(SseChunkView::ToolCallStart { id, name });
            let stopped = with_chunks(started, pieces).with_chunk(SseChunkView::ToolCallStop { id: stop_id });
            &&& stopped.tool_calls == started.tool_calls.push(
                ToolCallView { id, name, input: tool_input(arguments_of(pieces)) },
            )
            &&& stopped.current_tool_id is None
            &&& stopped.current_tool_input.len() == 0
        }),
{
    let started = state.with_chunk(SseChunkView::ToolCallStart { id, name });
    lemma_open_call(started, pieces);
    assert(started.current_tool_input + arguments_of(pieces) =~= arguments_of(pieces));
}

/// Pieces of arguments and text leave a tool call open.
proof fn lemma_open_call(state: StreamStateView, pieces: Seq<SseChunkView>)
    requires
        forall|i: int|
            0 <= i < pieces.len() ==> ((#[trigger] pieces[i]) is ToolCallDelta || pieces[i] is TextDelta
                || pieces[i] is Skip),
    ensures
        with_chunks(state, pieces).tool_calls == state.tool_calls,
        with_chunks(state, pieces).current_tool_id == state.current_tool_id,
        with_chunks(state, pieces).current_tool_name == state.current_tool_name,
        with_chunks(state, pieces).current_tool_input == state.current_tool_input + arguments_of(pieces),
    decreases pieces.len(),
{
    if pieces.len() > 0 {
        let front = pieces.drop_last();
        assert forall|i: int| 0 <= i < front.len() implies ((#[trigger] front[i]) is ToolCallDelta
            || front[i] is TextDelta || front[i] is Skip) by {
            assert(front[i] == pieces[i]);
        }
        assert(pieces[pieces.len() - 1] == pieces.last());
        lemma_open_call(state, front);
        assert(with_chunks(state, pieces).current_tool_input =~= state.current_tool_input + arguments_of(pieces));
    } else {
        assert(state.current_tool_input + arguments_of(pieces) =~= state.current_tool_input);
    }
}

/// Arguments that have come are never lost: when the stream ends or another call
/// starts, the open call is completed with them.
pub proof fn law_open_call_is_completed(state: StreamStateView, id: Seq<char>, name: Seq<char>)
    requires
        state.current_tool_input.len() > 0,
    ensures
        ({
            let call = ToolCallView {
                id: or_empty(state.current_tool_id),
                name: or_empty(state.current_tool_name),
                input: tool_input(state.current_tool_input),
            };
            &&& state.result().tool_calls == state.tool_calls.push(call)
            &&& state.with_chunk(SseChunkView::ToolCallStart { id, name }).tool_calls == state.tool_calls.push(call)
        }),
{
}

/// What a stream has given is not taken back: text and calls only grow.
pub proof fn law_streams_only_grow(state: StreamStateView, chunk: SseChunkView)
    ensures
        state.accumulated_text.is_prefix_of(state.with_chunk(chunk).accumulated_text),
        state.tool_calls.is_prefix_of(state.with_chunk(chunk).tool_calls),
        state.tool_calls.is_prefix_of(state.result().tool_calls),
{
}

/// What comes after the end of a stream, or after a failure, makes no
/// difference.
pub proof fn law_nothing_counts_after_the_end(
    kind: ProviderKind,
    state: StreamStateView,
    signals: Seq<StreamSignalView>,
    more: Seq<StreamSignalView>,
    other: Seq<StreamSignalView>,
)
    requires
        exists|i: int| 0 <= i < signals.len() && ends_stream(kind, #[trigger] signals[i]),
    ensures
        stream_outcome(kind, state, signals + more) == stream_outcome(kind, state, signals + other),
    decreases signals.len(),
{
    assert((signals + more)[0] == signals[0]);
    assert((signals + other)[0] == signals[0]);
    match after_signal(kind, state, signals[0]) {
        StreamStepView::Continue(next) => {
            let rest = signals.drop_first();
            let i = choose|i: int| 0 <= i < signals.len() && ends_stream(kind, #[trigger] signals[i]);
            assert(i > 0);
            assert(rest[i - 1] == signals[i]);
            law_nothing_counts_after_the_end(kind, next, rest, more, other);
            assert((signals + more).drop_first() =~= rest + more);
            assert((signals + other).drop_first() =~= rest + other);
        },
        _ => {},
    }
}

/// Does a signal end the stream, whatever came before it?
pub open spec fn ends_stream(kind: ProviderKind, signal: StreamSignalView) -> bool {
    match signal {
        StreamSignalView::Open => false,
        StreamSignalView::Message { event, data } => match sse_chunk(kind, event, data) {
            Ok(SseChunkView::Done) => true,
            Ok(_) => false,
            Err(_) => true,
        },
        _ => true,
    }
}

/// An event with the mark of the end, with white space or without, ends a stream
/// of every kind of provider.
pub proof fn law_done_mark_ends_every_stream(kind: ProviderKind, event: Seq<char>, data: Seq<char>)
    requires
        text::trimmed(data) == DONE_MARK@,
    ensures
        ends_stream(kind, StreamSignalView::Message { event, data }),
        sse_chunk(kind, event, data) == Ok::<SseChunkView, DirectProviderErrorView>(SseChunkView::Done),
{
}

/// The value in an event: nothing where the event has no data or only the mark
/// of the end, or where its data is no JSON text, and for any other signal.
pub open spec fn value_in(signal: StreamSignalView) -> Option<JsonView> {
    match signal {
        StreamSignalView::Message { data, .. } => {
            let trimmed = text::trimmed(data);
            if trimmed.len() == 0 || trimmed == "[DONE]"@ {
                None
            } else {
                serde_values::parsed_json(trimmed)
            }
        },
        _ => None,
    }
}

/// Is this the event of the Anthropic Messages API with this type?
pub open spec fn is_event(signal: StreamSignalView, name: Seq<char>) -> bool {
    signal matches StreamSignalView::Message { event, .. } && event == name
}

/// Is `choice` the first choice of a chat event?
pub open spec fn has_first_choice(signal: StreamSignalView, choice: JsonView) -> bool {
    value_in(signal) matches Some(value) && value.array_at("choices"@) matches Some(choices) && choices.len() > 0
        && choices[0] == choice
}

/// Is `call` the first tool call of a choice?
pub open spec fn has_first_call(choice: JsonView, call: JsonView) -> bool {
    choice.array_in("delta"@, "tool_calls"@) matches Some(calls) && calls.len() > 0 && calls[0] == call
}

/// Has a choice no tool call?
pub open spec fn has_no_call(choice: JsonView) -> bool {
    choice.array_in("delta"@, "tool_calls"@) matches Some(calls) ==> calls.len() == 0
}

/// Has a choice no reason to finish?
pub open spec fn is_unfinished(choice: JsonView) -> bool {
    choice.get("finish_reason"@) is None || choice.get("finish_reason"@) == Some(JsonView::Null)
}

/// Does an event of a provider of this kind give this text, which is not empty?
pub open spec fn gives_text(kind: ProviderKind, signal: StreamSignalView, t: Seq<char>) -> bool {
    &&& t.len() > 0
    &&& match kind {
        ProviderKind::OpenAI => value_in(signal) matches Some(value) && value.str_in("delta"@, "text"@) == Some(t) && (
        value.str_at("type"@) == Some("response.output_text.delta"@) || value.str_at("type"@) == Some(
            "response.reasoning_text.delta"@,
        )),
        ProviderKind::OpenAICompatible => exists|choice: JsonView| #[trigger]
            has_first_choice(signal, choice) && has_no_call(choice) && is_unfinished(choice) && choice.str_in(
                "delta"@,
                "content"@,
            ) == Some(t),
        ProviderKind::WarpHosted => false,
        _ => value_in(signal) matches Some(value) && is_event(signal, "content_block_delta"@) && value.str_in(
            "delta"@,
            "type"@,
        ) == Some("text_delta"@) && value.str_in("delta"@, "text"@) == Some(t),
    }
}

/// Is `t` the text that was found, or empty where none was?
pub open spec fn is_or_lacks(found: Option<Seq<char>>, t: Seq<char>) -> bool {
    found == Some(t) || (found is None && t.len() == 0)
}

/// Does an event of a provider of this kind begin a tool call with this id and
/// name?
pub open spec fn begins_call(kind: ProviderKind, signal: StreamSignalView, id: Seq<char>, name: Seq<char>) -> bool {
    match kind {
        ProviderKind::OpenAI => value_in(signal) matches Some(value) && value.str_at("type"@) == Some(
            "response.output_item.added"@,
        ) && value.str_in("item"@, "type"@) == Some("function_call"@) && is_or_lacks(
            value.str_in("item"@, "id"@),
            id,
        ) && is_or_lacks(value.str_in("item"@, "name"@), name),
        ProviderKind::OpenAICompatible => exists|choice: JsonView, call: JsonView| #[trigger]
            has_first_choice(signal, choice) && #[trigger] has_first_call(choice, call) && is_or_lacks(
                call.str_at("id"@),
                id,
            ) && call.str_in("function"@, "name"@) == Some(name),
        ProviderKind::WarpHosted => false,
        _ => value_in(signal) matches Some(value) && is_event(signal, "content_block_start"@) && value.str_in(
            "content_block"@,
            "type"@,
        ) == Some("tool_use"@) && is_or_lacks(value.str_in("content_block"@, "id"@), id) && is_or_lacks(
            value.str_in("content_block"@, "name"@),
            name,
        ),
    }
}

/// Does an event of a provider of this kind give a piece, which is not empty, of
/// the arguments of the open tool call?
pub open spec fn gives_arguments(kind: ProviderKind, signal: StreamSignalView, piece: Seq<char>) -> bool {
    &&& piece.len() > 0
    &&& match kind {
        ProviderKind::OpenAI => value_in(signal) matches Some(value) && value.str_at("type"@) == Some(
            "response.function_call_arguments.delta"@,
        ) && value.str_in("delta"@, "text"@) == Some(piece),
        ProviderKind::OpenAICompatible => exists|choice: JsonView, call: JsonView| #[trigger]
            has_first_choice(signal, choice) && #[trigger] has_first_call(choice, call) && call.str_in(
                "function"@,
                "name"@,
            ) is None && call.str_in("function"@, "arguments"@) == Some(piece),
        ProviderKind::WarpHosted => false,
        _ => value_in(signal) matches Some(value) && is_event(signal, "content_block_delta"@) && value.str_in(
            "delta"@,
            "type"@,
        ) == Some("input_json_delta"@) && value.str_in("delta"@, "partial_json"@) == Some(piece),
    }
}

/// Does an event of a provider of this kind end the open tool call? A chat has no
/// such event.
pub open spec fn ends_call(kind: ProviderKind, signal: StreamSignalView) -> bool {
    match kind {
        ProviderKind::OpenAI => value_in(signal) matches Some(value) && value.str_at("type"@) == Some(
            "response.output_item.done"@,
        ) && value.str_in("item"@, "type"@) == Some("function_call"@),
        ProviderKind::OpenAICompatible => false,
        ProviderKind::WarpHosted => false,
        _ => is_event(signal, "content_block_stop"@) && value_in(signal) is Some,
    }
}

/// The types of events are told apart.
proof fn lemma_event_types()
    ensures
        "response.output_text.delta"@ != "response.function_call_arguments.delta"@,
        "response.output_text.delta"@ != "response.output_item.added"@,
        "response.output_text.delta"@ != "response.output_item.done"@,
        "response.reasoning_text.delta"@ != "response.function_call_arguments.delta"@,
        "response.reasoning_text.delta"@ != "response.output_item.added"@,
        "response.reasoning_text.delta"@ != "response.output_item.done"@,
        "response.function_call_arguments.delta"@ != "response.output_item.added"@,
        "response.function_call_arguments.delta"@ != "response.output_item.done"@,
        "response.output_item.added"@ != "response.output_item.done"@,
        "content_block_start"@ != "content_block_delta"@,
        "content_block_start"@ != "content_block_stop"@,
        "content_block_delta"@ != "content_block_stop"@,
        "text_delta"@ != "input_json_delta"@,
        "response.output_text.delta"@.len() > 0,
        "response.reasoning_text.delta"@.len() > 0,
        "response.function_call_arguments.delta"@.len() > 0,
        "response.output_item.added"@.len() > 0,
        "response.output_item.done"@.len() > 0,
{
    reveal_strlit("response.output_text.delta");
    reveal_strlit("response.reasoning_text.delta");
    reveal_strlit("response.function_call_arguments.delta");
    reveal_strlit("response.output_item.added");
    reveal_strlit("response.output_item.done");
    reveal_strlit("content_block_start");
    reveal_strlit("content_block_delta");
    reveal_strlit("content_block_stop");
    reveal_strlit("text_delta");
    reveal_strlit("input_json_delta");
    assert("response.output_text.delta"@.len() == 26);
    assert("response.reasoning_text.delta"@.len() == 29);
    assert("response.function_call_arguments.delta"@.len() == 38);
    assert("response.output_item.added"@.len() == 26);
    assert("response.output_item.done"@.len() == 25);
    assert("response.output_text.delta"@[16] == 't');
    assert("response.output_item.added"@[16] == 'i');
    assert("content_block_start"@.len() == 19);
    assert("content_block_stop"@.len() == 18);
    assert("content_block_delta"@.len() == 19);
    assert("content_block_start"@[14] == 's');
    assert("content_block_delta"@[14] == 'd');
    assert("text_delta"@.len() == 10);
    assert("input_json_delta"@.len() == 16);
}

/// The text that an event gives is passed on as it stands, white space included.
pub proof fn law_text_is_passed_on(kind: ProviderKind, event: Seq<char>, data: Seq<char>, t: Seq<char>)
    requires
        gives_text(kind, StreamSignalView::Message { event, data }, t),
    ensures
        sse_chunk(kind, event, data) == Ok::<SseChunkView, DirectProviderErrorView>(SseChunkView::TextDelta(t)),
{
    lemma_event_types();
}

/// A tool call begins with the id and the name that the event gives it.
pub proof fn law_call_begins_with_its_id_and_name(
    kind: ProviderKind,
    event: Seq<char>,
    data: Seq<char>,
    id: Seq<char>,
    name: Seq<char>,
)
    requires
        begins_call(kind, StreamSignalView::Message { event, data }, id, name),
    ensures
        sse_chunk(kind, event, data) == Ok::<SseChunkView, DirectProviderErrorView>(
            SseChunkView::ToolCallStart { id, name },
        ),
{
    lemma_event_types();
    if id.len() == 0 {
        assert(id =~= Seq::empty());
    }
    if name.len() == 0 {
        assert(name =~= Seq::empty());
    }
}

/// The arguments that an event gives are passed on as they stand.
pub proof fn law_arguments_are_passed_on(kind: ProviderKind, event: Seq<char>, data: Seq<char>, piece: Seq<char>)
    requires
        gives_arguments(kind, StreamSignalView::Message { event, data }, piece),
    ensures
        sse_chunk(kind, event, data) matches Ok(SseChunkView::ToolCallDelta { partial_json, .. }) && partial_json
            == piece,
{
    lemma_event_types();
}

/// An event that ends a tool call ends it.
pub proof fn law_call_ends_where_it_says(kind: ProviderKind, event: Seq<char>, data: Seq<char>)
    requires
        ends_call(kind, StreamSignalView::Message { event, data }),
    ensures
        sse_chunk(kind, event, data) matches Ok(SseChunkView::ToolCallStop { .. }),
{
    lemma_event_types();
}

/// A stream whose events give these texts and then ends gives all of them, one
/// after the other, and no tool call.
pub proof fn law_stream_gives_all_its_text(
    kind: ProviderKind,
    signals: Seq<StreamSignalView>,
    texts: Seq<Seq<char>>,
    last: Seq<StreamSignalView>,
)
    requires
        signals.len() == texts.len(),
        forall|i: int| 0 <= i < signals.len() ==> gives_text(kind, #[trigger] signals[i], texts[i]),
        last.len() == 0 || last[0] is StreamEnded,
    ensures
        stream_outcome(kind, StreamStateView::initial(), signals + last) matches Ok(result)
            && result.accumulated_text == texts.flatten() && result.tool_calls.len() == 0,
{
    lemma_texts_are_added(kind, StreamStateView::initial(), signals, texts, last);
    assert(StreamStateView::initial().accumulated_text + texts.flatten() =~= texts.flatten());
}

/// Texts are added to what the stream has given.
proof fn lemma_texts_are_added(
    kind: ProviderKind,
    state: StreamStateView,
    signals: Seq<StreamSignalView>,
    texts: Seq<Seq<char>>,
    rest: Seq<StreamSignalView>,
)
    requires
        signals.len() == texts.len(),
        forall|i: int| 0 <= i < signals.len() ==> gives_text(kind, #[trigger] signals[i], texts[i]),
    ensures
        stream_outcome(kind, state, signals + rest) == stream_outcome(
            kind,
            StreamStateView { accumulated_text: state.accumulated_text + texts.flatten(), ..state },
            rest,
        ),
    decreases signals.len(),
{
    if signals.len() == 0 {
        assert(signals + rest =~= rest);
        assert(state.accumulated_text + texts.flatten() =~= state.accumulated_text);
    } else {
        let event = signals[0]->Message_event;
        let data = signals[0]->data;
        assert(gives_text(kind, signals[0], texts[0]));
        assert(signals[0] == StreamSignalView::Message { event, data });
        law_text_is_passed_on(kind, event, data, texts[0]);
        let next = StreamStateView { accumulated_text: state.accumulated_text + texts[0], ..state };
        let later = signals.drop_first();
        let others = texts.drop_first();
        assert forall|i: int| 0 <= i < later.len() implies gives_text(kind, #[trigger] later[i], others[i]) by {
            assert(gives_text(kind, signals[i + 1], texts[i + 1]));
        }
        lemma_texts_are_added(kind, next, later, others, rest);
        assert((signals + rest)[0] == signals[0]);
        assert((signals + rest).drop_first() =~= later + rest);
        assert(next.accumulated_text + others.flatten() =~= state.accumulated_text + texts.flatten());
    }
}

/// Arguments are added to those of the open tool call.
proof fn lemma_arguments_are_added(
    kind: ProviderKind,
    state: StreamStateView,
    signals: Seq<StreamSignalView>,
    pieces: Seq<Seq<char>>,
    rest: Seq<StreamSignalView>,
)
    requires
        signals.len() == pieces.len(),
        forall|i: int| 0 <= i < signals.len() ==> gives_arguments(kind, #[trigger] signals[i], pieces[i]),
    ensures
        stream_outcome(kind, state, signals + rest) == stream_outcome(
            kind,
            StreamStateView { current_tool_input: state.current_tool_input + pieces.flatten(), ..state },
            rest,
        ),
    decreases signals.len(),
{
    if signals.len() == 0 {
        assert(signals + rest =~= rest);
        assert(state.current_tool_input + pieces.flatten() =~= state.current_tool_input);
    } else {
        let event = signals[0]->Message_event;
        let data = signals[0]->data;
        assert(gives_arguments(kind, signals[0], pieces[0]));
        assert(signals[0] == StreamSignalView::Message { event, data });
        law_arguments_are_passed_on(kind, event, data, pieces[0]);
        let next = StreamStateView { current_tool_input: state.current_tool_input + pieces[0], ..state };
        let later = signals.drop_first();
        let others = pieces.drop_first();
        assert forall|i: int| 0 <= i < later.len() implies gives_arguments(kind, #[trigger] later[i], others[i]) by {
            assert(gives_arguments(kind, signals[i + 1], pieces[i + 1]));
        }
        lemma_arguments_are_added(kind, next, later, others, rest);
        assert((signals + rest)[0] == signals[0]);
        assert((signals + rest).drop_first() =~= later + rest);
        assert(next.current_tool_input + others.flatten() =~= state.current_tool_input + pieces.flatten());
    }
}

/// Does a group of events give one tool call? The first begins it, the others
/// give its arguments piece by piece, and where the provider has such an event,
/// the last ends it. Without one, there must be arguments.
pub open spec fn gives_call(
    kind: ProviderKind,
    group: Seq<StreamSignalView>,
    id: Seq<char>,
    name: Seq<char>,
    pieces: Seq<Seq<char>>,
) -> bool {
    &&& group.len() > 0
    &&& begins_call(kind, group[0], id, name)
    &&& forall|i: int|
        0 <= i < pieces.len() && i + 1 < group.len() ==> gives_arguments(kind, group[i + 1], #[trigger] pieces[i])
    &&& if group.len() == pieces.len() + 2 {
        ends_call(kind, group[group.len() - 1])
    } else {
        group.len() == pieces.len() + 1 && pieces.len() > 0
    }
}

/// A tool call that a stream gives, with the pieces of its arguments.
pub struct StreamedCall {
    pub id: Seq<char>,
    pub name: Seq<char>,
    pub pieces: Seq<Seq<char>>,
}

/// A stream that gives tool calls, one after the other, gives each of them, in
/// their order: with its id, its name, and as its input what the pieces of its
/// arguments read as when they are put together, or that text itself where it is
/// no JSON text.
pub proof fn law_stream_gives_all_its_calls(
    kind: ProviderKind,
    groups: Seq<Seq<StreamSignalView>>,
    calls: Seq<StreamedCall>,
    last: Seq<StreamSignalView>,
)
    requires
        groups.len() == calls.len(),
        forall|i: int|
            0 <= i < groups.len() ==> gives_call(
                kind,
                #[trigger] groups[i],
                calls[i].id,
                calls[i].name,
                calls[i].pieces,
            ),
        last.len() == 0 || last[0] is StreamEnded,
    ensures
        stream_outcome(kind, StreamStateView::initial(), groups.flatten() + last) matches Ok(result) && {
            &&& result.accumulated_text.len() == 0
            &&& result.tool_calls.len() == calls.len()
            &&& forall|i: int|
                0 <= i < calls.len() ==> {
                    let call = #[trigger] result.tool_calls[i];
                    let raw = calls[i].pieces.flatten();
                    &&& call.id == calls[i].id
                    &&& call.name == calls[i].name
                    &&& call.input == match serde_values::parsed_json(raw) {
                        Some(value) => value,
                        None => JsonView::Text(raw),
                    }
                }
        },
{
    lemma_calls_are_added(kind, StreamStateView::initial(), groups, calls, last);
}

/// Texts that are not empty give a text that is not empty.
proof fn lemma_pieces_are_not_empty(pieces: Seq<Seq<char>>)
    requires
        pieces.len() > 0,
        pieces[0].len() > 0,
    ensures
        pieces.flatten().len() > 0,
{
    assert(pieces.flatten() == pieces[0] + pieces.drop_first().flatten());
}

/// Tool calls are added to those that the stream has given.
proof fn lemma_calls_are_added(
    kind: ProviderKind,
    state: StreamStateView,
    groups: Seq<Seq<StreamSignalView>>,
    calls: Seq<StreamedCall>,
    last: Seq<StreamSignalView>,
)
    requires
        groups.len() == calls.len(),
        forall|i: int|
            0 <= i < groups.len() ==> gives_call(
                kind,
                #[trigger] groups[i],
                calls[i].id,
                calls[i].name,
                calls[i].pieces,
            ),
        last.len() == 0 || last[0] is StreamEnded,
    ensures
        stream_outcome(kind, state, groups.flatten() + last) matches Ok(result) && {
            let before = state.flushed().tool_calls;
            &&& result.accumulated_text == state.accumulated_text
            &&& result.tool_calls.len() == before.len() + calls.len()
            &&& forall|i: int| 0 <= i < before.len() ==> (#[trigger] result.tool_calls[i]) == before[i]
            &&& forall|i: int|
                before.len() <= i < result.tool_calls.len() ==> (#[trigger] result.tool_calls[i]) == (ToolCallView {
                    id: calls[i - before.len()].id,
                    name: calls[i - before.len()].name,
                    input: tool_input(calls[i - before.len()].pieces.flatten()),
                })
        },
    decreases groups.len(),
{
    if groups.len() == 0 {
        assert(groups.flatten() + last =~= last);
    } else {
        let group = groups[0];
        let call = calls[0];
        assert(gives_call(kind, group, call.id, call.name, call.pieces));
        let rest = groups.drop_first().flatten() + last;
        let signals = groups.flatten() + last;
        assert(signals =~= group + rest);
        let before = state.flushed().tool_calls;
        let event = group[0]->Message_event;
        let data = group[0]->data;
        assert(group[0] == StreamSignalView::Message { event, data });
        law_call_begins_with_its_id_and_name(kind, event, data, call.id, call.name);
        let started = state.with_chunk(SseChunkView::ToolCallStart { id: call.id, name: call.name });
        let n = call.pieces.len() as int;
        let given = group.subrange(1, n + 1);
        let tail = group.skip(n + 1) + rest;
        assert(signals.drop_first() =~= given + tail);
        assert(signals[0] == group[0]);
        assert forall|i: int| 0 <= i < given.len() implies gives_arguments(kind, #[trigger] given[i], call.pieces[i]) by {
            assert(given[i] == group[i + 1]);
        }
        lemma_arguments_are_added(kind, started, given, call.pieces, tail);
        let open = StreamStateView { current_tool_input: started.current_tool_input + call.pieces.flatten(), ..started };
        assert(open.current_tool_input =~= call.pieces.flatten());
        let next = if group.len() == n + 2 {
            open.with_chunk(SseChunkView::ToolCallStop { id: Seq::empty() })
        } else {
            open
        };
        if group.len() == n + 2 {
            let stop = group[n + 1];
            let stop_event = stop->Message_event;
            let stop_data = stop->data;
            assert(stop == StreamSignalView::Message { event: stop_event, data: stop_data });
            law_call_ends_where_it_says(kind, stop_event, stop_data);
            assert(tail[0] == stop);
            assert(tail.drop_first() =~= rest);
        } else {
            assert(tail =~= rest);
            assert(gives_arguments(kind, group[1], call.pieces[0]));
            lemma_pieces_are_not_empty(call.pieces);
        }
        assert(stream_outcome(kind, state, signals) == stream_outcome(kind, next, rest));
        let later = groups.drop_first();
        let others = calls.drop_first();
        assert forall|i: int| 0 <= i < later.len() implies gives_call(
            kind,
            #[trigger] later[i],
            others[i].id,
            others[i].name,
            others[i].pieces,
        ) by {
            assert(later[i] == groups[i + 1]);
        }
        lemma_calls_are_added(kind, next, later, others, last);
        let after = next.flushed().tool_calls;
        assert(after == before.push(
            ToolCallView { id: call.id, name: call.name, input: tool_input(call.pieces.flatten()) },
        ));
        let result = stream_outcome(kind, state, signals)->Ok_0;
        assert forall|i: int| 0 <= i < before.len() implies (#[trigger] result.tool_calls[i]) == before[i] by {
            assert(after[i] == before[i]);
        }
        assert forall|i: int| before.len() <= i < result.tool_calls.len() implies (#[trigger] result.tool_calls[i]) == (
        ToolCallView {
            id: calls[i - before.len()].id,
            name: calls[i - before.len()].name,
            input: tool_input(calls[i - before.len()].pieces.flatten()),
        }) by {
            if i == before.len() {
                assert(result.tool_calls[i] == after[i]);
            } else {
                assert(others[i - after.len()] == calls[i - before.len()]);
            }
        }
    }
}

/// A chat ends where its first choice has a reason to finish and no tool call
/// that says something. Without such a reason and without text it goes on, and
/// nothing is added. A tool call without a name and without arguments says
/// nothing.
pub proof fn law_chat_goes_on_until_it_is_finished(
    event: Seq<char>,
    data: Seq<char>,
    choice: JsonView,
    state: StreamStateView,
)
    requires
        has_first_choice(StreamSignalView::Message { event, data }, choice),
        has_no_call(choice) || exists|call: JsonView| #[trigger]
            has_first_call(choice, call) && call.str_in("function"@, "name"@) is None && (call.str_in(
                "function"@,
                "arguments"@,
            ) matches Some(piece) ==> piece.len() == 0),
    ensures
        ({
            let step = after_signal(
                ProviderKind::OpenAICompatible,
                state,
                StreamSignalView::Message { event, data },
            );
            let content = choice.str_in("delta"@, "content"@);
            &&& !is_unfinished(choice) ==> step == StreamStepView::Finished(state)
            &&& is_unfinished(choice) && (content is None || content->0.len() == 0) ==> step
                == StreamStepView::Continue(state)
            &&& is_unfinished(choice) && content is Some && content->0.len() > 0 ==> step == StreamStepView::Continue(
                StreamStateView { accumulated_text: state.accumulated_text + content->0, ..state },
            )
        }),
{
}

/// An event without data, or with the mark of the end alone, ends the stream with
/// what it has given. One whose data is no JSON text is an error, and so is a
/// chat event without a choice.
pub proof fn law_unreadable_events_are_errors(
    kind: ProviderKind,
    event: Seq<char>,
    data: Seq<char>,
    state: StreamStateView,
)
    ensures
        ({
            let signal = StreamSignalView::Message { event, data };
            let step = after_signal(kind, state, signal);
            let trimmed = text::trimmed(data);
            let is_end = trimmed.len() == 0 || trimmed == "[DONE]"@;
            &&& is_end ==> step == StreamStepView::Finished(state)
            &&& !is_end && serde_values::parsed_json(trimmed) is None ==> (step matches StreamStepView::Failed(error)
                && error.class == DirectProviderErrorClass::InvalidResponseShape && error.message
                == "provider returned invalid SSE JSON"@)
            &&& kind == ProviderKind::OpenAICompatible && value_in(signal) is Some && value_in(signal)->0.array_at(
                "choices"@,
            ) is None ==> (step matches StreamStepView::Failed(error) && error.class
                == DirectProviderErrorClass::InvalidResponseShape && error.message
                == "chat completion chunk missing choices"@)
            &&& kind == ProviderKind::OpenAICompatible && value_in(signal) is Some && value_in(signal)->0.array_at(
                "choices"@,
            ) == Some(Seq::<JsonView>::empty()) ==> (step matches StreamStepView::Failed(error) && error.class
                == DirectProviderErrorClass::InvalidResponseShape && error.message
                == "chat completion chunk has empty choices"@)
            &&& kind == ProviderKind::WarpHosted && value_in(signal) is Some ==> step is Failed
        }),
{
}

/// An event of an OpenAI or Anthropic provider that gives no text, begins, goes
/// on with and ends no tool call ends the stream with what it has given; and a
/// text or a piece of arguments that is empty does too.
pub proof fn law_other_events_end_the_stream(
    kind: ProviderKind,
    event: Seq<char>,
    data: Seq<char>,
    state: StreamStateView,
)
    requires
        kind != ProviderKind::OpenAICompatible,
        kind != ProviderKind::WarpHosted,
        ({
            let signal = StreamSignalView::Message { event, data };
            &&& value_in(signal) is Some
            &&& !ends_call(kind, signal)
            &&& forall|t: Seq<char>| !#[trigger] gives_text(kind, signal, t)
            &&& forall|t: Seq<char>| !#[trigger] gives_arguments(kind, signal, t)
            &&& forall|id: Seq<char>, name: Seq<char>| !#[trigger] begins_call(kind, signal, id, name)
        }),
    ensures
        after_signal(kind, state, StreamSignalView::Message { event, data }) == StreamStepView::Finished(state),
{
    lemma_event_types();
    let signal = StreamSignalView::Message { event, data };
    let value = value_in(signal)->0;
    if kind == ProviderKind::OpenAI {
        assert(!gives_text(kind, signal, or_empty(value.str_in("delta"@, "text"@))));
        assert(!gives_arguments(kind, signal, or_empty(value.str_in("delta"@, "text"@))));
        assert(!begins_call(
            kind,
            signal,
            or_empty(value.str_in("item"@, "id"@)),
            or_empty(value.str_in("item"@, "name"@)),
        ));
    } else {
        assert(!gives_text(kind, signal, or_empty(value.str_in("delta"@, "text"@))));
        assert(!gives_arguments(kind, signal, or_empty(value.str_in("delta"@, "partial_json"@))));
        assert(!begins_call(
            kind,
            signal,
            or_empty(value.str_in("content_block"@, "id"@)),
            or_empty(value.str_in("content_block"@, "name"@)),
        ));
    }
}

/// A signal that is no event adds nothing: an open connection changes nothing,
/// the end of the stream leaves what it has given, and a failure leaves only its
/// error.
pub proof fn law_signals_without_events_add_nothing(
    kind: ProviderKind,
    state: StreamStateView,
    rest: Seq<StreamSignalView>,
    failure: TransportFailureView,
    detail: Seq<char>,
)
    ensures
        stream_outcome(kind, state, seq![StreamSignalView::Open] + rest) == stream_outcome(kind, state, rest),
        stream_outcome(kind, state, seq![StreamSignalView::StreamEnded] + rest) == stream_outcome(
            kind,
            state,
            Seq::empty(),
        ),
        stream_outcome(kind, state, seq![StreamSignalView::Transport(failure)] + rest) is Err,
        stream_outcome(kind, state, seq![StreamSignalView::OtherFailure(detail)] + rest) matches Err(error)
            && error.message == detail && error.class == DirectProviderErrorClass::Unknown,
{
    assert((seq![StreamSignalView::Open] + rest).drop_first() =~= rest);
    assert((seq![StreamSignalView::Open] + rest)[0] == StreamSignalView::Open);
    assert((seq![StreamSignalView::StreamEnded] + rest)[0] == StreamSignalView::StreamEnded);
    assert((seq![StreamSignalView::Transport(failure)] + rest)[0] == StreamSignalView::Transport(failure));
    assert((seq![StreamSignalView::OtherFailure(detail)] + rest)[0] == StreamSignalView::OtherFailure(detail));
}

/// An event that ends a tool call which never began gives a call without a name,
/// under the id that the event gives, and one without an id for Anthropic; one
/// that began keeps the id of its beginning.
pub proof fn law_ended_calls_keep_their_id(
    kind: ProviderKind,
    event: Seq<char>,
    data: Seq<char>,
    state: StreamStateView,
    id: Seq<char>,
)
    requires
        ends_call(kind, StreamSignalView::Message { event, data }),
        kind == ProviderKind::OpenAI ==> is_or_lacks(
            value_in(StreamSignalView::Message { event, data })->0.str_in("item"@, "id"@),
            id,
        ),
        kind != ProviderKind::OpenAI ==> id.len() == 0,
    ensures
        after_signal(kind, state, StreamSignalView::Message { event, data }) matches StreamStepView::Continue(next) && {
            &&& next.tool_calls.len() == state.tool_calls.len() + 1
            &&& state.tool_calls.is_prefix_of(next.tool_calls)
            &&& state.current_tool_id is None ==> next.tool_calls.last().id == id
            &&& state.current_tool_id matches Some(open) ==> next.tool_calls.last().id == open
            &&& state.current_tool_name matches Some(name) ==> next.tool_calls.last().name == name
            &&& state.current_tool_name is None ==> next.tool_calls.last().name.len() == 0
            &&& next.accumulated_text == state.accumulated_text
            &&& next.current_tool_id is None
        },
{
    lemma_event_types();
    if id.len() == 0 {
        assert(id =~= Seq::empty());
    }
}

} // verus!
