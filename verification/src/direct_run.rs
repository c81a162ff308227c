//! A request to a provider that the client talks to itself, from the first turn
//! to the last.
//!
//! A run asks the provider, runs the tools that the answer calls, and asks again
//! with what they gave, until an answer calls none. [`DirectRun`] decides what is
//! done next and what the client is told; whoever drives it sends the requests
//! and runs the tools.
use vstd::prelude::*;
use vstd::string::StringExecFns;

use crate::conversation::{ProviderMessage, ProviderMessageView};
use crate::direct_auth;
use crate::direct_auth::{http_request, AuthMaterial, AuthMaterialView};
use crate::direct_error::{DirectProviderError, DirectProviderErrorView};
use crate::direct_request;
use crate::direct_request::{
    build_followup_request, DirectProviderRequest, DirectProviderRequestView,
};
use crate::direct_stream::{StreamingResult, StreamingResultView};
use crate::direct_telemetry::{DirectProviderOutcome, DirectProviderOutcomeView};
use crate::http_message::{HttpMethod, HttpRequest, HttpRequestView};
use crate::http_status::HttpStatus;
use crate::provider_registry::{ResolvedProvider, ResolvedProviderView};
use crate::tools;
use crate::tools::{tool_results, ToolCall, ToolCallView, ToolDefinition, ToolDefinitionView};

verus! {

/// The turns of a run at most.
pub const MAX_TURNS: u32 = 10;

/// The ids of a run.
#[derive(Debug)]
pub struct RunIds {
    pub conversation_id: String,
    pub request_id: String,
    pub task_id: String,
    pub message_id: String,
}

/// What [`RunIds`] are.
pub struct RunIdsView {
    pub conversation_id: Seq<char>,
    pub request_id: Seq<char>,
    pub task_id: Seq<char>,
    pub message_id: Seq<char>,
}

impl View for RunIds {
    type V = RunIdsView;

    open spec fn view(&self) -> RunIdsView {
        RunIdsView {
            conversation_id: self.conversation_id@,
            request_id: self.request_id@,
            task_id: self.task_id@,
            message_id: self.message_id@,
        }
    }
}

/// Something that the client is to do.
#[derive(Debug, PartialEq, Eq)]
pub enum ClientAction {
    /// Create a task.
    CreateTask { task_id: String, description: String },
    /// Add a message of the agent to a task, or replace it.
    AddMessagesToTask { task_id: String, message_id: String, request_id: String, text: String },
}

/// What a [`ClientAction`] is.
pub enum ClientActionView {
    CreateTask { task_id: Seq<char>, description: Seq<char> },
    AddMessagesToTask { task_id: Seq<char>, message_id: Seq<char>, request_id: Seq<char>, text: Seq<char> },
}

impl DeepView for ClientAction {
    type V = ClientActionView;

    open spec fn deep_view(&self) -> ClientActionView {
        match self {
            ClientAction::CreateTask { task_id, description } => ClientActionView::CreateTask {
                task_id: task_id@,
                description: description@,
            },
            ClientAction::AddMessagesToTask { task_id, message_id, request_id, text } => {
                ClientActionView::AddMessagesToTask {
                    task_id: task_id@,
                    message_id: message_id@,
                    request_id: request_id@,
                    text: text@,
                }
            },
        }
    }
}

impl View for ClientAction {
    type V = ClientActionView;

    open spec fn view(&self) -> ClientActionView {
        self.deep_view()
    }
}

/// What the client is told.
#[derive(Debug, PartialEq, Eq)]
pub enum ResponseEvent {
    /// The run has begun.
    Init { conversation_id: String, request_id: String, run_id: String },
    /// The client is to do something.
    ClientActions(Vec<ClientAction>),
    /// The run is over.
    Finished,
    /// The run has failed.
    Failed(String),
}

/// What a [`ResponseEvent`] is.
pub enum ResponseEventView {
    Init { conversation_id: Seq<char>, request_id: Seq<char>, run_id: Seq<char> },
    ClientActions(Seq<ClientActionView>),
    Finished,
    Failed(Seq<char>),
}

impl DeepView for ResponseEvent {
    type V = ResponseEventView;

    open spec fn deep_view(&self) -> ResponseEventView {
        match self {
            ResponseEvent::Init { conversation_id, request_id, run_id } => ResponseEventView::Init {
                conversation_id: conversation_id@,
                request_id: request_id@,
                run_id: run_id@,
            },
            ResponseEvent::ClientActions(actions) => ResponseEventView::ClientActions(actions.deep_view()),
            ResponseEvent::Finished => ResponseEventView::Finished,
            ResponseEvent::Failed(message) => ResponseEventView::Failed(message@),
        }
    }
}

impl View for ResponseEvent {
    type V = ResponseEventView;

    open spec fn view(&self) -> ResponseEventView {
        self.deep_view()
    }
}

/// What is done next.
#[derive(Debug)]
pub enum RunAction {
    /// The request is sent, and its answer read as a stream.
    Send(HttpRequest),
    /// The tools are run, in this order.
    RunTools(Vec<ToolCall>),
    /// Nothing: the run is over, and this is how it went.
    Complete(DirectProviderOutcome),
}

/// What a [`RunAction`] is.
pub enum RunActionView {
    Send(HttpRequestView),
    RunTools(Seq<ToolCallView>),
    Complete(DirectProviderOutcomeView),
}

impl View for RunAction {
    type V = RunActionView;

    open spec fn view(&self) -> RunActionView {
        match self {
            RunAction::Send(request) => RunActionView::Send(request@),
            RunAction::RunTools(calls) => RunActionView::RunTools(calls.deep_view()),
            RunAction::Complete(outcome) => RunActionView::Complete(outcome@),
        }
    }
}

/// What a step of a run leads to: what the client is told, and what is done next.
#[derive(Debug)]
pub struct RunStep {
    pub events: Vec<ResponseEvent>,
    pub action: RunAction,
}

/// What a [`RunStep`] is.
pub struct RunStepView {
    pub events: Seq<ResponseEventView>,
    pub action: RunActionView,
}

impl View for RunStep {
    type V = RunStepView;

    open spec fn view(&self) -> RunStepView {
        RunStepView { events: self.events.deep_view(), action: self.action@ }
    }
}

/// A run: what it asks with, and how far it has come.
#[derive(Debug)]
pub struct DirectRun {
    pub provider: ResolvedProvider,
    pub auth: AuthMaterial,
    pub tools: Vec<ToolDefinition>,
    pub messages: Vec<ProviderMessage>,
    pub ids: RunIds,
    /// The description of the task, where one is created.
    pub description: String,
    /// Has the conversation no task yet?
    pub tasks_empty: bool,
    pub accumulated_text: String,
    pub sent_init: bool,
    pub sent_actions: bool,
    /// The turns before this one.
    pub turn: u32,
    /// The tool calls of this turn.
    pub pending: Vec<ToolCall>,
    /// The last HTTP status that is known.
    pub http_status: Option<HttpStatus>,
}

/// What a [`DirectRun`] is.
pub struct DirectRunView {
    pub provider: ResolvedProviderView,
    pub auth: AuthMaterialView,
    pub tools: Seq<ToolDefinitionView>,
    pub messages: Seq<ProviderMessageView>,
    pub ids: RunIdsView,
    pub description: Seq<char>,
    pub tasks_empty: bool,
    pub accumulated_text: Seq<char>,
    pub sent_init: bool,
    pub sent_actions: bool,
    pub turn: nat,
    pub pending: Seq<ToolCallView>,
    pub http_status: Option<u16>,
}

impl View for DirectRun {
    type V = DirectRunView;

    open spec fn view(&self) -> DirectRunView {
        DirectRunView {
            provider: self.provider@,
            auth: self.auth@,
            tools: self.tools.deep_view(),
            messages: self.messages.deep_view(),
            ids: self.ids@,
            description: self.description@,
            tasks_empty: self.tasks_empty,
            accumulated_text: self.accumulated_text@,
            sent_init: self.sent_init,
            sent_actions: self.sent_actions,
            turn: self.turn as nat,
            pending: self.pending.deep_view(),
            http_status: self.http_status.deep_view(),
        }
    }
}

/// A run that fails: the client is told, and the outcome is as given.
pub open spec fn failure_step(message: Seq<char>, outcome: DirectProviderOutcomeView) -> RunStepView {
    RunStepView { events: seq![ResponseEventView::Failed(message)], action: RunActionView::Complete(outcome) }
}

impl DirectRunView {
    /// A run that has not asked yet.
    pub open spec fn initial(
        provider: ResolvedProviderView,
        auth: AuthMaterialView,
        tools: Seq<ToolDefinitionView>,
        messages: Seq<ProviderMessageView>,
        ids: RunIdsView,
        description: Seq<char>,
        tasks_empty: bool,
    ) -> Self {
        DirectRunView {
            provider,
            auth,
            tools,
            messages,
            ids,
            description,
            tasks_empty,
            accumulated_text: Seq::empty(),
            sent_init: false,
            sent_actions: false,
            turn: 0,
            pending: Seq::empty(),
            http_status: None,
        }
    }

    /// Can the run go on? It has turns left, or is in its last.
    pub open spec fn valid(self) -> bool {
        self.turn < MAX_TURNS
    }

    /// A request as it is sent.
    pub open spec fn sent(self, request: DirectProviderRequestView) -> HttpRequestView {
        HttpRequestView {
            method: HttpMethod::Post,
            url: request.url,
            headers: direct_auth::listed_headers(self.provider.headers) + direct_auth::auth_headers_of(
                request.kind,
                self.auth,
            ),
            body: Some(request.body),
        }
    }

    /// The first step: the first request, or the error in its place.
    pub open spec fn start(self) -> RunStepView {
        match direct_request::first_request(self.provider, self.messages, self.tools) {
            Ok(request) => RunStepView { events: Seq::empty(), action: RunActionView::Send(self.sent(request)) },
            Err(error) => failure_step(
                error.shown(),
                DirectProviderOutcomeView {
                    error_class: Some(error.class.spec_name()),
                    http_status: error.status,
                    ..DirectProviderOutcomeView::unknown()
                },
            ),
        }
    }

    /// The step when a request could not be sent.
    pub open spec fn connection_failed(self, detail: Seq<char>) -> RunStepView {
        failure_step(
            "Failed to create SSE stream: "@ + detail,
            DirectProviderOutcomeView {
                error_class: Some("Unknown"@),
                http_status: self.http_status,
                ..DirectProviderOutcomeView::unknown()
            },
        )
    }

    /// The outcome of a run that failed in a turn of `turn_ms` milliseconds,
    /// `total_ms` milliseconds after it began.
    pub open spec fn failed_outcome(self, turn_ms: u64, total_ms: u64) -> DirectProviderOutcomeView {
        DirectProviderOutcomeView {
            http_status: self.http_status,
            duration_ms: turn_ms,
            stream_duration_ms: Some(total_ms),
            ..DirectProviderOutcomeView::unknown()
        }
    }

    /// The step when a stream failed.
    pub open spec fn stream_failed(self, error: DirectProviderErrorView, turn_ms: u64, total_ms: u64) -> RunStepView {
        failure_step(error.shown(), self.failed_outcome(turn_ms, total_ms))
    }

    /// The end of a run that went well.
    pub open spec fn completed(self, total_ms: u64) -> RunActionView {
        RunActionView::Complete(
            DirectProviderOutcomeView {
                success: true,
                http_status: self.http_status,
                duration_ms: total_ms,
                stream_duration_ms: Some(total_ms),
                ..DirectProviderOutcomeView::unknown()
            },
        )
    }

    /// The event that tells the client that the run has begun.
    pub open spec fn init_event(self) -> ResponseEventView {
        ResponseEventView::Init {
            conversation_id: self.ids.conversation_id,
            request_id: self.ids.request_id,
            run_id: self.ids.conversation_id,
        }
    }

    /// The event that tells the client to create a task.
    pub open spec fn task_event(self) -> ResponseEventView {
        ResponseEventView::ClientActions(
            seq![ClientActionView::CreateTask { task_id: self.ids.task_id, description: self.description }],
        )
    }

    /// The event that tells the client all the text so far.
    pub open spec fn text_event(self) -> ResponseEventView {
        ResponseEventView::ClientActions(
            seq![
                ClientActionView::AddMessagesToTask {
                    task_id: self.ids.task_id,
                    message_id: self.ids.message_id,
                    request_id: self.ids.request_id,
                    text: self.accumulated_text,
                },
            ],
        )
    }

    /// The run when a turn has given this.
    pub open spec fn after_stream(self, result: StreamingResultView) -> Self {
        DirectRunView {
            accumulated_text: self.accumulated_text + result.accumulated_text,
            sent_init: true,
            sent_actions: self.sent_actions || (result.accumulated_text.len() > 0 && self.tasks_empty),
            pending: result.tool_calls,
            http_status: match result.http_status {
                Some(status) => Some(status),
                None => self.http_status,
            },
            ..self
        }
    }

    /// What the client is told when a turn has given this: once that the run has
    /// begun, and where there is new text, once to create a task if there is
    /// none, and all the text so far.
    pub open spec fn stream_events(self, result: StreamingResultView) -> Seq<ResponseEventView> {
        let begun = if self.sent_init {
            Seq::empty()
        } else {
            seq![self.init_event()]
        };
        let task = if !self.sent_actions && self.tasks_empty {
            seq![self.task_event()]
        } else {
            Seq::empty()
        };
        if result.accumulated_text.len() == 0 {
            begun
        } else {
            begun + task + seq![self.after_stream(result).text_event()]
        }
    }

    /// The step when a turn has given this. Without tool calls the run is over.
    pub open spec fn streamed(self, result: StreamingResultView, total_ms: u64) -> RunStepView {
        let events = self.stream_events(result);
        let after = self.after_stream(result);
        if result.tool_calls.len() == 0 {
            RunStepView { events: events.push(ResponseEventView::Finished), action: after.completed(total_ms) }
        } else {
            RunStepView { events, action: RunActionView::RunTools(result.tool_calls) }
        }
    }

    /// The request of the next turn, when the tools have given these outputs.
    pub open spec fn next_request(self, outputs: Seq<Seq<char>>) -> Result<
        DirectProviderRequestView,
        DirectProviderErrorView,
    > {
        direct_request::followup_request(
            self.provider.kind,
            self.provider.base_url,
            self.provider.model,
            self.provider.defaults,
            self.provider.policy,
            self.tools,
            self.messages,
            tools::tool_results_of(self.pending, outputs),
        )
    }

    /// The run when the tools have given these outputs.
    pub open spec fn after_tools(self, outputs: Seq<Seq<char>>) -> Self {
        if self.turn + 1 >= MAX_TURNS {
            self
        } else {
            DirectRunView {
                messages: direct_request::messages_after(
                    self.provider.kind,
                    self.messages,
                    tools::tool_results_of(self.pending, outputs),
                ),
                turn: match self.next_request(outputs) {
                    Ok(_) => self.turn + 1,
                    Err(_) => self.turn,
                },
                ..self
            }
        }
    }

    /// The step when the tools have given these outputs. After the last turn the
    /// run is over, and they go nowhere.
    pub open spec fn tools_ran(self, outputs: Seq<Seq<char>>, turn_ms: u64, total_ms: u64) -> RunStepView {
        if self.turn + 1 >= MAX_TURNS {
            RunStepView { events: seq![ResponseEventView::Finished], action: self.completed(total_ms) }
        } else {
            match self.next_request(outputs) {
                Ok(request) => RunStepView { events: Seq::empty(), action: RunActionView::Send(self.sent(request)) },
                Err(error) => failure_step(error.shown(), self.failed_outcome(turn_ms, total_ms)),
            }
        }
    }
}

/// A run that fails.
fn fail(message: String, outcome: DirectProviderOutcome) -> (r: RunStep)
    ensures
        r@ == failure_step(message@, outcome@),
{
    let event = ResponseEvent::Failed(message);
    let ghost told = event@;
    let events = vec![event];
    proof {
        assert(events.deep_view() =~= seq![told]);
    }
    RunStep { events, action: RunAction::Complete(outcome) }
}

impl DirectRun {
    /// A run that has not asked yet.
    pub fn new(
        provider: ResolvedProvider,
        auth: AuthMaterial,
        tools: Vec<ToolDefinition>,
        messages: Vec<ProviderMessage>,
        ids: RunIds,
        description: String,
        tasks_empty: bool,
    ) -> (r: Self)
        ensures
            r@ == DirectRunView::initial(
                provider@,
                auth@,
                tools.deep_view(),
                messages.deep_view(),
                ids@,
                description@,
                tasks_empty,
            ),
            r@.valid(),
    {
        let r = DirectRun {
            provider,
            auth,
            tools,
            messages,
            ids,
            description,
            tasks_empty,
            accumulated_text: String::new(),
            sent_init: false,
            sent_actions: false,
            turn: 0,
            pending: Vec::new(),
            http_status: None,
        };
        proof {
            assert(r@.pending =~= Seq::<ToolCallView>::empty());
        }
        r
    }

    /// A request as it is sent.
    fn send(&self, request: &DirectProviderRequest) -> (r: RunStep)
        ensures
            r@ == (RunStepView { events: Seq::empty(), action: RunActionView::Send(self@.sent(request@)) }),
    {
        let request = http_request(request, &self.provider.headers, &self.auth);
        let events: Vec<ResponseEvent> = Vec::new();
        proof {
            assert(events.deep_view() =~= Seq::<ResponseEventView>::empty());
        }
        RunStep { events, action: RunAction::Send(request) }
    }

    /// The first step.
    pub fn start(&self) -> (r: RunStep)
        ensures
            r@ == self@.start(),
    {
        let messages = self.messages.clone();
        proof {
            assert(messages.deep_view() =~= self.messages.deep_view());
        }
        match DirectProviderRequest::new_with_messages(&self.provider, messages, self.tools.as_slice()) {
            Ok(request) => self.send(&request),
            Err(error) => {
                let mut outcome = DirectProviderOutcome::unknown();
                outcome.error_class = Some(error.class.name());
                outcome.http_status = error.status;
                fail(error.to_string(), outcome)
            },
        }
    }

    /// The step when a request could not be sent.
    pub fn connection_failed(&self, detail: &str) -> (r: RunStep)
        ensures
            r@ == self@.connection_failed(detail@),
    {
        let mut outcome = DirectProviderOutcome::unknown();
        outcome.error_class = Some("Unknown".to_string());
        outcome.http_status = self.http_status;
        fail("Failed to create SSE stream: ".to_string().concat(detail), outcome)
    }

    /// The outcome of a run that failed.
    fn failed_outcome(&self, turn_ms: u64, total_ms: u64) -> (r: DirectProviderOutcome)
        ensures
            r@ == self@.failed_outcome(turn_ms, total_ms),
    {
        let mut outcome = DirectProviderOutcome::unknown();
        outcome.http_status = self.http_status;
        outcome.duration_ms = turn_ms;
        outcome.stream_duration_ms = Some(total_ms);
        outcome
    }

    /// The step when a stream failed.
    pub fn stream_failed(&self, error: &DirectProviderError, turn_ms: u64, total_ms: u64) -> (r: RunStep)
        ensures
            r@ == self@.stream_failed(error@, turn_ms, total_ms),
    {
        fail(error.to_string(), self.failed_outcome(turn_ms, total_ms))
    }

    /// The end of a run that went well.
    fn completed(&self, total_ms: u64) -> (r: RunAction)
        ensures
            r@ == self@.completed(total_ms),
    {
        let mut outcome = DirectProviderOutcome::unknown();
        outcome.success = true;
        outcome.http_status = self.http_status;
        outcome.duration_ms = total_ms;
        outcome.stream_duration_ms = Some(total_ms);
        RunAction::Complete(outcome)
    }

    /// The event that tells the client that the run has begun.
    fn init_event(&self) -> (r: ResponseEvent)
        ensures
            r@ == self@.init_event(),
    {
        ResponseEvent::Init {
            conversation_id: self.ids.conversation_id.clone(),
            request_id: self.ids.request_id.clone(),
            run_id: self.ids.conversation_id.clone(),
        }
    }

    /// The event that tells the client to create a task.
    fn task_event(&self) -> (r: ResponseEvent)
        ensures
            r@ == self@.task_event(),
    {
        let action = ClientAction::CreateTask {
            task_id: self.ids.task_id.clone(),
            description: self.description.clone(),
        };
        let ghost told = action@;
        let actions = vec![action];
        proof {
            assert(actions.deep_view() =~= seq![told]);
        }
        ResponseEvent::ClientActions(actions)
    }

    /// The event that tells the client all the text so far.
    fn text_event(&self) -> (r: ResponseEvent)
        ensures
            r@ == self@.text_event(),
    {
        let action = ClientAction::AddMessagesToTask {
            task_id: self.ids.task_id.clone(),
            message_id: self.ids.message_id.clone(),
            request_id: self.ids.request_id.clone(),
            text: self.accumulated_text.clone(),
        };
        let ghost told = action@;
        let actions = vec![action];
        proof {
            assert(actions.deep_view() =~= seq![told]);
        }
        ResponseEvent::ClientActions(actions)
    }

    /// The step when a turn has given this.
    pub fn streamed(&mut self, result: StreamingResult, total_ms: u64) -> (r: RunStep)
        ensures
            r@ == old(self)@.streamed(result@, total_ms),
            final(self)@ == old(self)@.after_stream(result@),
    {
        let ghost before = self@;
        let ghost given = result@;
        let mut events: Vec<ResponseEvent> = Vec::new();
        let ghost mut told = Seq::<ResponseEventView>::empty();
        if result.http_status.is_some() {
            self.http_status = result.http_status;
        }
        if !self.sent_init {
            self.sent_init = true;
            events.push(self.init_event());
            proof {
                told = told.push(before.init_event());
            }
        }
        proof {
            assert(events.deep_view() =~= told);
        }
        if !result.accumulated_text.as_str().is_empty() {
            self.accumulated_text.append(result.accumulated_text.as_str());
            if !self.sent_actions && self.tasks_empty {
                self.sent_actions = true;
                events.push(self.task_event());
                proof {
                    told = told.push(before.task_event());
                    assert(events.deep_view() =~= told);
                }
            }
            let event = self.text_event();
            let ghost shown = event@;
            events.push(event);
            proof {
                told = told.push(shown);
                assert(events.deep_view() =~= told);
                assert(shown == before.after_stream(given).text_event());
            }
        } else {
            proof {
                assert(before.accumulated_text + given.accumulated_text =~= before.accumulated_text);
            }
        }
        proof {
            assert(events.deep_view() =~= before.stream_events(given));
        }
        if result.tool_calls.len() == 0 {
            self.pending = result.tool_calls;
            events.push(ResponseEvent::Finished);
            proof {
                assert(events.deep_view() =~= before.stream_events(given).push(ResponseEventView::Finished));
                assert(self@ == before.after_stream(given));
            }
            RunStep { events, action: self.completed(total_ms) }
        } else {
            let calls = result.tool_calls.clone();
            proof {
                assert(calls.deep_view() =~= result.tool_calls.deep_view());
            }
            self.pending = result.tool_calls;
            RunStep { events, action: RunAction::RunTools(calls) }
        }
    }

    /// The step when the tools of this turn have given these outputs, one for
    /// each call.
    pub fn tools_ran(&mut self, outputs: Vec<String>, turn_ms: u64, total_ms: u64) -> (r: RunStep)
        requires
            old(self)@.valid(),
            outputs@.len() == old(self)@.pending.len(),
        ensures
            r@ == old(self)@.tools_ran(outputs.deep_view(), turn_ms, total_ms),
            final(self)@ == old(self)@.after_tools(outputs.deep_view()),
            final(self)@.valid(),
    {
        if self.turn + 1 >= MAX_TURNS {
            let events = vec![ResponseEvent::Finished];
            proof {
                assert(events.deep_view() =~= seq![ResponseEventView::Finished]);
            }
            return RunStep { events, action: self.completed(total_ms) };
        }
        let results = tool_results(self.pending.as_slice(), outputs.as_slice());
        let followup = build_followup_request(
            self.provider.kind,
            self.provider.base_url.as_str(),
            self.provider.model.as_str(),
            &self.provider.defaults,
            &self.provider.policy,
            self.tools.as_slice(),
            &mut self.messages,
            results.as_slice(),
        );
        match followup {
            Ok(request) => {
                self.turn = self.turn + 1;
                self.send(&request)
            },
            Err(error) => fail(error.to_string(), self.failed_outcome(turn_ms, total_ms)),
        }
    }
}

} // verus!
