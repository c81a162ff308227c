//! What holds of a run as a whole.
use vstd::prelude::*;

use crate::conversation::{MessageContentView, ProviderMessageView};
use crate::direct_auth;
use crate::direct_auth::AuthMaterialView;
use crate::direct_error::DirectProviderErrorView;
use crate::direct_request;
use crate::direct_run::{ClientActionView, DirectRunView, ResponseEventView, RunActionView, MAX_TURNS};
use crate::direct_stream::StreamingResultView;
use crate::direct_telemetry::DirectProviderOutcomeView;
use crate::http_message::HttpMethod;
use crate::profile::ProviderKind;
use crate::provider_registry::ResolvedProviderView;
use crate::provider_validator;
use crate::text;
use crate::tools;
use crate::tools::{ToolDefinitionView, ToolResultView};

verus! {

/// What came of a turn: of its request, of the stream, and of the tools that it
/// called.
pub enum TurnView {
    NotSent { detail: Seq<char> },
    StreamFailed { error: DirectProviderErrorView, turn_ms: u64, total_ms: u64 },
    Streamed { result: StreamingResultView, outputs: Seq<Seq<char>>, turn_ms: u64, total_ms: u64 },
}

/// What a run comes to: what the client is told, how many requests are made, and
/// how it went, where it is over.
pub struct RunTraceView {
    pub events: Seq<ResponseEventView>,
    pub requests: nat,
    pub outcome: Option<DirectProviderOutcomeView>,
}

/// The end of a run in this turn.
pub open spec fn ended(events: Seq<ResponseEventView>, action: RunActionView) -> RunTraceView {
    RunTraceView {
        events,
        requests: 1,
        outcome: match action {
            RunActionView::Complete(outcome) => Some(outcome),
            _ => None,
        },
    }
}

/// What a run comes to that has just sent a request, if this comes of its turns.
pub open spec fn run_trace(run: DirectRunView, turns: Seq<TurnView>) -> RunTraceView
    decreases turns.len(),
{
    if turns.len() == 0 {
        RunTraceView { events: Seq::empty(), requests: 1, outcome: None }
    } else {
        match turns[0] {
            TurnView::NotSent { detail } => {
                let step = run.connection_failed(detail);
                ended(step.events, step.action)
            },
            TurnView::StreamFailed { error, turn_ms, total_ms } => {
                let step = run.stream_failed(error, turn_ms, total_ms);
                ended(step.events, step.action)
            },
            TurnView::Streamed { result, outputs, turn_ms, total_ms } => {
                let step = run.streamed(result, total_ms);
                let after = run.after_stream(result);
                let next = after.tools_ran(outputs, turn_ms, total_ms);
                match step.action {
                    RunActionView::RunTools(_) => match next.action {
                        RunActionView::Send(_) => {
                            let rest = run_trace(after.after_tools(outputs), turns.drop_first());
                            RunTraceView {
                                events: step.events + next.events + rest.events,
                                requests: 1 + rest.requests,
                                outcome: rest.outcome,
                            }
                        },
                        _ => ended(step.events + next.events, next.action),
                    },
                    _ => ended(step.events, step.action),
                }
            },
        }
    }
}

/// A run makes at most ten requests.
pub proof fn law_runs_are_bounded(run: DirectRunView, turns: Seq<TurnView>)
    requires
        run.valid(),
    ensures
        run_trace(run, turns).requests <= MAX_TURNS - run.turn,
    decreases turns.len(),
{
    if turns.len() > 0 {
        match turns[0] {
            TurnView::Streamed { result, outputs, turn_ms, total_ms } => {
                let after = run.after_stream(result);
                if after.tools_ran(outputs, turn_ms, total_ms).action is Send {
                    law_runs_are_bounded(after.after_tools(outputs), turns.drop_first());
                }
            },
            _ => {},
        }
    }
}

/// The client is told that the run has begun at most once, and before anything
/// else of a run that does not fail at once.
pub proof fn law_begin_is_told_once_and_first(run: DirectRunView, turns: Seq<TurnView>)
    requires
        run.valid(),
    ensures
        forall|i: int|
            0 <= i < run_trace(run, turns).events.len() && (#[trigger] run_trace(run, turns).events[i]) is Init ==> i == 0
                && !run.sent_init,
        !run.sent_init && run_trace(run, turns).events.len() > 0 ==> run_trace(run, turns).events[0] is Init
            || run_trace(run, turns).events[0] is Failed,
    decreases turns.len(),
{
    if turns.len() > 0 {
        match turns[0] {
            TurnView::Streamed { result, outputs, turn_ms, total_ms } => {
                let after = run.after_stream(result);
                if after.tools_ran(outputs, turn_ms, total_ms).action is Send {
                    law_begin_is_told_once_and_first(after.after_tools(outputs), turns.drop_first());
                    lemma_prefix_init(run, turns);
                }
            },
            _ => {},
        }
    }
}

/// The events of a first turn that goes on hold one beginning at most.
proof fn lemma_prefix_init(run: DirectRunView, turns: Seq<TurnView>)
    requires
        run.valid(),
        turns.len() > 0,
        turns[0] is Streamed,
        ({
            let after = run.after_stream(turns[0]->result);
            let rest = run_trace(after.after_tools(turns[0]->outputs), turns.drop_first());
            forall|i: int| 0 <= i < rest.events.len() ==> !((#[trigger] rest.events[i]) is Init)
        }),
    ensures
        forall|i: int|
            0 <= i < run_trace(run, turns).events.len() && (#[trigger] run_trace(run, turns).events[i]) is Init ==> i == 0
                && !run.sent_init,
{
    let result = turns[0]->result;
    let outputs = turns[0]->outputs;
    let after = run.after_stream(result);
    let step = run.streamed(result, turns[0]->Streamed_total_ms);
    let next = after.tools_ran(outputs, turns[0]->Streamed_turn_ms, turns[0]->Streamed_total_ms);
    let rest = run_trace(after.after_tools(outputs), turns.drop_first());
    let all = run_trace(run, turns).events;
    assert forall|i: int| 0 <= i < all.len() && (#[trigger] all[i]) is Init implies i == 0 && !run.sent_init by {
        if step.action is RunTools && next.action is Send {
            assert(all =~= step.events + next.events + rest.events);
            let head = step.events + next.events;
            if i >= head.len() {
                assert(all[i] == rest.events[i - head.len()]);
            } else {
                assert(all[i] == head[i]);
            }
        }
    }
}

/// Is this the event with which a run ends?
pub open spec fn is_last_event(event: ResponseEventView) -> bool {
    event is Finished || event is Failed
}

/// A run that is over has told the client so in its last event, and in no event
/// before it: that it has finished where it went well, that it has failed where
/// it did not. A run that is not over has told neither.
pub proof fn law_end_is_told_once_and_last(run: DirectRunView, turns: Seq<TurnView>)
    requires
        run.valid(),
    ensures
        ({
            let trace = run_trace(run, turns);
            &&& forall|i: int|
                0 <= i < trace.events.len() && is_last_event(#[trigger] trace.events[i]) ==> i == trace.events.len() - 1
                    && trace.outcome is Some
            &&& trace.outcome matches Some(outcome) ==> trace.events.len() > 0 && is_last_event(trace.events.last())
                && (outcome.success <==> trace.events.last() is Finished)
        }),
    decreases turns.len(),
{
    let trace = run_trace(run, turns);
    if turns.len() > 0 {
        match turns[0] {
            TurnView::Streamed { result, outputs, turn_ms, total_ms } => {
                let after = run.after_stream(result);
                let step = run.streamed(result, total_ms);
                let next = after.tools_ran(outputs, turn_ms, total_ms);
                if step.action is RunTools {
                    let head = step.events + next.events;
                    if next.action is Send {
                        let rest = run_trace(after.after_tools(outputs), turns.drop_first());
                        law_end_is_told_once_and_last(after.after_tools(outputs), turns.drop_first());
                        assert(trace.events =~= head + rest.events);
                        assert forall|i: int| 0 <= i < trace.events.len() && is_last_event(#[trigger] trace.events[i]) implies i
                            == trace.events.len() - 1 && trace.outcome is Some by {
                            if i < head.len() {
                                assert(trace.events[i] == step.events[i]);
                            } else {
                                assert(trace.events[i] == rest.events[i - head.len()]);
                            }
                        }
                        if rest.outcome is Some {
                            assert(trace.events.last() == rest.events.last());
                        }
                    } else {
                        assert(trace.events =~= head);
                        assert forall|i: int| 0 <= i < trace.events.len() && is_last_event(#[trigger] trace.events[i]) implies i
                            == trace.events.len() - 1 && trace.outcome is Some by {
                            if i < step.events.len() {
                                assert(trace.events[i] == step.events[i]);
                            }
                        }
                    }
                }
            },
            _ => {},
        }
    }
}

/// The text that an event shows, where it shows one.
pub open spec fn shown_text(event: ResponseEventView) -> Option<Seq<char>> {
    match event {
        ResponseEventView::ClientActions(actions) => if actions.len() == 1 {
            match actions[0] {
                ClientActionView::AddMessagesToTask { text, .. } => Some(text),
                _ => None,
            }
        } else {
            None
        },
        _ => None,
    }
}

/// What the client has been shown is never taken back: each text that it is
/// shown begins with all the text before it.
pub proof fn law_shown_text_only_grows(run: DirectRunView, turns: Seq<TurnView>)
    requires
        run.valid(),
    ensures
        ({
            let events = run_trace(run, turns).events;
            &&& forall|i: int|
                0 <= i < events.len() ==> (shown_text(#[trigger] events[i]) matches Some(t)
                    ==> run.accumulated_text.is_prefix_of(t))
            &&& forall|i: int, j: int|
                0 <= i < j < events.len() ==> (shown_text(#[trigger] events[i]) matches Some(a) ==> (shown_text(
                    #[trigger] events[j],
                ) matches Some(b) ==> a.is_prefix_of(b)))
        }),
    decreases turns.len(),
{
    if turns.len() > 0 {
        match turns[0] {
            TurnView::Streamed { result, outputs, turn_ms, total_ms } => {
                let after = run.after_stream(result);
                let step = run.streamed(result, total_ms);
                let next = after.tools_ran(outputs, turn_ms, total_ms);
                let trace = run_trace(run, turns);
                lemma_turn_texts(run, result, total_ms);
                if step.action is RunTools {
                    let head = step.events + next.events;
                    let rest = run_trace(after.after_tools(outputs), turns.drop_first());
                    if next.action is Send {
                        law_shown_text_only_grows(after.after_tools(outputs), turns.drop_first());
                        assert(trace.events =~= head + rest.events);
                        assert forall|i: int| 0 <= i < trace.events.len() implies (shown_text(
                            #[trigger] trace.events[i],
                        ) matches Some(t) ==> run.accumulated_text.is_prefix_of(t)) by {
                            if i < head.len() {
                                assert(trace.events[i] == step.events[i]);
                            } else {
                                assert(trace.events[i] == rest.events[i - head.len()]);
                                if shown_text(trace.events[i]) is Some {
                                    lemma_prefix_chain(
                                        run.accumulated_text,
                                        after.accumulated_text,
                                        shown_text(trace.events[i])->0,
                                    );
                                }
                            }
                        }
                        assert forall|i: int, j: int| 0 <= i < j < trace.events.len() implies (shown_text(
                            #[trigger] trace.events[i],
                        ) matches Some(a) ==> (shown_text(#[trigger] trace.events[j]) matches Some(b)
                            ==> a.is_prefix_of(b))) by {
                            if j < head.len() {
                                assert(trace.events[i] == step.events[i]);
                                assert(trace.events[j] == step.events[j]);
                            } else {
                                assert(trace.events[j] == rest.events[j - head.len()]);
                                if i < head.len() {
                                    assert(trace.events[i] == step.events[i]);
                                } else {
                                    assert(trace.events[i] == rest.events[i - head.len()]);
                                }
                            }
                        }
                    } else {
                        assert(trace.events =~= head);
                        assert forall|i: int| 0 <= i < trace.events.len() implies (shown_text(
                            #[trigger] trace.events[i],
                        ) matches Some(t) ==> run.accumulated_text.is_prefix_of(t)) by {
                            if i < step.events.len() {
                                assert(trace.events[i] == step.events[i]);
                            }
                        }
                        assert forall|i: int, j: int| 0 <= i < j < trace.events.len() implies (shown_text(
                            #[trigger] trace.events[i],
                        ) matches Some(a) ==> (shown_text(#[trigger] trace.events[j]) matches Some(b)
                            ==> a.is_prefix_of(b))) by {
                            if j < step.events.len() {
                                assert(trace.events[i] == step.events[i]);
                                assert(trace.events[j] == step.events[j]);
                            }
                        }
                    }
                }
            },
            _ => {},
        }
    }
}

proof fn lemma_prefix_chain(a: Seq<char>, b: Seq<char>, c: Seq<char>)
    requires
        a.is_prefix_of(b),
        b.is_prefix_of(c),
    ensures
        a.is_prefix_of(c),
{
    assert(c.subrange(0, a.len() as int) =~= a) by {
        assert forall|i: int| 0 <= i < a.len() implies c[i] == a[i] by {
            assert(b.subrange(0, a.len() as int)[i] == a[i]);
            assert(c.subrange(0, b.len() as int)[i] == b[i]);
        }
    }
}

/// The one text that a turn shows is all the text up to it.
proof fn lemma_turn_texts(run: DirectRunView, result: StreamingResultView, total_ms: u64)
    ensures
        ({
            let events = run.streamed(result, total_ms).events;
            let after = run.after_stream(result);
            &&& run.accumulated_text.is_prefix_of(after.accumulated_text)
            &&& forall|i: int|
                0 <= i < events.len() ==> (shown_text(#[trigger] events[i]) matches Some(t) ==> t
                    == after.accumulated_text)
        }),
{
    let after = run.after_stream(result);
    assert(after.accumulated_text.subrange(0, run.accumulated_text.len() as int) =~= run.accumulated_text);
}

/// Does an event tell the client to create a task?
pub open spec fn creates_task(event: ResponseEventView) -> bool {
    event matches ResponseEventView::ClientActions(actions) && actions.len() == 1 && actions[0] is CreateTask
}

/// In these events a task is created at most once, and only where `wanted`; there
/// it is created before any text is shown.
pub open spec fn task_comes_first(events: Seq<ResponseEventView>, wanted: bool) -> bool {
    &&& forall|i: int| 0 <= i < events.len() && creates_task(#[trigger] events[i]) ==> wanted
    &&& forall|i: int, j: int|
        0 <= i < j < events.len() && creates_task(#[trigger] events[i]) ==> !creates_task(#[trigger] events[j])
    &&& wanted ==> forall|j: int|
        0 <= j < events.len() && shown_text(#[trigger] events[j]) is Some ==> exists|i: int|
            0 <= i < j && creates_task(#[trigger] events[i])
}

/// Where the conversation has no task, the client is told once to create one, and
/// before it is shown any text; where it has one, it is not told.
pub proof fn law_task_is_created_once_and_before_text(run: DirectRunView, turns: Seq<TurnView>)
    requires
        run.valid(),
    ensures
        task_comes_first(run_trace(run, turns).events, run.tasks_empty && !run.sent_actions),
    decreases turns.len(),
{
    let wanted = run.tasks_empty && !run.sent_actions;
    if turns.len() > 0 {
        match turns[0] {
            TurnView::Streamed { result, outputs, turn_ms, total_ms } => {
                let after = run.after_stream(result);
                let step = run.streamed(result, total_ms);
                let next = after.tools_ran(outputs, turn_ms, total_ms);
                let all = run_trace(run, turns).events;
                lemma_turn_task(run, result, total_ms);
                if step.action is RunTools {
                    let head = step.events + next.events;
                    if next.action is Send {
                        let rest = run_trace(after.after_tools(outputs), turns.drop_first()).events;
                        law_task_is_created_once_and_before_text(after.after_tools(outputs), turns.drop_first());
                        assert(all =~= step.events + rest);
                        lemma_task_chain(step.events, rest, wanted, after.tasks_empty && !after.sent_actions);
                    } else {
                        assert(all =~= head);
                        lemma_task_chain(step.events, next.events, wanted, after.tasks_empty && !after.sent_actions);
                    }
                }
            },
            _ => {},
        }
    }
}

/// Of the events of a turn it holds that a task comes first, and one is still
/// wanted where no text was shown.
proof fn lemma_turn_task(run: DirectRunView, result: StreamingResultView, total_ms: u64)
    ensures
        ({
            let events = run.streamed(result, total_ms).events;
            let after = run.after_stream(result);
            let wanted = run.tasks_empty && !run.sent_actions;
            let still_wanted = after.tasks_empty && !after.sent_actions;
            &&& task_comes_first(events, wanted)
            &&& still_wanted ==> wanted
            &&& still_wanted ==> forall|i: int| 0 <= i < events.len() ==> !creates_task(#[trigger] events[i])
            &&& wanted && !still_wanted ==> exists|i: int| 0 <= i < events.len() && creates_task(#[trigger] events[i])
        }),
{
    let events = run.streamed(result, total_ms).events;
    let n: int = if run.sent_init { 0 } else { 1 };
    if run.tasks_empty && !run.sent_actions && result.accumulated_text.len() > 0 {
        assert(events[n] == run.task_event());
        assert(creates_task(events[n]));
    }
}

/// A task comes first in events that follow each other, where a task is wanted in
/// the second only if the first created none.
proof fn lemma_task_chain(a: Seq<ResponseEventView>, b: Seq<ResponseEventView>, wanted: bool, still_wanted: bool)
    requires
        task_comes_first(a, wanted),
        task_comes_first(b, still_wanted),
        still_wanted ==> wanted,
        still_wanted ==> forall|i: int| 0 <= i < a.len() ==> !creates_task(#[trigger] a[i]),
        wanted && !still_wanted ==> exists|i: int| 0 <= i < a.len() && creates_task(#[trigger] a[i]),
    ensures
        task_comes_first(a + b, wanted),
{
    let all = a + b;
    let n = a.len() as int;
    assert forall|i: int| 0 <= i < all.len() && creates_task(#[trigger] all[i]) implies wanted by {
        if i < n {
            assert(all[i] == a[i]);
        } else {
            assert(all[i] == b[i - n]);
        }
    }
    assert forall|i: int, j: int|
        0 <= i < j < all.len() && creates_task(#[trigger] all[i]) implies !creates_task(#[trigger] all[j]) by {
        if j < n {
            assert(all[i] == a[i] && all[j] == a[j]);
        } else if i < n {
            assert(all[i] == a[i] && all[j] == b[j - n]);
        } else {
            assert(all[i] == b[i - n] && all[j] == b[j - n]);
        }
    }
    if wanted {
        assert forall|j: int| 0 <= j < all.len() && shown_text(#[trigger] all[j]) is Some implies exists|i: int|
            0 <= i < j && creates_task(#[trigger] all[i]) by {
            if j < n {
                assert(all[j] == a[j]);
                let i = choose|i: int| 0 <= i < j && creates_task(#[trigger] a[i]);
                assert(creates_task(all[i]));
            } else if still_wanted {
                assert(all[j] == b[j - n]);
                let i = choose|i: int| 0 <= i < j - n && creates_task(#[trigger] b[i]);
                assert(creates_task(all[n + i]));
            } else {
                let i = choose|i: int| 0 <= i < a.len() && creates_task(#[trigger] a[i]);
                assert(creates_task(all[i]));
            }
        }
    }
}

/// Every request of a run goes to the endpoint of the provider that was picked,
/// whatever the answers say.
pub proof fn law_requests_go_to_the_picked_provider(
    run: DirectRunView,
    result: StreamingResultView,
    outputs: Seq<Seq<char>>,
    turn_ms: u64,
    total_ms: u64,
)
    ensures
        ({
            let url = text::without_trailing_slashes(run.provider.base_url) + direct_request::path_of(
                run.provider.kind,
            );
            &&& run.start().action matches RunActionView::Send(request) ==> request.url == url
            &&& run.tools_ran(outputs, turn_ms, total_ms).action matches RunActionView::Send(request) ==> request.url
                == url
            &&& run.after_stream(result).provider == run.provider
            &&& run.after_tools(outputs).provider == run.provider
            &&& run.after_stream(result).auth == run.auth
            &&& run.after_tools(outputs).auth == run.auth
        }),
{
}

/// The provider that Warp hosts is never asked directly: a run for it fails at
/// once.
pub proof fn law_warp_hosted_is_never_asked_directly(run: DirectRunView)
    requires
        run.provider.kind == crate::profile::ProviderKind::WarpHosted,
    ensures
        run.start().action is Complete,
        run.start().events == seq![ResponseEventView::Failed(DirectProviderErrorView::warp_hosted().shown())],
{
}

/// In a request to Anthropic, no message is from the system: the system message
/// stands apart.
pub proof fn law_said_leaves_the_system_out(messages: Seq<ProviderMessageView>, message: ProviderMessageView)
    ensures
        direct_request::said(messages).contains(message) <==> messages.contains(message) && message.role != "system"@,
    decreases messages.len(),
{
    if messages.len() > 0 {
        let front = messages.drop_last();
        let kept = direct_request::said(front);
        law_said_leaves_the_system_out(front, message);
        assert(messages =~= front.push(messages.last()));
        assert(messages[messages.len() - 1] == messages.last());
        if front.contains(message) {
            let n = choose|n: int| 0 <= n < front.len() && front[n] == message;
            assert(messages[n] == message);
        }
        if messages.contains(message) && message != messages.last() {
            let n = choose|n: int| 0 <= n < messages.len() && messages[n] == message;
            assert(front[n] == message);
        }
        if messages.last().role != "system"@ {
            let all = kept.push(messages.last());
            assert(all[kept.len() as int] == messages.last());
            if kept.contains(message) {
                let n = choose|n: int| 0 <= n < kept.len() && kept[n] == message;
                assert(all[n] == message);
            }
            if all.contains(message) && message != messages.last() {
                let n = choose|n: int| 0 <= n < all.len() && all[n] == message;
                assert(kept[n] == message);
            }
        }
    }
}

/// A request after tool results says what a first request with the same messages
/// would say, for OpenAI.
pub proof fn law_openai_followup_is_a_longer_first_request(
    provider: ResolvedProviderView,
    messages: Seq<ProviderMessageView>,
    tools: Seq<ToolDefinitionView>,
    results: Seq<ToolResultView>,
)
    requires
        provider.kind == crate::profile::ProviderKind::OpenAI,
    ensures
        direct_request::followup_request(
            provider.kind,
            provider.base_url,
            provider.model,
            provider.defaults,
            provider.policy,
            tools,
            messages,
            results,
        ) == direct_request::first_request(
            provider,
            direct_request::messages_after(provider.kind, messages, results),
            tools,
        ),
{
}

/// Without tool results, a request to Anthropic is the first request again.
pub proof fn law_anthropic_followup_without_results_is_the_first_request(
    provider: ResolvedProviderView,
    messages: Seq<ProviderMessageView>,
    tools: Seq<ToolDefinitionView>,
)
    requires
        provider_validator::speaks_anthropic(provider.kind),
    ensures
        direct_request::followup_request(
            provider.kind,
            provider.base_url,
            provider.model,
            provider.defaults,
            provider.policy,
            tools,
            messages,
            Seq::empty(),
        ) == direct_request::first_request(provider, messages, tools),
{
    let list = direct_request::anthropic_messages(direct_request::said(messages));
    assert(list + direct_request::anthropic_results(Seq::empty()) =~= list);
}

/// When the tools that a turn called have run, the next request carries the
/// output of every call with the id of that call, and no other: one item for
/// each call, in the order of the calls, behind everything that was said.
pub proof fn law_next_request_answers_every_call(
    run: DirectRunView,
    outputs: Seq<Seq<char>>,
    turn_ms: u64,
    total_ms: u64,
    i: int,
)
    requires
        outputs.len() == run.pending.len(),
        0 <= i < run.pending.len(),
    ensures
        run.tools_ran(outputs, turn_ms, total_ms).action matches RunActionView::Send(request) ==> (request.body
            matches Some(body) && (direct_request::list_in(run.provider.kind, body) matches Some(list) && list.len()
            >= run.pending.len() && direct_request::carries_result(
            run.provider.kind,
            list[list.len() - run.pending.len() + i],
            run.pending[i].id,
            outputs[i],
        ))),
{
    let results = tools::tool_results_of(run.pending, outputs);
    direct_request::law_requests_carry_every_result(run.provider, run.messages, run.tools, results, i);
    assert(direct_request::requests_of(run.provider, run.messages, run.tools, results)[1] == run.next_request(outputs));
}

/// In a chat, the conversation goes on with the output of every call, under the
/// id of that call, behind what was said before; for OpenAI too, where each is a
/// message of the user. An Anthropic conversation stays as it was.
pub proof fn law_conversation_goes_on_with_the_results(run: DirectRunView, outputs: Seq<Seq<char>>, i: int)
    requires
        run.turn + 1 < MAX_TURNS,
        outputs.len() == run.pending.len(),
    ensures
        ({
            let before = run.messages;
            let after = run.after_tools(outputs).messages;
            let kind = run.provider.kind;
            &&& before.is_prefix_of(after)
            &&& kind == ProviderKind::OpenAI || kind == ProviderKind::OpenAICompatible ==> after.len() == before.len()
                + run.pending.len()
            &&& kind != ProviderKind::OpenAI && kind != ProviderKind::OpenAICompatible ==> after == before
            &&& kind == ProviderKind::OpenAICompatible && 0 <= i < run.pending.len() ==> after[before.len() + i] == (
            ProviderMessageView {
                role: "tool"@,
                content: MessageContentView::Text(outputs[i]),
                tool_call_id: Some(run.pending[i].id),
            })
            &&& kind == ProviderKind::OpenAI && 0 <= i < run.pending.len() ==> after[before.len() + i].role == "user"@
        }),
{
}

/// A turn whose answer calls no tool ends the run, which went well; one that
/// calls tools has all of them run, in their order.
pub proof fn law_called_tools_are_run(run: DirectRunView, result: StreamingResultView, total_ms: u64)
    ensures
        ({
            let step = run.streamed(result, total_ms);
            &&& result.tool_calls.len() > 0 ==> step.action == RunActionView::RunTools(result.tool_calls)
                && run.after_stream(result).pending == result.tool_calls
            &&& result.tool_calls.len() == 0 ==> (step.action matches RunActionView::Complete(outcome)
                && outcome.success && outcome.duration_ms == total_ms && outcome.error_class is None) && step.events.len()
                > 0 && step.events.last() == ResponseEventView::Finished
        }),
{
}

/// The client is told all the text that the run has given, that of earlier turns
/// first, whenever a turn gives more of it.
pub proof fn law_client_is_told_all_the_text(run: DirectRunView, result: StreamingResultView)
    requires
        result.accumulated_text.len() > 0,
    ensures
        run.stream_events(result).len() > 0,
        run.stream_events(result).last() matches ResponseEventView::ClientActions(actions) && actions.len() == 1 && (
        actions[0] matches ClientActionView::AddMessagesToTask { text, task_id, .. } && text == run.accumulated_text
            + result.accumulated_text && task_id == run.ids.task_id),
{
}

/// A run that fails says so: the outcome is no success, and the client is told
/// what went wrong and nothing else.
pub proof fn law_failures_are_told(
    run: DirectRunView,
    error: DirectProviderErrorView,
    detail: Seq<char>,
    turn_ms: u64,
    total_ms: u64,
)
    ensures
        ({
            let step = run.stream_failed(error, turn_ms, total_ms);
            &&& step.events == seq![ResponseEventView::Failed(error.shown())]
            &&& step.action matches RunActionView::Complete(outcome) && !outcome.success && outcome.http_status
                == run.http_status && outcome.duration_ms == turn_ms && outcome.stream_duration_ms == Some(total_ms)
        }),
        ({
            let step = run.connection_failed(detail);
            &&& step.events == seq![ResponseEventView::Failed("Failed to create SSE stream: "@ + detail)]
            &&& step.action matches RunActionView::Complete(outcome) && !outcome.success && outcome.error_class
                == Some("Unknown"@)
        }),
{
}

/// A request is sent with the headers of the provider and, behind them, the
/// secret in the header that the provider reads; without a secret, with the
/// headers of the provider alone.
pub proof fn law_requests_are_sent_with_the_secret(
    run: DirectRunView,
    outputs: Seq<Seq<char>>,
    turn_ms: u64,
    total_ms: u64,
    n: int,
)
    requires
        0 <= n < 2,
    ensures
        ({
            let step = if n == 0 {
                run.start()
            } else {
                run.tools_ran(outputs, turn_ms, total_ms)
            };
            let own = direct_auth::listed_headers(run.provider.headers);
            let is_anthropic = run.provider.kind == ProviderKind::Anthropic || run.provider.kind
                == ProviderKind::AnthropicCompatible;
            step.action matches RunActionView::Send(request) ==> {
                &&& request.method == HttpMethod::Post
                &&& step.events.len() == 0
                &&& (if n == 0 {
                    direct_request::first_request(run.provider, run.messages, run.tools)
                } else {
                    run.next_request(outputs)
                }) matches Ok(made) && request.url == made.url && request.body == Some(made.body)
                &&& match run.auth {
                    AuthMaterialView::NoAuth => request.headers == own,
                    AuthMaterialView::ApiKey(key) => request.headers == if is_anthropic {
                        own.push(("x-api-key"@, key)).push(("anthropic-version"@, "2023-06-01"@))
                    } else {
                        own.push(("Authorization"@, "Bearer "@ + key))
                    },
                    AuthMaterialView::BearerToken(token) => request.headers == own.push(
                        ("Authorization"@, "Bearer "@ + token),
                    ),
                }
            }
        }),
{
    let own = direct_auth::listed_headers(run.provider.headers);
    assert(own + Seq::empty() =~= own);
    match run.auth {
        AuthMaterialView::NoAuth => {},
        AuthMaterialView::ApiKey(key) => {
            assert(own + seq![("x-api-key"@, key), ("anthropic-version"@, "2023-06-01"@)] =~= own.push(
                ("x-api-key"@, key),
            ).push(("anthropic-version"@, "2023-06-01"@)));
            assert(own + seq![("Authorization"@, "Bearer "@ + key)] =~= own.push(
                ("Authorization"@, "Bearer "@ + key),
            ));
        },
        AuthMaterialView::BearerToken(token) => {
            assert(own + seq![("Authorization"@, "Bearer "@ + token)] =~= own.push(
                ("Authorization"@, "Bearer "@ + token),
            ));
        },
    }
}

/// A turn changes what the run has said and told, and nothing of what it asks
/// with; the tools move it to the next turn, where another request is made.
pub proof fn law_turns_follow_each_other(
    run: DirectRunView,
    result: StreamingResultView,
    outputs: Seq<Seq<char>>,
    turn_ms: u64,
    total_ms: u64,
)
    ensures
        ({
            let after = run.after_stream(result);
            &&& after.messages == run.messages
            &&& after.tools == run.tools
            &&& after.ids == run.ids
            &&& after.description == run.description
            &&& after.tasks_empty == run.tasks_empty
            &&& after.turn == run.turn
            &&& result.http_status is None ==> after.http_status == run.http_status
            &&& result.http_status is Some ==> after.http_status == result.http_status
        }),
        ({
            let step = run.tools_ran(outputs, turn_ms, total_ms);
            let after = run.after_tools(outputs);
            &&& step.action is Send <==> run.turn + 1 < 10 && run.provider.kind != ProviderKind::WarpHosted
                && text::trimmed(run.provider.base_url).len() > 0
            &&& step.action is Send ==> after.turn == run.turn + 1
            &&& !(step.action is Send) ==> after.turn == run.turn
            &&& after.tools == run.tools
            &&& after.ids == run.ids
            &&& after.accumulated_text == run.accumulated_text
            &&& after.sent_init == run.sent_init
            &&& after.sent_actions == run.sent_actions
            &&& run.turn + 1 >= 10 ==> (step.action matches RunActionView::Complete(outcome) && outcome.success)
        }),
        run.start().action is Send <==> run.provider.kind != ProviderKind::WarpHosted && text::trimmed(
            run.provider.base_url,
        ).len() > 0,
{
}

/// The client is told that the run has begun under the ids of the run, and to
/// create a task under its id and with the description.
pub proof fn law_client_is_told_the_ids(run: DirectRunView)
    ensures
        run.init_event() == (ResponseEventView::Init {
            conversation_id: run.ids.conversation_id,
            request_id: run.ids.request_id,
            run_id: run.ids.conversation_id,
        }),
        run.task_event() matches ResponseEventView::ClientActions(actions) && actions == seq![
            ClientActionView::CreateTask { task_id: run.ids.task_id, description: run.description },
        ],
        run.text_event() matches ResponseEventView::ClientActions(actions) && actions == seq![
            ClientActionView::AddMessagesToTask {
                task_id: run.ids.task_id,
                message_id: run.ids.message_id,
                request_id: run.ids.request_id,
                text: run.accumulated_text,
            },
        ],
{
}

} // verus!
