//! Requests that the client makes to a provider itself, without Warp between
//! them.
use vstd::prelude::*;
use vstd::string::StringExecFns;

use crate::agent_input;
use crate::agent_input::{latest_direct_provider_query, latest_user_query, AgentInput, AgentInputView};
use crate::api_keys::ApiKeys;
use crate::clock;
use crate::clock::{prompt_time, TimestampView, PROMPT_TIME_PATTERN};
use crate::conversation;
use crate::conversation::{
    conversation_with_system, system_message_at, AgentExchangeSnapshot, AgentExchangeSnapshotView, HostContext,
};
use crate::direct_auth;
use crate::direct_auth::{finish_auth, secret_lookup, AuthMaterialView, SecretLookup, SecretLookupView};
use crate::direct_run::{
    ClientAction, ClientActionView, DirectRun, DirectRunView, ResponseEvent, ResponseEventView, RunIds, RunIdsView,
    RunStep, RunStepView,
};
use crate::fresh_id;
use crate::fresh_id::fresh_uuid;
use crate::provider_registry;
use crate::provider_registry::{
    ProviderResolutionError, ProviderResolutionErrorView, ResolvedProvider, ResolvedProviderView,
};
use crate::tools;
use crate::tools::{collect_tools, McpContext, McpContextView, ToolDefinition, ToolDefinitionView};

verus! {

/// What a request of the agent comes with.
#[derive(Debug)]
pub struct RequestParams {
    pub resolved_provider: Result<ResolvedProvider, ProviderResolutionError>,
    pub input: Vec<AgentInput>,
    pub conversation_token: Option<String>,
    /// The ids of the tasks of the conversation.
    pub tasks: Vec<String>,
    pub conversation_history: Vec<AgentExchangeSnapshot>,
    pub current_working_directory: Option<String>,
    pub mcp_context: Option<McpContext>,
    pub legacy_api_keys: ApiKeys,
}

/// What [`RequestParams`] are.
pub struct RequestParamsView {
    pub resolved_provider: Result<ResolvedProviderView, ProviderResolutionErrorView>,
    pub input: Seq<AgentInputView>,
    pub conversation_token: Option<Seq<char>>,
    pub tasks: Seq<Seq<char>>,
    pub conversation_history: Seq<AgentExchangeSnapshotView>,
    pub current_working_directory: Option<Seq<char>>,
    pub mcp_context: Option<McpContextView>,
    pub openai_key: Option<Seq<char>>,
    pub anthropic_key: Option<Seq<char>>,
}

impl View for RequestParams {
    type V = RequestParamsView;

    open spec fn view(&self) -> RequestParamsView {
        RequestParamsView {
            resolved_provider: provider_registry::resolution_view(self.resolved_provider),
            input: self.input.deep_view(),
            conversation_token: self.conversation_token.deep_view(),
            tasks: self.tasks.deep_view(),
            conversation_history: self.conversation_history.deep_view(),
            current_working_directory: self.current_working_directory.deep_view(),
            mcp_context: self.mcp_context.deep_view(),
            openai_key: self.legacy_api_keys.openai.deep_view(),
            anthropic_key: self.legacy_api_keys.anthropic.deep_view(),
        }
    }
}

// ---------------------------------------------------------------------------
// Requests that are refused
// ---------------------------------------------------------------------------

/// What the user is told where no provider was picked.
pub open spec fn resolution_message(error: ProviderResolutionErrorView) -> Seq<char> {
    match error {
        ProviderResolutionErrorView::UnknownProvider { provider_id } => "The provider '"@ + provider_id
            + "' used in this conversation has been deleted. Please select a different model to continue."@,
        ProviderResolutionErrorView::DisabledProvider { provider_id } => "The provider '"@ + provider_id
            + "' used in this conversation has been disabled. Please select a different model to continue."@,
        ProviderResolutionErrorView::UnknownModel { provider_id, model_id } => "The model '"@ + model_id
            + "' from provider '"@ + provider_id
            + "' is no longer available. Please select a different model to continue."@,
        ProviderResolutionErrorView::TeamPolicyBlocked { provider_id, reason } => "The provider '"@ + provider_id
            + "' is blocked by team policy: "@ + reason + ". Please select a different model to continue."@,
        ProviderResolutionErrorView::StaleModel { provider_id, model_id } => "The model '"@ + model_id
            + "' from provider '"@ + provider_id
            + "' needs to be refreshed before it can be used. Please validate the provider or select a different model to continue."@,
    }
}

/// What the user is told where no provider was picked.
pub fn provider_error_message(error: &ProviderResolutionError) -> (r: String)
    ensures
        r@ == resolution_message(error@),
{
    match error {
        ProviderResolutionError::UnknownProvider { provider_id } => "The provider '".to_string().concat(
            provider_id.as_str(),
        ).concat("' used in this conversation has been deleted. Please select a different model to continue."),
        ProviderResolutionError::DisabledProvider { provider_id } => "The provider '".to_string().concat(
            provider_id.as_str(),
        ).concat("' used in this conversation has been disabled. Please select a different model to continue."),
        ProviderResolutionError::UnknownModel { provider_id, model_id } => "The model '".to_string().concat(
            model_id.as_str(),
        ).concat("' from provider '").concat(provider_id.as_str()).concat(
            "' is no longer available. Please select a different model to continue.",
        ),
        ProviderResolutionError::TeamPolicyBlocked { provider_id, reason } => "The provider '".to_string().concat(
            provider_id.as_str(),
        ).concat("' is blocked by team policy: ").concat(reason.as_str()).concat(
            ". Please select a different model to continue.",
        ),
        ProviderResolutionError::StaleModel { provider_id, model_id } => "The model '".to_string().concat(
            model_id.as_str(),
        ).concat("' from provider '").concat(provider_id.as_str()).concat(
            "' needs to be refreshed before it can be used. Please validate the provider or select a different model to continue.",
        ),
    }
}

/// What the user is told where no query can be made of the input.
pub const NO_QUERY_MESSAGE: &'static str = "Direct providers currently support text user-query turns without attachments only";

/// Why a request is refused, where it is: no provider was picked, or no query can
/// be made of the input.
pub open spec fn refusal(params: RequestParamsView) -> Option<Seq<char>> {
    match params.resolved_provider {
        Err(error) => Some(resolution_message(error)),
        Ok(_) => if agent_input::latest_query(params.input) is None {
            Some(NO_QUERY_MESSAGE@)
        } else {
            None
        },
    }
}

// ---------------------------------------------------------------------------
// Ids
// ---------------------------------------------------------------------------

/// Are these ids for a request? It goes on with the conversation and the task
/// that it comes with; the other ids are new.
pub open spec fn are_ids_for(ids: RunIdsView, params: RequestParamsView) -> bool {
    &&& match params.conversation_token {
        Some(token) => ids.conversation_id == token,
        None => fresh_id::is_uuid_text(ids.conversation_id),
    }
    &&& fresh_id::is_uuid_text(ids.request_id)
    &&& if params.tasks.len() > 0 {
        ids.task_id == params.tasks[0]
    } else {
        fresh_id::is_uuid_text(ids.task_id)
    }
    &&& fresh_id::is_uuid_text(ids.message_id)
}

/// Ids for a request.
pub fn new_run_ids(params: &RequestParams) -> (r: RunIds)
    ensures
        are_ids_for(r@, params@),
{
    let conversation_id = match &params.conversation_token {
        Some(token) => token.clone(),
        None => fresh_uuid(),
    };
    let request_id = fresh_uuid();
    let task_id = if params.tasks.len() > 0 {
        params.tasks[0].clone()
    } else {
        fresh_uuid()
    };
    let message_id = fresh_uuid();
    RunIds { conversation_id, request_id, task_id, message_id }
}

// ---------------------------------------------------------------------------
// Runs
// ---------------------------------------------------------------------------

/// The description of a task: the query that is shown, where there is one.
pub open spec fn description_of(input: Seq<AgentInputView>) -> Seq<char> {
    match agent_input::latest_shown_query(input) {
        Some(query) => query,
        None => Seq::empty(),
    }
}

/// The description of a task.
fn description(params: &RequestParams) -> (r: String)
    ensures
        r@ == description_of(params@.input),
{
    match latest_user_query(params.input.as_slice()) {
        Some(query) => query,
        None => String::new(),
    }
}

/// The tools for a request; none where the provider has none.
pub open spec fn tools_for(params: RequestParamsView, provider: ResolvedProviderView) -> Seq<ToolDefinitionView> {
    if provider.capabilities.tools.is_enabled() == Some(false) {
        Seq::empty()
    } else {
        tools::collected_tools(params.mcp_context)
    }
}

/// The tools for a request.
fn request_tools(params: &RequestParams, provider: &ResolvedProvider) -> (r: Vec<ToolDefinition>)
    ensures
        r.deep_view() == tools_for(params@, provider@),
{
    let has_none = match provider.capabilities.tools.is_enabled() {
        Some(enabled) => !enabled,
        None => false,
    };
    if has_none {
        let none: Vec<ToolDefinition> = Vec::new();
        proof {
            assert(none.deep_view() =~= Seq::<ToolDefinitionView>::empty());
        }
        none
    } else {
        collect_tools(&params.mcp_context)
    }
}

/// What becomes of a request.
#[derive(Debug)]
pub enum DirectOutput {
    /// It is refused, and the user is told why.
    Refused(String),
    /// It is run.
    Run { run: DirectRun, step: RunStep },
}

/// What a [`DirectOutput`] is.
pub enum DirectOutputView {
    Refused(Seq<char>),
    Run { run: DirectRunView, step: RunStepView },
}

impl View for DirectOutput {
    type V = DirectOutputView;

    open spec fn view(&self) -> DirectOutputView {
        match self {
            DirectOutput::Refused(message) => DirectOutputView::Refused(message@),
            DirectOutput::Run { run, step } => DirectOutputView::Run { run: run@, step: step@ },
        }
    }
}

/// The run of a request that is not refused.
pub open spec fn run_of(
    params: RequestParamsView,
    auth: AuthMaterialView,
    host: HostContext,
    time: Seq<char>,
    ids: RunIdsView,
) -> DirectRunView {
    let provider = params.resolved_provider->Ok_0;
    let (query, images) = agent_input::latest_query(params.input)->0;
    DirectRunView::initial(
        provider,
        auth,
        tools_for(params, provider),
        conversation::conversation_messages(
            conversation::system_text(host.os@, host.arch@, time, params.current_working_directory),
            params.conversation_history,
            query,
            images,
        ),
        ids,
        description_of(params.input),
        params.tasks.len() == 0,
    )
}

/// What becomes of a request at a time that is given as a text, under these ids,
/// when the lookup of its secret gave `found`.
pub open spec fn output_of(
    params: RequestParamsView,
    host: HostContext,
    time: Seq<char>,
    ids: RunIdsView,
    found: Option<Seq<char>>,
) -> DirectOutputView {
    match refusal(params) {
        Some(message) => DirectOutputView::Refused(message),
        None => match direct_auth::auth_of(
            params.resolved_provider->Ok_0,
            params.openai_key,
            params.anthropic_key,
            found,
        ) {
            Err(error) => DirectOutputView::Refused(error.shown()),
            Ok(auth) => {
                let run = run_of(params, auth, host, time, ids);
                DirectOutputView::Run { run, step: run.start() }
            },
        },
    }
}

/// What becomes of a request at a time that is given as a text, under these ids,
/// when the lookup of its secret gave `found`.
pub fn direct_output_with(
    params: &RequestParams,
    host: &HostContext,
    time: &str,
    ids: RunIds,
    found: Option<String>,
) -> (r: DirectOutput)
    ensures
        r@ == output_of(params@, *host, time@, ids@, found.deep_view()),
{
    let provider = match &params.resolved_provider {
        Ok(provider) => provider,
        Err(error) => {
            return DirectOutput::Refused(provider_error_message(error));
        },
    };
    let (query, images) = match latest_direct_provider_query(params.input.as_slice()) {
        Some(query) => query,
        None => {
            return DirectOutput::Refused(NO_QUERY_MESSAGE.to_string());
        },
    };
    let auth = match finish_auth(provider, &params.legacy_api_keys, found) {
        Ok(auth) => auth,
        Err(error) => {
            return DirectOutput::Refused(error.to_string());
        },
    };
    let cwd = match &params.current_working_directory {
        Some(path) => Some(path.as_str()),
        None => None,
    };
    let system = system_message_at(host, time, cwd);
    let messages = conversation_with_system(system, params.conversation_history.as_slice(), query, images);
    let run = DirectRun::new(
        provider.clone(),
        auth,
        request_tools(params, provider),
        messages,
        ids,
        description(params),
        params.tasks.len() == 0,
    );
    let step = run.start();
    DirectOutput::Run { run, step }
}

/// Where the secret of a request is looked up; nowhere where it is refused.
pub open spec fn output_lookup(params: RequestParamsView) -> SecretLookupView {
    match refusal(params) {
        Some(_) => SecretLookupView::Nowhere,
        None => direct_auth::lookup_of(
            params.resolved_provider->Ok_0,
            params.openai_key,
            params.anthropic_key,
        ),
    }
}

/// Where the secret of a request is looked up.
fn find_lookup(params: &RequestParams) -> (r: SecretLookup)
    ensures
        r@ == output_lookup(params@),
{
    match &params.resolved_provider {
        Ok(provider) => {
            if latest_direct_provider_query(params.input.as_slice()).is_some() {
                secret_lookup(provider, &params.legacy_api_keys)
            } else {
                SecretLookup::Nowhere
            }
        },
        Err(_) => SecretLookup::Nowhere,
    }
}

/// Is this what becomes of a request now, if the lookup of its secret gave
/// `found`?
pub open spec fn is_output(
    output: DirectOutputView,
    params: RequestParamsView,
    host: HostContext,
    found: Option<Seq<char>>,
) -> bool {
    exists|now: TimestampView, ids: RunIdsView|
        are_ids_for(ids, params) && output == #[trigger] output_of(
            params,
            host,
            clock::formatted_utc(now, PROMPT_TIME_PATTERN@),
            ids,
            found,
        )
}

/// Runs a request of the agent, or refuses it. `read_env` reads an environment
/// variable and `resolve_secret` secure storage; at most one of them is asked.
pub fn generate_direct_provider_output(
    params: &RequestParams,
    host: &HostContext,
    read_env: impl Fn(&str) -> Option<String>,
    resolve_secret: impl Fn(&str) -> Option<String>,
) -> (r: DirectOutput)
    requires
        forall|name: &str| call_requires(read_env, (name,)),
        forall|reference: &str| call_requires(resolve_secret, (reference,)),
    ensures
        match output_lookup(params@) {
            SecretLookupView::Nowhere => is_output(r@, params@, *host, None),
            SecretLookupView::Environment(wanted) => exists|name: &str, found: Option<String>|
                name@ == wanted && #[trigger] call_ensures(read_env, (name,), found) && is_output(
                    r@,
                    params@,
                    *host,
                    found.deep_view(),
                ),
            SecretLookupView::Storage(wanted) => exists|reference: &str, found: Option<String>|
                reference@ == wanted && #[trigger] call_ensures(resolve_secret, (reference,), found) && is_output(
                    r@,
                    params@,
                    *host,
                    found.deep_view(),
                ),
        },
{
    let time = prompt_time();
    let ids = new_run_ids(params);
    let found = match find_lookup(params) {
        SecretLookup::Nowhere => None,
        SecretLookup::Environment(name) => read_env(name.as_str()),
        SecretLookup::Storage(reference) => resolve_secret(reference.as_str()),
    };
    let ghost now = choose|now: TimestampView| time@ == #[trigger] clock::formatted_utc(now, PROMPT_TIME_PATTERN@);
    let ghost made = ids@;
    let ghost answer = found.deep_view();
    let r = direct_output_with(params, host, time.as_str(), ids, found);
    proof {
        assert(r@ == output_of(params@, *host, clock::formatted_utc(now, PROMPT_TIME_PATTERN@), made, answer));
        assert(is_output(r@, params@, *host, answer));
    }
    r
}

// ---------------------------------------------------------------------------
// Answers in one piece
// ---------------------------------------------------------------------------

/// What the client is told of an answer that came in one piece.
pub open spec fn response_events(
    ids: RunIdsView,
    description: Seq<char>,
    tasks_empty: bool,
    output: Seq<char>,
) -> Seq<ResponseEventView> {
    let create = if tasks_empty {
        seq![ClientActionView::CreateTask { task_id: ids.task_id, description }]
    } else {
        Seq::empty()
    };
    seq![
        ResponseEventView::Init {
            conversation_id: ids.conversation_id,
            request_id: ids.request_id,
            run_id: ids.conversation_id,
        },
        ResponseEventView::ClientActions(
            create.push(
                ClientActionView::AddMessagesToTask {
                    task_id: ids.task_id,
                    message_id: ids.message_id,
                    request_id: ids.request_id,
                    text: output,
                },
            ),
        ),
        ResponseEventView::Finished,
    ]
}

/// What the client is told of an answer that came in one piece, under these ids.
pub fn response_events_with(
    ids: &RunIds,
    description: String,
    tasks_empty: bool,
    output: String,
) -> (r: Vec<ResponseEvent>)
    ensures
        r.deep_view() == response_events(ids@, description@, tasks_empty, output@),
{
    let mut actions: Vec<ClientAction> = Vec::new();
    let ghost mut listed = Seq::<ClientActionView>::empty();
    if tasks_empty {
        let action = ClientAction::CreateTask { task_id: ids.task_id.clone(), description };
        proof {
            listed = listed.push(action@);
        }
        actions.push(action);
    }
    let action = ClientAction::AddMessagesToTask {
        task_id: ids.task_id.clone(),
        message_id: ids.message_id.clone(),
        request_id: ids.request_id.clone(),
        text: output,
    };
    proof {
        listed = listed.push(action@);
    }
    actions.push(action);
    proof {
        assert(actions.deep_view() =~= listed);
    }
    let init = ResponseEvent::Init {
        conversation_id: ids.conversation_id.clone(),
        request_id: ids.request_id.clone(),
        run_id: ids.conversation_id.clone(),
    };
    let ghost begun = init@;
    let done = ResponseEvent::ClientActions(actions);
    let ghost told = done@;
    let events = vec![init, done, ResponseEvent::Finished];
    proof {
        assert(events.deep_view() =~= seq![begun, told, ResponseEventView::Finished]);
        assert(told->ClientActions_0 =~= response_events(ids@, description@, tasks_empty, output@)[1]->ClientActions_0);
    }
    events
}

/// What the client is told of an answer that came in one piece.
pub fn direct_response_events(params: &RequestParams, output: String) -> (r: Vec<ResponseEvent>)
    ensures
        exists|ids: RunIdsView|
            #[trigger] are_ids_for(ids, params@) && r.deep_view() == response_events(
                ids,
                description_of(params@.input),
                params@.tasks.len() == 0,
                output@,
            ),
{
    let ids = new_run_ids(params);
    response_events_with(&ids, description(params), params.tasks.len() == 0, output)
}

// ---------------------------------------------------------------------------
// Laws
// ---------------------------------------------------------------------------

/// A request for which no provider was picked is refused, and nothing is asked:
/// no other provider takes its place.
pub proof fn law_unresolved_requests_are_refused(
    params: RequestParamsView,
    host: HostContext,
    time: Seq<char>,
    ids: RunIdsView,
    found: Option<Seq<char>>,
    error: ProviderResolutionErrorView,
)
    requires
        params.resolved_provider == Err::<ResolvedProviderView, ProviderResolutionErrorView>(error),
    ensures
        output_of(params, host, time, ids, found) == DirectOutputView::Refused(resolution_message(error)),
        output_lookup(params) == SecretLookupView::Nowhere,
{
}

/// A request that is run is run with the provider that was picked, and under the
/// ids that it was given.
pub proof fn law_runs_use_the_picked_provider(
    params: RequestParamsView,
    host: HostContext,
    time: Seq<char>,
    ids: RunIdsView,
    found: Option<Seq<char>>,
)
    ensures
        output_of(params, host, time, ids, found) matches DirectOutputView::Run { run, step } ==> {
            &&& params.resolved_provider == Ok::<ResolvedProviderView, ProviderResolutionErrorView>(run.provider)
            &&& run.ids == ids
            &&& run.valid()
            &&& step == run.start()
        },
{
}

/// A request is run with what it asks: the conversation so far, then the latest
/// query with its images, and the tools that are to be had, unless the user has
/// switched tools off for the provider.
pub proof fn law_runs_ask_the_latest_query(
    params: RequestParamsView,
    host: HostContext,
    time: Seq<char>,
    ids: RunIdsView,
    found: Option<Seq<char>>,
    query: Seq<char>,
    images: Seq<crate::conversation::SerializedImageView>,
)
    requires
        agent_input::latest_query(params.input) == Some((query, images)),
    ensures
        output_of(params, host, time, ids, found) matches DirectOutputView::Run { run, .. } ==> {
            &&& run.messages.len() == 2 * params.conversation_history.len() + 2
            &&& run.messages.last() == conversation::ProviderMessageView::user_with_images(query, images)
            &&& run.messages[0] == conversation::ProviderMessageView::plain(
                "system"@,
                conversation::system_text(host.os@, host.arch@, time, params.current_working_directory),
            )
            &&& forall|k: int|
                0 <= k < params.conversation_history.len() ==> {
                    &&& run.messages[2 * k + 1] == conversation::ProviderMessageView::user_with_images(
                        (#[trigger] params.conversation_history[k]).user_query,
                        params.conversation_history[k].user_images,
                    )
                    &&& run.messages[2 * k + 2] == conversation::ProviderMessageView::plain(
                        "assistant"@,
                        params.conversation_history[k].assistant_text,
                    )
                }
            &&& agent_input::latest_shown_query(params.input) matches Some(shown) ==> run.description == shown
            &&& agent_input::latest_shown_query(params.input) is None ==> run.description.len() == 0
            &&& direct_auth::auth_of(run.provider, params.openai_key, params.anthropic_key, found) == Ok::<
                AuthMaterialView,
                crate::direct_error::DirectProviderErrorView,
            >(run.auth)
            &&& run.turn == 0
            &&& run.tasks_empty <==> params.tasks.len() == 0
            &&& run.accumulated_text.len() == 0
            &&& run.provider.capabilities.tools.is_enabled() == Some(false) ==> run.tools.len() == 0
            &&& run.provider.capabilities.tools.is_enabled() != Some(false) ==> run.tools == tools::collected_tools(
                params.mcp_context,
            )
        },
{
    if output_of(params, host, time, ids, found) is Run {
        conversation::law_conversation_alternates(
            conversation::system_text(host.os@, host.arch@, time, params.current_working_directory),
            params.conversation_history,
            query,
            images,
        );
    }
}

/// A request without a query is refused, and so is one whose secret is not to be
/// had; any other for which a provider was picked is run.
pub proof fn law_requests_are_run_unless_something_is_missing(
    params: RequestParamsView,
    host: HostContext,
    time: Seq<char>,
    ids: RunIdsView,
    found: Option<Seq<char>>,
)
    ensures
        output_of(params, host, time, ids, found) is Run <==> params.resolved_provider is Ok
            && agent_input::latest_query(params.input) is Some && direct_auth::auth_of(
            params.resolved_provider->Ok_0,
            params.openai_key,
            params.anthropic_key,
            found,
        ) is Ok,
{
}

/// An answer that came in one piece is told in full: that the run has begun, the
/// text, in a task that is created where there was none, and that it is over.
pub proof fn law_whole_answers_are_told(
    ids: RunIdsView,
    description: Seq<char>,
    tasks_empty: bool,
    output: Seq<char>,
)
    ensures
        ({
            let events = response_events(ids, description, tasks_empty, output);
            &&& events.len() == 3
            &&& events[0] is Init
            &&& events[2] == ResponseEventView::Finished
            &&& events[1] matches ResponseEventView::ClientActions(actions) && actions.len() == (if tasks_empty {
                2int
            } else {
                1int
            }) && actions.last() == (ClientActionView::AddMessagesToTask {
                task_id: ids.task_id,
                message_id: ids.message_id,
                request_id: ids.request_id,
                text: output,
            }) && (tasks_empty ==> actions[0] == (ClientActionView::CreateTask { task_id: ids.task_id, description }))
        }),
{
}

/// The user is told which provider or model it is that cannot be used.
pub proof fn law_unusable_providers_are_told_by_name(provider_id: Seq<char>, model_id: Seq<char>, reason: Seq<char>)
    ensures
        resolution_message(ProviderResolutionErrorView::UnknownProvider { provider_id }) == "The provider '"@
            + provider_id
            + "' used in this conversation has been deleted. Please select a different model to continue."@,
        resolution_message(ProviderResolutionErrorView::DisabledProvider { provider_id }) == "The provider '"@
            + provider_id
            + "' used in this conversation has been disabled. Please select a different model to continue."@,
        resolution_message(ProviderResolutionErrorView::UnknownModel { provider_id, model_id }) == "The model '"@
            + model_id + "' from provider '"@ + provider_id
            + "' is no longer available. Please select a different model to continue."@,
        resolution_message(ProviderResolutionErrorView::TeamPolicyBlocked { provider_id, reason }) == "The provider '"@
            + provider_id + "' is blocked by team policy: "@ + reason
            + ". Please select a different model to continue."@,
        resolution_message(ProviderResolutionErrorView::StaleModel { provider_id, model_id }) == "The model '"@
            + model_id + "' from provider '"@ + provider_id
            + "' needs to be refreshed before it can be used. Please validate the provider or select a different model to continue."@,
{
}

/// A run goes on in the conversation and the task that are there, under new ids
/// where there are none.
pub proof fn law_runs_go_on_where_they_can(ids: RunIdsView, params: RequestParamsView)
    requires
        are_ids_for(ids, params),
    ensures
        params.conversation_token matches Some(token) ==> ids.conversation_id == token,
        params.conversation_token is None ==> fresh_id::is_uuid_text(ids.conversation_id),
        params.tasks.len() > 0 ==> ids.task_id == params.tasks[0],
        params.tasks.len() == 0 ==> fresh_id::is_uuid_text(ids.task_id),
        fresh_id::is_uuid_text(ids.request_id),
        fresh_id::is_uuid_text(ids.message_id),
{
}

/// Without a query the user is told so, and no secret is looked up; with one, the
/// secret of the provider is.
pub proof fn law_requests_without_a_query_are_refused(
    params: RequestParamsView,
    host: HostContext,
    time: Seq<char>,
    ids: RunIdsView,
    found: Option<Seq<char>>,
)
    requires
        params.resolved_provider is Ok,
    ensures
        agent_input::latest_query(params.input) is None ==> output_of(params, host, time, ids, found)
            == DirectOutputView::Refused(NO_QUERY_MESSAGE@) && output_lookup(params) == SecretLookupView::Nowhere,
        agent_input::latest_query(params.input) is Some ==> output_lookup(params) == direct_auth::lookup_of(
            params.resolved_provider->Ok_0,
            params.openai_key,
            params.anthropic_key,
        ),
{
}

} // verus!
