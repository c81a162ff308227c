//! Requests to a provider that the client talks to itself.
use vstd::prelude::*;
use vstd::string::StringExecFns;

use crate::clock;
use crate::clock::{TimestampView, PROMPT_TIME_PATTERN};
use crate::conversation;
use crate::conversation::{
    build_conversation_messages, HostContext, MessageContent, MessageContentView, ProviderMessage,
    ProviderMessageView,
};
use crate::direct_error::{DirectProviderError, DirectProviderErrorClass, DirectProviderErrorView};
use crate::json;
use crate::json::{object2, object3, push_member, Json, JsonNumber, JsonNumberView, JsonView};
use crate::profile::{ProviderDefaults, ProviderDefaultsView, ProviderKind, ProviderPolicy, Single};
use crate::provider_registry::{ResolvedProvider, ResolvedProviderView};
use crate::provider_validator;
use crate::provider_validator::has_anthropic_api;
use crate::serde_values;
use crate::serde_values::{parse_json, write_members};
use crate::text;
use crate::text::{cat, str_eq, trim, trim_trailing_slashes};
use crate::tools;
use crate::tools::{
    to_anthropic_tools, to_openai_tools, ToolCall, ToolDefinition, ToolDefinitionView, ToolResult, ToolResultView,
};

verus! {

/// A request: where it goes and what it says.
#[derive(Debug)]
pub struct DirectProviderRequest {
    pub kind: ProviderKind,
    pub url: String,
    pub body: Json,
    pub tools: Vec<ToolCall>,
}

/// What a [`DirectProviderRequest`] is. It carries no tool calls.
pub struct DirectProviderRequestView {
    pub kind: ProviderKind,
    pub url: Seq<char>,
    pub body: JsonView,
}

impl View for DirectProviderRequest {
    type V = DirectProviderRequestView;

    open spec fn view(&self) -> DirectProviderRequestView {
        DirectProviderRequestView { kind: self.kind, url: self.url@, body: self.body@ }
    }
}

/// What a request, or the error in its place, is.
pub open spec fn request_view(r: Result<DirectProviderRequest, DirectProviderError>) -> Result<
    DirectProviderRequestView,
    DirectProviderErrorView,
> {
    match r {
        Ok(request) => Ok(request@),
        Err(error) => Err(error@),
    }
}

// ---------------------------------------------------------------------------
// Endpoints
// ---------------------------------------------------------------------------

/// The URL of an endpoint: the base without slashes at its end, and the path.
/// An empty base has none.
pub open spec fn endpoint_url_of(base_url: Seq<char>, path: Seq<char>) -> Result<Seq<char>, DirectProviderErrorView> {
    if text::trimmed(base_url).len() == 0 {
        Err(
            DirectProviderErrorView::plain(
                DirectProviderErrorClass::EndpointUnreachable,
                "provider base URL is empty"@,
            ),
        )
    } else {
        Ok(text::without_trailing_slashes(base_url) + path)
    }
}

/// The URL of an endpoint.
pub fn endpoint_url(base_url: &str, path: &str) -> (r: Result<String, DirectProviderError>)
    ensures
        match r {
            Ok(url) => endpoint_url_of(base_url@, path@) == Ok::<Seq<char>, DirectProviderErrorView>(url@),
            Err(error) => endpoint_url_of(base_url@, path@) == Err::<Seq<char>, DirectProviderErrorView>(error@),
        },
{
    if trim(base_url).is_empty() {
        return Err(
            DirectProviderError::new(DirectProviderErrorClass::EndpointUnreachable, "provider base URL is empty"),
        );
    }
    Ok(cat(trim_trailing_slashes(base_url), path))
}

/// The path of the endpoint for a kind of provider.
pub open spec fn path_of(kind: ProviderKind) -> Seq<char> {
    if provider_validator::speaks_anthropic(kind) {
        "/messages"@
    } else if kind == ProviderKind::OpenAICompatible {
        "/chat/completions"@
    } else {
        "/responses"@
    }
}

/// A request with this body, where its endpoint has a URL.
pub open spec fn request_to(
    kind: ProviderKind,
    base_url: Seq<char>,
    body: JsonView,
) -> Result<DirectProviderRequestView, DirectProviderErrorView> {
    match endpoint_url_of(base_url, path_of(kind)) {
        Ok(url) => Ok(DirectProviderRequestView { kind, url, body }),
        Err(error) => Err(error),
    }
}

/// A request with this body, where its endpoint has a URL.
fn send_to(kind: ProviderKind, base_url: &str, body: Json) -> (r: Result<DirectProviderRequest, DirectProviderError>)
    ensures
        request_view(r) == request_to(kind, base_url@, body@),
        r matches Ok(request) ==> request.tools@.len() == 0,
{
    let path = if has_anthropic_api(kind) {
        "/messages"
    } else {
        match kind {
            ProviderKind::OpenAICompatible => "/chat/completions",
            _ => "/responses",
        }
    };
    match endpoint_url(base_url, path) {
        Ok(url) => Ok(DirectProviderRequest { kind, url, body, tools: Vec::new() }),
        Err(error) => Err(error),
    }
}

// ---------------------------------------------------------------------------
// Bodies
// ---------------------------------------------------------------------------

/// Are these the bits of a finite number?
pub open spec fn is_finite_single(bits: u32) -> bool {
    (bits / 0x80_0000) % 256 != 255
}

/// A single precision number; `null` where it is not finite.
pub open spec fn single_value(number: Single) -> JsonView {
    if is_finite_single(number.bits) {
        JsonView::Number(JsonNumberView::Single(number.bits))
    } else {
        JsonView::Null
    }
}

/// A single precision number; `null` where it is not finite.
pub fn single_json(number: Single) -> (r: Json)
    ensures
        r@ == single_value(number),
{
    if (number.bits / 0x80_0000) % 256 != 255 {
        Json::Number(JsonNumber::Single(number.bits))
    } else {
        Json::Null
    }
}

/// How the model picks its words, where the provider says.
pub open spec fn sampling_members(defaults: ProviderDefaultsView) -> Seq<(Seq<char>, JsonView)> {
    let temperature = match defaults.temperature {
        Some(t) => seq![("temperature"@, single_value(t))],
        None => Seq::empty(),
    };
    let top_p = match defaults.top_p {
        Some(p) => seq![("top_p"@, single_value(p))],
        None => Seq::empty(),
    };
    temperature + top_p
}

/// The tools that the model can call, where there are any.
pub open spec fn tools_members(items: Seq<JsonView>) -> Seq<(Seq<char>, JsonView)> {
    if items.len() == 0 {
        Seq::empty()
    } else {
        seq![("tools"@, JsonView::Array(items))]
    }
}

/// Is the answer streamed? It is unless the provider says otherwise.
pub open spec fn streams(defaults: ProviderDefaultsView) -> bool {
    match defaults.stream {
        Some(stream) => stream,
        None => true,
    }
}

/// The body of a request in the format of OpenAI, whose messages stand in the
/// member `list_name`.
pub open spec fn openai_body(
    model: Seq<char>,
    list_name: Seq<char>,
    list: Seq<JsonView>,
    defaults: ProviderDefaultsView,
    tools: Seq<ToolDefinitionView>,
) -> JsonView {
    JsonView::Object(
        seq![
            ("model"@, JsonView::Text(model)),
            (list_name, JsonView::Array(list)),
            ("stream"@, JsonView::Bool(streams(defaults))),
        ] + sampling_members(defaults) + tools_members(tools::openai_tools(tools)),
    )
}

/// The tokens of an answer at most, where the provider does not say.
pub open spec fn default_max_tokens(policy: ProviderPolicy) -> u32 {
    if policy.allow_manual_model_ids {
        4096
    } else {
        1024
    }
}

/// The tokens of an answer at most.
pub open spec fn max_tokens(defaults: ProviderDefaultsView, policy: ProviderPolicy) -> u32 {
    match defaults.max_output_tokens {
        Some(n) => n,
        None => default_max_tokens(policy),
    }
}

/// The tokens of an answer at most, where the provider does not say.
pub fn default_anthropic_max_tokens(policy: &ProviderPolicy) -> (r: u32)
    ensures
        r == default_max_tokens(*policy),
{
    if policy.allow_manual_model_ids {
        4096
    } else {
        1024
    }
}

/// The system message, where there is one.
pub open spec fn system_members(system: Option<Seq<char>>) -> Seq<(Seq<char>, JsonView)> {
    match system {
        Some(content) => seq![("system"@, JsonView::Text(content))],
        None => Seq::empty(),
    }
}

/// The body of a request in the format of Anthropic.
pub open spec fn anthropic_body(
    model: Seq<char>,
    list: Seq<JsonView>,
    defaults: ProviderDefaultsView,
    policy: ProviderPolicy,
    system: Option<Seq<char>>,
    tools: Seq<ToolDefinitionView>,
) -> JsonView {
    JsonView::Object(
        seq![
            ("model"@, JsonView::Text(model)),
            ("max_tokens"@, provider_validator::unsigned(max_tokens(defaults, policy) as u64)),
            ("messages"@, JsonView::Array(list)),
            ("stream"@, JsonView::Bool(streams(defaults))),
        ] + sampling_members(defaults) + system_members(system) + tools_members(tools::anthropic_tools(tools)),
    )
}

/// Messages by role and content, in the format of OpenAI.
pub open spec fn openai_inputs(messages: Seq<ProviderMessageView>) -> Seq<JsonView> {
    Seq::new(messages.len(), |i: int| messages[i].openai_input())
}

/// Messages of a chat, in the format of OpenAI.
pub open spec fn openai_chats(messages: Seq<ProviderMessageView>) -> Seq<JsonView> {
    Seq::new(messages.len(), |i: int| messages[i].openai_chat())
}

/// Messages in the format of Anthropic.
pub open spec fn anthropic_messages(messages: Seq<ProviderMessageView>) -> Seq<JsonView> {
    Seq::new(messages.len(), |i: int| messages[i].anthropic())
}

/// The messages that are not from the system, in their order.
pub open spec fn said(messages: Seq<ProviderMessageView>) -> Seq<ProviderMessageView>
    decreases messages.len(),
{
    if messages.len() == 0 {
        Seq::empty()
    } else if messages.last().role == "system"@ {
        said(messages.drop_last())
    } else {
        said(messages.drop_last()).push(messages.last())
    }
}

/// The text of the first message from the system; nothing where that message has
/// parts.
pub open spec fn system_content(messages: Seq<ProviderMessageView>) -> Option<Seq<char>>
    decreases messages.len(),
{
    if messages.len() == 0 {
        None
    } else if messages[0].role == "system"@ {
        messages[0].content.as_text()
    } else {
        system_content(messages.drop_first())
    }
}

/// The body of a first request.
pub open spec fn first_body(
    provider: ResolvedProviderView,
    messages: Seq<ProviderMessageView>,
    tools: Seq<ToolDefinitionView>,
) -> JsonView {
    if provider_validator::speaks_anthropic(provider.kind) {
        anthropic_body(
            provider.model,
            anthropic_messages(said(messages)),
            provider.defaults,
            provider.policy,
            system_content(messages),
            tools,
        )
    } else if provider.kind == ProviderKind::OpenAICompatible {
        openai_body(provider.model, "messages"@, openai_inputs(messages), provider.defaults, tools)
    } else {
        openai_body(provider.model, "input"@, openai_inputs(messages), provider.defaults, tools)
    }
}

/// The first request of a conversation.
pub open spec fn first_request(
    provider: ResolvedProviderView,
    messages: Seq<ProviderMessageView>,
    tools: Seq<ToolDefinitionView>,
) -> Result<DirectProviderRequestView, DirectProviderErrorView> {
    if provider.kind == ProviderKind::WarpHosted {
        Err(DirectProviderErrorView::warp_hosted())
    } else {
        request_to(provider.kind, provider.base_url, first_body(provider, messages, tools))
    }
}

/// Adds how the model picks its words, where the provider says.
fn push_sampling(members: &mut Vec<(String, Json)>, defaults: &ProviderDefaults)
    ensures
        json::member_views(final(members)@) == json::member_views(old(members)@) + sampling_members(defaults@),
{
    let ghost before = json::member_views(members@);
    match defaults.temperature {
        Some(t) => push_member(members, "temperature", single_json(t)),
        None => {},
    }
    match defaults.top_p {
        Some(p) => push_member(members, "top_p", single_json(p)),
        None => {},
    }
    proof {
        assert(json::member_views(members@) =~= before + sampling_members(defaults@));
    }
}

/// Adds the tools that the model can call, where there are any.
fn push_tools(members: &mut Vec<(String, Json)>, items: Vec<Json>)
    ensures
        json::member_views(final(members)@) == json::member_views(old(members)@) + tools_members(
            json::views(items@),
        ),
{
    broadcast use json::lemma_array_view;

    let ghost before = json::member_views(members@);
    let ghost given = json::views(items@);
    if items.len() > 0 {
        push_member(members, "tools", Json::Array(items));
    }
    proof {
        assert(json::member_views(members@) =~= before + tools_members(given));
    }
}

/// Is the answer streamed?
fn wants_stream(defaults: &ProviderDefaults) -> (r: bool)
    ensures
        r == streams(defaults@),
{
    match defaults.stream {
        Some(stream) => stream,
        None => true,
    }
}

/// The body of a request in the format of OpenAI.
fn build_openai_body(
    model: &str,
    list_name: &str,
    list: Vec<Json>,
    defaults: &ProviderDefaults,
    tools: &[ToolDefinition],
) -> (r: Json)
    ensures
        r@ == openai_body(model@, list_name@, json::views(list@), defaults@, tools.deep_view()),
{
    broadcast use {json::lemma_array_view, json::lemma_object_view};

    let ghost items = json::views(list@);
    let mut members: Vec<(String, Json)> = Vec::new();
    push_member(&mut members, "model", Json::text(model));
    push_member(&mut members, list_name, Json::Array(list));
    push_member(&mut members, "stream", Json::Bool(wants_stream(defaults)));
    proof {
        assert(json::member_views(members@) =~= seq![
            ("model"@, JsonView::Text(model@)),
            (list_name@, JsonView::Array(items)),
            ("stream"@, JsonView::Bool(streams(defaults@))),
        ]);
    }
    push_sampling(&mut members, defaults);
    push_tools(&mut members, to_openai_tools(tools));
    Json::Object(members)
}

/// The body of a request in the format of Anthropic.
fn build_anthropic_body(
    model: &str,
    list: Vec<Json>,
    defaults: &ProviderDefaults,
    policy: &ProviderPolicy,
    system: Option<&str>,
    tools: &[ToolDefinition],
) -> (r: Json)
    ensures
        r@ == anthropic_body(
            model@,
            json::views(list@),
            defaults@,
            *policy,
            json::opt_str(system),
            tools.deep_view(),
        ),
{
    broadcast use {json::lemma_array_view, json::lemma_object_view};

    let ghost items = json::views(list@);
    let limit: u32 = match defaults.max_output_tokens {
        Some(n) => n,
        None => default_anthropic_max_tokens(policy),
    };
    let mut members: Vec<(String, Json)> = Vec::new();
    push_member(&mut members, "model", Json::text(model));
    push_member(&mut members, "max_tokens", Json::Number(JsonNumber::Unsigned(limit as u64)));
    push_member(&mut members, "messages", Json::Array(list));
    push_member(&mut members, "stream", Json::Bool(wants_stream(defaults)));
    proof {
        assert(json::member_views(members@) =~= seq![
            ("model"@, JsonView::Text(model@)),
            ("max_tokens"@, provider_validator::unsigned(max_tokens(defaults@, *policy) as u64)),
            ("messages"@, JsonView::Array(items)),
            ("stream"@, JsonView::Bool(streams(defaults@))),
        ]);
    }
    push_sampling(&mut members, defaults);
    let ghost before = json::member_views(members@);
    match system {
        Some(content) => push_member(&mut members, "system", Json::text(content)),
        None => {},
    }
    proof {
        assert(json::member_views(members@) =~= before + system_members(json::opt_str(system)));
    }
    push_tools(&mut members, to_anthropic_tools(tools));
    Json::Object(members)
}

/// Messages by role and content, in the format of OpenAI.
fn write_openai_inputs(messages: &Vec<ProviderMessage>) -> (r: Vec<Json>)
    ensures
        json::views(r@) == openai_inputs(messages.deep_view()),
{
    let mut items: Vec<Json> = Vec::new();
    let ghost all = openai_inputs(messages.deep_view());
    let mut i: usize = 0;
    while i < messages.len()
        invariant
            i <= messages@.len(),
            all == openai_inputs(messages.deep_view()),
            json::views(items@) == all.take(i as int),
        decreases messages@.len() - i,
    {
        let ghost before = json::views(items@);
        let item = messages[i].to_openai_input();
        let ghost pushed = item@;
        items.push(item);
        proof {
            assert(json::views(items@) =~= before.push(pushed));
            assert(all.take(i + 1) =~= all.take(i as int).push(all[i as int]));
        }
        i = i + 1;
    }
    proof {
        assert(all.take(i as int) =~= all);
    }
    items
}

/// Messages of a chat, in the format of OpenAI.
fn write_openai_chats(messages: &Vec<ProviderMessage>) -> (r: Vec<Json>)
    ensures
        json::views(r@) == openai_chats(messages.deep_view()),
{
    let mut items: Vec<Json> = Vec::new();
    let ghost all = openai_chats(messages.deep_view());
    let mut i: usize = 0;
    while i < messages.len()
        invariant
            i <= messages@.len(),
            all == openai_chats(messages.deep_view()),
            json::views(items@) == all.take(i as int),
        decreases messages@.len() - i,
    {
        let ghost before = json::views(items@);
        let item = messages[i].to_openai_chat_message();
        let ghost pushed = item@;
        items.push(item);
        proof {
            assert(json::views(items@) =~= before.push(pushed));
            assert(all.take(i + 1) =~= all.take(i as int).push(all[i as int]));
        }
        i = i + 1;
    }
    proof {
        assert(all.take(i as int) =~= all);
    }
    items
}

/// The messages that are not from the system, in the format of Anthropic.
fn write_anthropic_messages(messages: &Vec<ProviderMessage>) -> (r: Vec<Json>)
    ensures
        json::views(r@) == anthropic_messages(said(messages.deep_view())),
{
    let mut items: Vec<Json> = Vec::new();
    let ghost all = messages.deep_view();
    proof {
        assert(json::views(items@) =~= anthropic_messages(said(all.take(0))));
    }
    let mut i: usize = 0;
    while i < messages.len()
        invariant
            i <= messages@.len(),
            all == messages.deep_view(),
            json::views(items@) == anthropic_messages(said(all.take(i as int))),
        decreases messages@.len() - i,
    {
        proof {
            assert(all.take(i + 1).drop_last() =~= all.take(i as int));
            assert(all.take(i + 1).last() == messages@[i as int]@);
        }
        if !str_eq(messages[i].role.as_str(), "system") {
            let ghost before = json::views(items@);
            let item = messages[i].to_anthropic_message();
            let ghost pushed = item@;
            items.push(item);
            proof {
                assert(json::views(items@) =~= before.push(pushed));
                assert(json::views(items@) =~= anthropic_messages(said(all.take(i + 1))));
            }
        }
        i = i + 1;
    }
    proof {
        assert(all.take(i as int) =~= all);
    }
    items
}

/// The text of the first message from the system.
fn find_system_content(messages: &Vec<ProviderMessage>) -> (r: Option<&str>)
    ensures
        json::opt_str(r) == system_content(messages.deep_view()),
{
    let ghost all = messages.deep_view();
    proof {
        assert(all.skip(0) =~= all);
    }
    let mut i: usize = 0;
    while i < messages.len()
        invariant
            i <= messages@.len(),
            all == messages.deep_view(),
            system_content(all) == system_content(all.skip(i as int)),
        decreases messages@.len() - i,
    {
        proof {
            assert(all.skip(i as int)[0] == messages@[i as int]@);
            assert(all.skip(i as int).drop_first() =~= all.skip(i + 1));
        }
        if str_eq(messages[i].role.as_str(), "system") {
            return messages[i].content.as_str();
        }
        i = i + 1;
    }
    None
}

impl DirectProviderRequest {
    /// The first request of a conversation that starts with this query.
    pub fn new(provider: &ResolvedProvider, host: &HostContext, query: String) -> (r: Result<
        Self,
        DirectProviderError,
    >)
        ensures
            exists|now: TimestampView|
                request_view(r) == first_request(
                    provider@,
                    conversation::conversation_messages(
                        conversation::system_text(
                            host.os@,
                            host.arch@,
                            #[trigger] clock::formatted_utc(now, PROMPT_TIME_PATTERN@),
                            None,
                        ),
                        Seq::empty(),
                        query@,
                        Seq::empty(),
                    ),
                    Seq::empty(),
                ),
            r matches Ok(request) ==> request.tools@.len() == 0,
    {
        let ghost asked = query@;
        let messages = build_conversation_messages(provider, host, None, &[], query, Vec::new());
        let ghost now = choose|now: TimestampView|
            messages.deep_view() == conversation::conversation_messages(
                conversation::system_text(
                    host.os@,
                    host.arch@,
                    #[trigger] clock::formatted_utc(now, PROMPT_TIME_PATTERN@),
                    None,
                ),
                Seq::empty(),
                asked,
                Seq::empty(),
            );
        DirectProviderRequest::new_with_messages(provider, messages, &[])
    }

    /// The first request of a conversation with these messages.
    pub fn new_with_messages(
        provider: &ResolvedProvider,
        messages: Vec<ProviderMessage>,
        tools: &[ToolDefinition],
    ) -> (r: Result<Self, DirectProviderError>)
        ensures
            request_view(r) == first_request(provider@, messages.deep_view(), tools.deep_view()),
            r matches Ok(request) ==> request.tools@.len() == 0,
    {
        let body = match provider.kind {
            ProviderKind::OpenAI => build_openai_body(
                provider.model.as_str(),
                "input",
                write_openai_inputs(&messages),
                &provider.defaults,
                tools,
            ),
            ProviderKind::OpenAICompatible => build_openai_body(
                provider.model.as_str(),
                "messages",
                write_openai_inputs(&messages),
                &provider.defaults,
                tools,
            ),
            ProviderKind::WarpHosted => {
                return Err(DirectProviderError::warp_hosted());
            },
            _ => build_anthropic_body(
                provider.model.as_str(),
                write_anthropic_messages(&messages),
                &provider.defaults,
                &provider.policy,
                find_system_content(&messages),
                tools,
            ),
        };
        send_to(provider.kind, provider.base_url.as_str(), body)
    }
}

// ---------------------------------------------------------------------------
// Requests with tool results
// ---------------------------------------------------------------------------

/// The members of the JSON text that reports a tool result to OpenAI.
pub open spec fn function_output_members(result: ToolResultView) -> Seq<(Seq<char>, Seq<char>)> {
    seq![("type"@, "function_call_output"@), ("call_id"@, result.call_id), ("output"@, result.output)]
}

/// The text that reports a tool result: the JSON text `written`, or the output
/// alone where none could be written.
pub open spec fn function_output_of(written: Option<Seq<char>>, output: Seq<char>) -> Seq<char> {
    match written {
        Some(text) => text,
        None => output,
    }
}

/// The text that reports a tool result: the JSON text `written`, or the output
/// alone where none could be written.
pub fn function_output(written: Option<String>, output: &str) -> (r: String)
    ensures
        r@ == function_output_of(written.deep_view(), output@),
{
    match written {
        Some(text) => text,
        None => output.to_string(),
    }
}

/// The text that reports a tool result to OpenAI.
pub open spec fn function_output_text(result: ToolResultView) -> Seq<char> {
    function_output_of(serde_values::written_members(function_output_members(result)), result.output)
}

/// The text that reports a tool result to OpenAI.
fn write_function_output(result: &ToolResult) -> (r: String)
    ensures
        r@ == function_output_text(result@),
{
    let mut members: Vec<(String, String)> = Vec::new();
    members.push(("type".to_string(), "function_call_output".to_string()));
    members.push(("call_id".to_string(), result.call_id.clone()));
    members.push(("output".to_string(), result.output.clone()));
    proof {
        assert(serde_values::pair_views(members@) =~= function_output_members(result@));
    }
    function_output(write_members(members), result.output.as_str())
}

/// The message that reports a tool result to a provider of this kind.
pub open spec fn result_message(kind: ProviderKind, result: ToolResultView) -> ProviderMessageView {
    if kind == ProviderKind::OpenAI {
        ProviderMessageView::plain("user"@, function_output_text(result))
    } else {
        ProviderMessageView {
            role: "tool"@,
            content: MessageContentView::Text(result.output),
            tool_call_id: Some(result.call_id),
        }
    }
}

/// Messages that report tool results.
pub open spec fn result_messages(kind: ProviderKind, results: Seq<ToolResultView>) -> Seq<ProviderMessageView> {
    Seq::new(results.len(), |i: int| result_message(kind, results[i]))
}

/// The messages of a conversation after tool results. Those of an Anthropic
/// conversation do not keep them.
pub open spec fn messages_after(
    kind: ProviderKind,
    messages: Seq<ProviderMessageView>,
    results: Seq<ToolResultView>,
) -> Seq<ProviderMessageView> {
    if kind == ProviderKind::OpenAI || kind == ProviderKind::OpenAICompatible {
        messages + result_messages(kind, results)
    } else {
        messages
    }
}

/// The message that reports a tool result, in the format of Anthropic.
pub open spec fn anthropic_result(result: ToolResultView) -> JsonView {
    JsonView::Object(
        seq![
            ("role"@, JsonView::Text("user"@)),
            (
                "content"@,
                JsonView::Array(
                    seq![
                        JsonView::Object(
                            seq![
                                ("type"@, JsonView::Text("tool_result"@)),
                                ("tool_use_id"@, JsonView::Text(result.call_id)),
                                ("content"@, JsonView::Text(result.output)),
                            ],
                        ),
                    ],
                ),
            ),
        ],
    )
}

/// Messages that report tool results, in the format of Anthropic.
pub open spec fn anthropic_results(results: Seq<ToolResultView>) -> Seq<JsonView> {
    Seq::new(results.len(), |i: int| anthropic_result(results[i]))
}

/// The request that goes on after tool results.
pub open spec fn followup_request(
    kind: ProviderKind,
    base_url: Seq<char>,
    model: Seq<char>,
    defaults: ProviderDefaultsView,
    policy: ProviderPolicy,
    tools: Seq<ToolDefinitionView>,
    messages: Seq<ProviderMessageView>,
    results: Seq<ToolResultView>,
) -> Result<DirectProviderRequestView, DirectProviderErrorView> {
    let after = messages_after(kind, messages, results);
    match kind {
        ProviderKind::OpenAI => request_to(
            kind,
            base_url,
            openai_body(model, "input"@, openai_inputs(after), defaults, tools),
        ),
        ProviderKind::OpenAICompatible => request_to(
            kind,
            base_url,
            openai_body(model, "messages"@, openai_chats(after), defaults, tools),
        ),
        ProviderKind::WarpHosted => Err(DirectProviderErrorView::warp_hosted()),
        _ => request_to(
            kind,
            base_url,
            anthropic_body(
                model,
                anthropic_messages(said(messages)) + anthropic_results(results),
                defaults,
                policy,
                system_content(messages),
                tools,
            ),
        ),
    }
}

/// Adds the messages that report tool results.
fn push_results(kind: ProviderKind, messages: &mut Vec<ProviderMessage>, tool_results: &[ToolResult])
    ensures
        final(messages).deep_view() == old(messages).deep_view() + result_messages(kind, tool_results.deep_view()),
{
    let ghost before = messages.deep_view();
    let ghost all = result_messages(kind, tool_results.deep_view());
    proof {
        assert(messages.deep_view() =~= before + all.take(0));
    }
    let mut i: usize = 0;
    while i < tool_results.len()
        invariant
            i <= tool_results@.len(),
            all == result_messages(kind, tool_results.deep_view()),
            messages.deep_view() == before + all.take(i as int),
        decreases tool_results@.len() - i,
    {
        let ghost so_far = messages.deep_view();
        let message = match kind {
            ProviderKind::OpenAI => ProviderMessage {
                role: "user".to_string(),
                content: MessageContent::Text(write_function_output(&tool_results[i])),
                tool_call_id: None,
            },
            _ => ProviderMessage {
                role: "tool".to_string(),
                content: MessageContent::Text(tool_results[i].output.clone()),
                tool_call_id: Some(tool_results[i].call_id.clone()),
            },
        };
        let ghost pushed = message@;
        messages.push(message);
        proof {
            assert(all[i as int] == pushed);
            assert(messages.deep_view() =~= so_far.push(pushed));
            assert(all.take(i + 1) =~= all.take(i as int).push(all[i as int]));
            assert(messages.deep_view() =~= before + all.take(i + 1));
        }
        i = i + 1;
    }
    proof {
        assert(all.take(i as int) =~= all);
    }
}

/// The message that reports a tool result, in the format of Anthropic.
fn write_anthropic_result(result: &ToolResult) -> (r: Json)
    ensures
        r@ == anthropic_result(result@),
{
    broadcast use json::lemma_array_view;

    let report = object3(
        "type",
        Json::text("tool_result"),
        "tool_use_id",
        Json::text(result.call_id.as_str()),
        "content",
        Json::text(result.output.as_str()),
    );
    let ghost reported = report@;
    let items = vec![report];
    proof {
        assert(json::views(items@) =~= seq![reported]);
    }
    object2("role", Json::text("user"), "content", Json::Array(items))
}

/// Adds messages that report tool results, in the format of Anthropic.
fn push_anthropic_results(items: &mut Vec<Json>, tool_results: &[ToolResult])
    ensures
        json::views(final(items)@) == json::views(old(items)@) + anthropic_results(tool_results.deep_view()),
{
    let ghost before = json::views(items@);
    let ghost all = anthropic_results(tool_results.deep_view());
    proof {
        assert(json::views(items@) =~= before + all.take(0));
    }
    let mut i: usize = 0;
    while i < tool_results.len()
        invariant
            i <= tool_results@.len(),
            all == anthropic_results(tool_results.deep_view()),
            json::views(items@) == before + all.take(i as int),
        decreases tool_results@.len() - i,
    {
        let ghost so_far = json::views(items@);
        let item = write_anthropic_result(&tool_results[i]);
        let ghost pushed = item@;
        items.push(item);
        proof {
            assert(all[i as int] == pushed);
            assert(json::views(items@) =~= so_far.push(pushed));
            assert(all.take(i + 1) =~= all.take(i as int).push(all[i as int]));
            assert(json::views(items@) =~= before + all.take(i + 1));
        }
        i = i + 1;
    }
    proof {
        assert(all.take(i as int) =~= all);
    }
}

/// The request that goes on after tool results, which are added to the messages
/// of an OpenAI conversation.
pub fn build_followup_request(
    kind: ProviderKind,
    base_url: &str,
    model: &str,
    defaults: &ProviderDefaults,
    policy: &ProviderPolicy,
    tools: &[ToolDefinition],
    messages: &mut Vec<ProviderMessage>,
    tool_results: &[ToolResult],
) -> (r: Result<DirectProviderRequest, DirectProviderError>)
    ensures
        request_view(r) == followup_request(
            kind,
            base_url@,
            model@,
            defaults@,
            *policy,
            tools.deep_view(),
            old(messages).deep_view(),
            tool_results.deep_view(),
        ),
        final(messages).deep_view() == messages_after(kind, old(messages).deep_view(), tool_results.deep_view()),
        r matches Ok(request) ==> request.tools@.len() == 0,
{
    match kind {
        ProviderKind::OpenAI => {
            push_results(kind, messages, tool_results);
            let body = build_openai_body(model, "input", write_openai_inputs(messages), defaults, tools);
            send_to(kind, base_url, body)
        },
        ProviderKind::OpenAICompatible => {
            push_results(kind, messages, tool_results);
            let body = build_openai_body(model, "messages", write_openai_chats(messages), defaults, tools);
            send_to(kind, base_url, body)
        },
        ProviderKind::WarpHosted => Err(DirectProviderError::warp_hosted()),
        _ => {
            let mut list = write_anthropic_messages(messages);
            push_anthropic_results(&mut list, tool_results);
            let body = build_anthropic_body(model, list, defaults, policy, find_system_content(messages), tools);
            send_to(kind, base_url, body)
        },
    }
}

// ---------------------------------------------------------------------------
// Whole answers
// ---------------------------------------------------------------------------

/// The texts of the parts of this type, one after the other.
pub open spec fn parts_text(parts: Seq<JsonView>, part_type: Seq<char>) -> Seq<char>
    decreases parts.len(),
{
    if parts.len() == 0 {
        Seq::empty()
    } else {
        let earlier = parts_text(parts.drop_last(), part_type);
        match parts.last().str_at("text"@) {
            Some(t) if parts.last().str_at("type"@) == Some(part_type) => earlier + t,
            _ => earlier,
        }
    }
}

/// The texts in the contents of items, one after the other.
pub open spec fn items_text(items: Seq<JsonView>) -> Seq<char>
    decreases items.len(),
{
    if items.len() == 0 {
        Seq::empty()
    } else {
        let earlier = items_text(items.drop_last());
        match items.last().array_at("content"@) {
            Some(parts) => earlier + parts_text(parts, "output_text"@),
            None => earlier,
        }
    }
}

/// The text of an answer of the OpenAI Responses API.
pub open spec fn responses_text(value: JsonView) -> Option<Seq<char>> {
    match value.str_at("output_text"@) {
        Some(t) => Some(t),
        None => match value.array_at("output"@) {
            Some(items) => Some(items_text(items)),
            None => None,
        },
    }
}

/// The text of an answer of the OpenAI Chat Completions API: that of its first
/// choice.
pub open spec fn chat_text(value: JsonView) -> Option<Seq<char>> {
    match value.array_at("choices"@) {
        Some(choices) => if choices.len() > 0 {
            choices[0].str_in("message"@, "content"@)
        } else {
            None
        },
        None => None,
    }
}

/// The text of an answer of the Anthropic Messages API.
pub open spec fn messages_text(value: JsonView) -> Option<Seq<char>> {
    match value.array_at("content"@) {
        Some(parts) => Some(parts_text(parts, "text"@)),
        None => None,
    }
}

/// The text of an answer of a provider of this kind.
pub open spec fn answer_text(kind: ProviderKind, value: JsonView) -> Option<Seq<char>> {
    match kind {
        ProviderKind::OpenAI => responses_text(value),
        ProviderKind::OpenAICompatible => chat_text(value),
        ProviderKind::WarpHosted => None,
        _ => messages_text(value),
    }
}

/// The text of an answer that reads as `answer`, or what is wrong with it.
pub open spec fn output_text_of(
    kind: ProviderKind,
    answer: Option<JsonView>,
) -> Result<Seq<char>, DirectProviderErrorView> {
    match answer {
        None => Err(
            DirectProviderErrorView::plain(
                DirectProviderErrorClass::InvalidResponseShape,
                "provider returned invalid JSON"@,
            ),
        ),
        Some(value) => match answer_text(kind, value) {
            Some(t) if t.len() > 0 => Ok(t),
            _ => Err(
                DirectProviderErrorView::plain(
                    DirectProviderErrorClass::InvalidResponseShape,
                    "provider response did not contain output text"@,
                ),
            ),
        },
    }
}

/// What an extracted text, or the error in its place, is.
pub open spec fn text_view(r: Result<String, DirectProviderError>) -> Result<Seq<char>, DirectProviderErrorView> {
    match r {
        Ok(t) => Ok(t@),
        Err(error) => Err(error@),
    }
}

/// The texts of the parts of this type, one after the other.
fn read_parts(parts: &Vec<Json>, part_type: &str) -> (r: String)
    ensures
        r@ == parts_text(json::views(parts@), part_type@),
{
    let mut r = String::new();
    let ghost all = json::views(parts@);
    proof {
        assert(r@ =~= parts_text(all.take(0), part_type@));
    }
    let mut i: usize = 0;
    while i < parts.len()
        invariant
            i <= parts@.len(),
            all == json::views(parts@),
            r@ == parts_text(all.take(i as int), part_type@),
        decreases parts@.len() - i,
    {
        proof {
            assert(all.take(i + 1).drop_last() =~= all.take(i as int));
            assert(all.take(i + 1).last() == parts@[i as int]@);
        }
        match parts[i].str_at("type") {
            Some(found) => {
                if str_eq(found, part_type) {
                    match parts[i].str_at("text") {
                        Some(t) => r.append(t),
                        None => {},
                    }
                }
            },
            None => {},
        }
        i = i + 1;
    }
    proof {
        assert(all.take(i as int) =~= all);
    }
    r
}

/// The text of an answer of the OpenAI Responses API.
pub fn openai_response_output_text(value: &Json) -> (r: Option<String>)
    ensures
        r.deep_view() == responses_text(value@),
{
    match value.str_at("output_text") {
        Some(t) => {
            return Some(t.to_string());
        },
        None => {},
    }
    match value.array_at("output") {
        Some(items) => {
            let mut r = String::new();
            let ghost all = json::views(items@);
            proof {
                assert(r@ =~= items_text(all.take(0)));
            }
            let mut i: usize = 0;
            while i < items.len()
                invariant
                    i <= items@.len(),
                    all == json::views(items@),
                    r@ == items_text(all.take(i as int)),
                decreases items@.len() - i,
            {
                proof {
                    assert(all.take(i + 1).drop_last() =~= all.take(i as int));
                    assert(all.take(i + 1).last() == items@[i as int]@);
                }
                match items[i].array_at("content") {
                    Some(parts) => r.append(read_parts(parts, "output_text").as_str()),
                    None => {},
                }
                i = i + 1;
            }
            proof {
                assert(all.take(i as int) =~= all);
            }
            Some(r)
        },
        None => None,
    }
}

/// The text of an answer of the OpenAI Chat Completions API.
pub fn openai_chat_output_text(value: &Json) -> (r: Option<String>)
    ensures
        r.deep_view() == chat_text(value@),
{
    match value.array_at("choices") {
        Some(choices) => {
            if choices.len() > 0 {
                match choices[0].str_in("message", "content") {
                    Some(t) => Some(t.to_string()),
                    None => None,
                }
            } else {
                None
            }
        },
        None => None,
    }
}

/// The text of an answer of the Anthropic Messages API.
pub fn anthropic_output_text(value: &Json) -> (r: Option<String>)
    ensures
        r.deep_view() == messages_text(value@),
{
    match value.array_at("content") {
        Some(parts) => Some(read_parts(parts, "text")),
        None => None,
    }
}

/// The text of an answer that was read as `answer`, or what is wrong with it.
pub fn output_text(kind: ProviderKind, answer: &Option<Json>) -> (r: Result<String, DirectProviderError>)
    ensures
        text_view(r) == output_text_of(kind, answer.deep_view()),
{
    match answer {
        None => Err(
            DirectProviderError::new(
                DirectProviderErrorClass::InvalidResponseShape,
                "provider returned invalid JSON",
            ),
        ),
        Some(value) => {
            let found = match kind {
                ProviderKind::OpenAI => openai_response_output_text(value),
                ProviderKind::OpenAICompatible => openai_chat_output_text(value),
                ProviderKind::WarpHosted => None,
                _ => anthropic_output_text(value),
            };
            match found {
                Some(t) => {
                    if !t.as_str().is_empty() {
                        return Ok(t);
                    }
                },
                None => {},
            }
            Err(
                DirectProviderError::new(
                    DirectProviderErrorClass::InvalidResponseShape,
                    "provider response did not contain output text",
                ),
            )
        },
    }
}

impl DirectProviderRequest {
    /// The text of the answer `body` to this request.
    pub fn extract_output_text(&self, body: &str) -> (r: Result<String, DirectProviderError>)
        ensures
            text_view(r) == output_text_of(self@.kind, serde_values::parsed_json(body@)),
    {
        let answer = parse_json(body);
        output_text(self.kind, &answer)
    }
}

// ---------------------------------------------------------------------------
// Laws
// ---------------------------------------------------------------------------

/// The names of the members of a body are told apart.
proof fn lemma_body_names()
    ensures
        ({
            let names = seq![
                "model"@,
                "input"@,
                "messages"@,
                "stream"@,
                "temperature"@,
                "top_p"@,
                "tools"@,
                "max_tokens"@,
                "system"@,
            ];
            forall|i: int, j: int| 0 <= i < j < names.len() ==> #[trigger] names[i] != #[trigger] names[j]
        }),
{
    reveal_strlit("model");
    reveal_strlit("input");
    reveal_strlit("messages");
    reveal_strlit("stream");
    reveal_strlit("temperature");
    reveal_strlit("top_p");
    reveal_strlit("tools");
    reveal_strlit("max_tokens");
    reveal_strlit("system");
    assert("model"@.len() == 5 && "model"@[0] == 'm');
    assert("input"@.len() == 5 && "input"@[0] == 'i');
    assert("messages"@.len() == 8);
    assert("stream"@.len() == 6 && "stream"@[1] == 't');
    assert("temperature"@.len() == 11);
    assert("top_p"@.len() == 5 && "top_p"@[0] == 't' && "top_p"@[2] == 'p');
    assert("tools"@.len() == 5 && "tools"@[0] == 't' && "tools"@[2] == 'o');
    assert("max_tokens"@.len() == 10);
    assert("system"@.len() == 6 && "system"@[1] == 'y');
}

/// What is found in how the model picks its words.
proof fn lemma_sampling_lookup(defaults: ProviderDefaultsView, name: Seq<char>)
    requires
        "temperature"@ != "top_p"@,
    ensures
        json::member(sampling_members(defaults), name) == if name == "temperature"@ {
            match defaults.temperature {
                Some(t) => Some(single_value(t)),
                None => None,
            }
        } else if name == "top_p"@ {
            match defaults.top_p {
                Some(p) => Some(single_value(p)),
                None => None,
            }
        } else {
            None
        },
{
    let temperature = match defaults.temperature {
        Some(t) => seq![("temperature"@, single_value(t))],
        None => Seq::empty(),
    };
    let top_p = match defaults.top_p {
        Some(p) => seq![("top_p"@, single_value(p))],
        None => Seq::empty(),
    };
    reveal_with_fuel(json::member, 2);
    json::lemma_lookup_in_joined(temperature, top_p, name);
}

/// What is found in the body of a request to OpenAI.
proof fn lemma_openai_body_lookup(
    model: Seq<char>,
    list_name: Seq<char>,
    list: Seq<JsonView>,
    defaults: ProviderDefaultsView,
    tools: Seq<ToolDefinitionView>,
)
    requires
        list_name == "input"@ || list_name == "messages"@,
    ensures
        ({
            let body = openai_body(model, list_name, list, defaults, tools);
            &&& body.get("model"@) == Some(JsonView::Text(model))
            &&& body.get(list_name) == Some(JsonView::Array(list))
            &&& list_name == "input"@ ==> body.get("messages"@) is None
            &&& list_name == "messages"@ ==> body.get("input"@) is None
            &&& body.get("stream"@) == Some(JsonView::Bool(streams(defaults)))
            &&& body.get("temperature"@) == json::member(sampling_members(defaults), "temperature"@)
            &&& body.get("top_p"@) == json::member(sampling_members(defaults), "top_p"@)
            &&& body.get("tools"@) == json::member(tools_members(tools::openai_tools(tools)), "tools"@)
            &&& body.get("max_tokens"@) is None
            &&& body.get("system"@) is None
        }),
{
    lemma_body_names();
    let names = seq![
        "model"@,
        "input"@,
        "messages"@,
        "stream"@,
        "temperature"@,
        "top_p"@,
        "tools"@,
        "max_tokens"@,
        "system"@,
    ];
    let head = seq![
        ("model"@, JsonView::Text(model)),
        (list_name, JsonView::Array(list)),
        ("stream"@, JsonView::Bool(streams(defaults))),
    ];
    let sampling = sampling_members(defaults);
    let offered = tools_members(tools::openai_tools(tools));
    assert(names[4] != names[5]);
    assert forall|i: int| 0 <= i < names.len() implies json::member(head + sampling + offered, #[trigger] names[i])
        == match json::member(head, names[i]) {
        Some(value) => Some(value),
        None => match json::member(sampling, names[i]) {
            Some(value) => Some(value),
            None => json::member(offered, names[i]),
        },
    } by {
        json::lemma_lookup_in_joined(head + sampling, offered, names[i]);
        json::lemma_lookup_in_joined(head, sampling, names[i]);
    }
    reveal_with_fuel(json::member, 4);
    assert forall|i: int| 0 <= i < names.len() implies json::member(sampling, #[trigger] names[i]) == if i == 4 {
        json::member(sampling, "temperature"@)
    } else if i == 5 {
        json::member(sampling, "top_p"@)
    } else {
        None
    } by {
        lemma_sampling_lookup(defaults, names[i]);
        if i < 4 {
            assert(names[i] != names[4] && names[i] != names[5]);
        } else if i > 5 {
            assert(names[4] != names[i] && names[5] != names[i]);
        }
    }
    assert(names[0] == "model"@ && names[1] == "input"@ && names[2] == "messages"@ && names[3] == "stream"@);
    assert(names[4] == "temperature"@ && names[5] == "top_p"@ && names[6] == "tools"@);
    assert(names[7] == "max_tokens"@ && names[8] == "system"@);
}

/// What is found in the body of a request to Anthropic.
proof fn lemma_anthropic_body_lookup(
    model: Seq<char>,
    list: Seq<JsonView>,
    defaults: ProviderDefaultsView,
    policy: ProviderPolicy,
    system: Option<Seq<char>>,
    tools: Seq<ToolDefinitionView>,
)
    ensures
        ({
            let body = anthropic_body(model, list, defaults, policy, system, tools);
            &&& body.get("model"@) == Some(JsonView::Text(model))
            &&& body.get("max_tokens"@) == Some(provider_validator::unsigned(max_tokens(defaults, policy) as u64))
            &&& body.get("messages"@) == Some(JsonView::Array(list))
            &&& body.get("input"@) is None
            &&& body.get("stream"@) == Some(JsonView::Bool(streams(defaults)))
            &&& body.get("temperature"@) == json::member(sampling_members(defaults), "temperature"@)
            &&& body.get("top_p"@) == json::member(sampling_members(defaults), "top_p"@)
            &&& body.get("tools"@) == json::member(tools_members(tools::anthropic_tools(tools)), "tools"@)
            &&& body.get("system"@) == match system {
                Some(content) => Some(JsonView::Text(content)),
                None => None,
            }
        }),
{
    lemma_body_names();
    let names = seq![
        "model"@,
        "input"@,
        "messages"@,
        "stream"@,
        "temperature"@,
        "top_p"@,
        "tools"@,
        "max_tokens"@,
        "system"@,
    ];
    let head = seq![
        ("model"@, JsonView::Text(model)),
        ("max_tokens"@, provider_validator::unsigned(max_tokens(defaults, policy) as u64)),
        ("messages"@, JsonView::Array(list)),
        ("stream"@, JsonView::Bool(streams(defaults))),
    ];
    let sampling = sampling_members(defaults);
    let told = system_members(system);
    let offered = tools_members(tools::anthropic_tools(tools));
    assert(names[4] != names[5]);
    assert forall|i: int| 0 <= i < names.len() implies json::member(
        head + sampling + told + offered,
        #[trigger] names[i],
    ) == match json::member(head, names[i]) {
        Some(value) => Some(value),
        None => match json::member(sampling, names[i]) {
            Some(value) => Some(value),
            None => match json::member(told, names[i]) {
                Some(value) => Some(value),
                None => json::member(offered, names[i]),
            },
        },
    } by {
        json::lemma_lookup_in_joined(head + sampling + told, offered, names[i]);
        json::lemma_lookup_in_joined(head + sampling, told, names[i]);
        json::lemma_lookup_in_joined(head, sampling, names[i]);
    }
    reveal_with_fuel(json::member, 5);
    assert forall|i: int| 0 <= i < names.len() implies json::member(sampling, #[trigger] names[i]) == if i == 4 {
        json::member(sampling, "temperature"@)
    } else if i == 5 {
        json::member(sampling, "top_p"@)
    } else {
        None
    } by {
        lemma_sampling_lookup(defaults, names[i]);
        if i < 4 {
            assert(names[i] != names[4] && names[i] != names[5]);
        } else if i > 5 {
            assert(names[4] != names[i] && names[5] != names[i]);
        }
    }
    assert(names[0] == "model"@ && names[1] == "input"@ && names[2] == "messages"@ && names[3] == "stream"@);
    assert(names[4] == "temperature"@ && names[5] == "top_p"@ && names[6] == "tools"@);
    assert(names[7] == "max_tokens"@ && names[8] == "system"@);
}

/// The first request, and one after tool results, of the same provider.
pub open spec fn requests_of(
    provider: ResolvedProviderView,
    messages: Seq<ProviderMessageView>,
    tools: Seq<ToolDefinitionView>,
    results: Seq<ToolResultView>,
) -> Seq<Result<DirectProviderRequestView, DirectProviderErrorView>> {
    seq![
        first_request(provider, messages, tools),
        followup_request(
            provider.kind,
            provider.base_url,
            provider.model,
            provider.defaults,
            provider.policy,
            tools,
            messages,
            results,
        ),
    ]
}

/// A request can be made where the provider is not hosted by Warp and has a base
/// URL, and only there. It goes to the endpoint for messages, for chats or for
/// responses, below the base URL, as the kind of the provider asks for.
pub proof fn law_requests_go_below_the_base_url(
    provider: ResolvedProviderView,
    messages: Seq<ProviderMessageView>,
    tools: Seq<ToolDefinitionView>,
    results: Seq<ToolResultView>,
    n: int,
)
    requires
        0 <= n < 2,
    ensures
        ({
            let request = requests_of(provider, messages, tools, results)[n];
            let base = text::without_trailing_slashes(provider.base_url);
            &&& request is Ok <==> provider.kind != ProviderKind::WarpHosted && text::trimmed(provider.base_url).len()
                > 0
            &&& provider.kind == ProviderKind::WarpHosted ==> request->Err_0.class
                == DirectProviderErrorClass::UnsupportedCapability
            &&& provider.kind != ProviderKind::WarpHosted && request is Err ==> request->Err_0.class
                == DirectProviderErrorClass::EndpointUnreachable
            &&& request is Ok ==> request->Ok_0.kind == provider.kind
            &&& request is Ok && provider.kind == ProviderKind::OpenAI ==> request->Ok_0.url == base + "/responses"@
            &&& request is Ok && provider.kind == ProviderKind::OpenAICompatible ==> request->Ok_0.url == base
                + "/chat/completions"@
            &&& request is Ok && (provider.kind == ProviderKind::Anthropic || provider.kind
                == ProviderKind::AnthropicCompatible) ==> request->Ok_0.url == base + "/messages"@
        }),
{
}

/// Is this what stands for a single precision number: the number itself where it
/// is finite, `null` where it is not, and nothing where there is none?
pub open spec fn stands_for(found: Option<JsonView>, wanted: Option<Single>) -> bool {
    match wanted {
        None => found is None,
        Some(number) => if number.bits & 0x7f80_0000 == 0x7f80_0000 {
            found == Some(JsonView::Null)
        } else {
            found == Some(JsonView::Number(JsonNumberView::Single(number.bits)))
        },
    }
}

/// A number that is not finite has all bits of its exponent set.
proof fn lemma_single_value(number: Single)
    ensures
        stands_for(Some(single_value(number)), Some(number)),
{
    let bits = number.bits;
    assert((bits & 0x7f80_0000 == 0x7f80_0000) == ((bits / 0x80_0000) % 256 == 255)) by (bit_vector);
}

/// Every request, the first and each after tool results, to a provider of any
/// kind, says how the model picks its words, where the provider says so, and
/// says nothing of it otherwise.
pub proof fn law_requests_carry_the_sampling(
    provider: ResolvedProviderView,
    messages: Seq<ProviderMessageView>,
    tools: Seq<ToolDefinitionView>,
    results: Seq<ToolResultView>,
    n: int,
)
    requires
        0 <= n < 2,
    ensures
        requests_of(provider, messages, tools, results)[n] matches Ok(request) ==> {
            &&& stands_for(request.body.get("temperature"@), provider.defaults.temperature)
            &&& stands_for(request.body.get("top_p"@), provider.defaults.top_p)
        },
{
    lemma_body_lookup(provider, messages, tools, results, n);
    lemma_body_names();
    reveal_strlit("temperature");
    reveal_strlit("top_p");
    assert("temperature"@.len() != "top_p"@.len());
    lemma_sampling_lookup(provider.defaults, "temperature"@);
    lemma_sampling_lookup(provider.defaults, "top_p"@);
    match provider.defaults.temperature {
        Some(t) => lemma_single_value(t),
        None => {},
    }
    match provider.defaults.top_p {
        Some(p) => lemma_single_value(p),
        None => {},
    }
}

/// What is found in the bodies of requests of all kinds.
proof fn lemma_body_lookup(
    provider: ResolvedProviderView,
    messages: Seq<ProviderMessageView>,
    tools: Seq<ToolDefinitionView>,
    results: Seq<ToolResultView>,
    n: int,
)
    requires
        0 <= n < 2,
    ensures
        requests_of(provider, messages, tools, results)[n] matches Ok(request) ==> {
            let body = request.body;
            let is_anthropic = provider.kind == ProviderKind::Anthropic || provider.kind
                == ProviderKind::AnthropicCompatible;
            &&& provider.kind != ProviderKind::WarpHosted
            &&& body.get("model"@) == Some(JsonView::Text(provider.model))
            &&& body.get("stream"@) == Some(JsonView::Bool(streams(provider.defaults)))
            &&& body.get("temperature"@) == json::member(sampling_members(provider.defaults), "temperature"@)
            &&& body.get("top_p"@) == json::member(sampling_members(provider.defaults), "top_p"@)
            &&& body.get("tools"@) == json::member(
                tools_members(
                    if is_anthropic {
                        tools::anthropic_tools(tools)
                    } else {
                        tools::openai_tools(tools)
                    },
                ),
                "tools"@,
            )
            &&& body.get("max_tokens"@) == if is_anthropic {
                Some(provider_validator::unsigned(max_tokens(provider.defaults, provider.policy) as u64))
            } else {
                None
            }
            &&& body.get("system"@) == match system_content(messages) {
                Some(content) if is_anthropic => Some(JsonView::Text(content)),
                _ => None,
            }
            &&& provider.kind == ProviderKind::OpenAI ==> body.get("messages"@) is None && body.get("input"@) == Some(
                JsonView::Array(
                    if n == 0 {
                        openai_inputs(messages)
                    } else {
                        openai_inputs(messages + result_messages(provider.kind, results))
                    },
                ),
            )
            &&& provider.kind == ProviderKind::OpenAICompatible ==> body.get("input"@) is None && body.get("messages"@)
                == Some(
                JsonView::Array(
                    if n == 0 {
                        openai_inputs(messages)
                    } else {
                        openai_chats(messages + result_messages(provider.kind, results))
                    },
                ),
            )
            &&& is_anthropic ==> body.get("input"@) is None && body.get("messages"@) == Some(
                JsonView::Array(
                    if n == 0 {
                        anthropic_messages(said(messages))
                    } else {
                        anthropic_messages(said(messages)) + anthropic_results(results)
                    },
                ),
            )
        },
{
    let model = provider.model;
    let defaults = provider.defaults;
    let after = messages + result_messages(provider.kind, results);
    if provider.kind == ProviderKind::OpenAI {
        lemma_openai_body_lookup(model, "input"@, openai_inputs(messages), defaults, tools);
        lemma_openai_body_lookup(model, "input"@, openai_inputs(after), defaults, tools);
    } else if provider.kind == ProviderKind::OpenAICompatible {
        lemma_openai_body_lookup(model, "messages"@, openai_inputs(messages), defaults, tools);
        lemma_openai_body_lookup(model, "messages"@, openai_chats(after), defaults, tools);
    } else if provider.kind != ProviderKind::WarpHosted {
        let policy = provider.policy;
        let system = system_content(messages);
        let list = anthropic_messages(said(messages));
        lemma_anthropic_body_lookup(model, list, defaults, policy, system, tools);
        lemma_anthropic_body_lookup(model, list + anthropic_results(results), defaults, policy, system, tools);
    }
}

/// Every request names the model that was picked, and asks for a stream unless
/// the provider says otherwise. One to Anthropic limits the answer as the
/// provider says, and where it does not, to 4096 tokens with models of any id
/// and to 1024 otherwise; others set no limit.
pub proof fn law_requests_name_model_stream_and_limit(
    provider: ResolvedProviderView,
    messages: Seq<ProviderMessageView>,
    tools: Seq<ToolDefinitionView>,
    results: Seq<ToolResultView>,
    n: int,
)
    requires
        0 <= n < 2,
    ensures
        requests_of(provider, messages, tools, results)[n] matches Ok(request) ==> {
            let body = request.body;
            let limit = provider.defaults.max_output_tokens;
            let is_anthropic = provider.kind == ProviderKind::Anthropic || provider.kind
                == ProviderKind::AnthropicCompatible;
            &&& body.str_at("model"@) == Some(provider.model)
            &&& body.get("stream"@) == Some(JsonView::Bool(provider.defaults.stream != Some(false)))
            &&& !is_anthropic ==> body.get("max_tokens"@) is None
            &&& is_anthropic && limit is Some ==> body.get("max_tokens"@) == Some(
                JsonView::Number(JsonNumberView::Unsigned(limit->0 as u64)),
            )
            &&& is_anthropic && limit is None && provider.policy.allow_manual_model_ids ==> body.get("max_tokens"@)
                == Some(JsonView::Number(JsonNumberView::Unsigned(4096)))
            &&& is_anthropic && limit is None && !provider.policy.allow_manual_model_ids ==> body.get("max_tokens"@)
                == Some(JsonView::Number(JsonNumberView::Unsigned(1024)))
        },
{
    lemma_body_lookup(provider, messages, tools, results, n);
}

/// Every request offers all tools, in their order, each with its name and its
/// schema; without tools it says nothing of them.
pub proof fn law_requests_offer_every_tool(
    provider: ResolvedProviderView,
    messages: Seq<ProviderMessageView>,
    tools: Seq<ToolDefinitionView>,
    results: Seq<ToolResultView>,
    n: int,
    i: int,
)
    requires
        0 <= n < 2,
    ensures
        requests_of(provider, messages, tools, results)[n] matches Ok(request) ==> {
            let offered = request.body.array_at("tools"@);
            let is_anthropic = provider.kind == ProviderKind::Anthropic || provider.kind
                == ProviderKind::AnthropicCompatible;
            &&& tools.len() == 0 ==> request.body.get("tools"@) is None
            &&& tools.len() > 0 ==> offered is Some && offered->0.len() == tools.len()
            &&& 0 <= i < tools.len() && is_anthropic ==> {
                &&& offered->0[i].str_at("name"@) == Some(tools[i].name)
                &&& offered->0[i].str_at("description"@) == Some(tools[i].description)
                &&& offered->0[i].get("input_schema"@) == Some(tools[i].input_schema)
            }
            &&& 0 <= i < tools.len() && !is_anthropic ==> {
                &&& offered->0[i].str_at("type"@) == Some("function"@)
                &&& offered->0[i].str_in("function"@, "name"@) == Some(tools[i].name)
                &&& offered->0[i].str_in("function"@, "description"@) == Some(tools[i].description)
                &&& offered->0[i].get("function"@)->0.get("parameters"@) == Some(tools[i].input_schema)
            }
        },
{
    lemma_body_lookup(provider, messages, tools, results, n);
    reveal_with_fuel(json::member, 2);
    if 0 <= i < tools.len() {
        tools::law_tools_are_written_in_full(tools, i);
    }
}

/// The list in a body in which the messages of a conversation stand.
pub open spec fn list_in(kind: ProviderKind, body: JsonView) -> Option<Seq<JsonView>> {
    match kind {
        ProviderKind::OpenAI => body.array_at("input"@),
        _ => body.array_at("messages"@),
    }
}

/// Does an item say what a message says: with its role, and its text or its
/// parts?
pub open spec fn says_message(kind: ProviderKind, item: JsonView, message: ProviderMessageView) -> bool {
    &&& item.str_at("role"@) == Some(message.role)
    &&& match message.content {
        MessageContentView::Text(t) => item.str_at("content"@) == Some(t),
        MessageContentView::Multi(parts) => item.array_at("content"@) matches Some(items) && items.len()
            == parts.len() && forall|k: int|
            0 <= k < parts.len() ==> items[k] == if kind == ProviderKind::Anthropic || kind
                == ProviderKind::AnthropicCompatible {
                (#[trigger] parts[k]).anthropic()
            } else {
                parts[k].openai()
            },
    }
}

/// Every request says every message of the conversation, in their order; one to
/// Anthropic leaves those from the system out of the list.
pub proof fn law_requests_say_every_message(
    provider: ResolvedProviderView,
    messages: Seq<ProviderMessageView>,
    tools: Seq<ToolDefinitionView>,
    results: Seq<ToolResultView>,
    n: int,
    i: int,
)
    requires
        0 <= n < 2,
    ensures
        requests_of(provider, messages, tools, results)[n] matches Ok(request) ==> {
            let is_anthropic = provider.kind == ProviderKind::Anthropic || provider.kind
                == ProviderKind::AnthropicCompatible;
            let told = if is_anthropic {
                messages.filter(|message: ProviderMessageView| message.role != "system"@)
            } else {
                messages
            };
            let added = if n == 0 {
                0
            } else {
                results.len()
            };
            &&& list_in(provider.kind, request.body) matches Some(list) && list.len() == told.len() + added && (0 <= i
                < told.len() ==> says_message(provider.kind, list[i], told[i]))
            &&& provider.kind == ProviderKind::OpenAI ==> request.body.get("messages"@) is None
            &&& provider.kind != ProviderKind::OpenAI ==> request.body.get("input"@) is None
        },
{
    lemma_body_lookup(provider, messages, tools, results, n);
    lemma_said_is_filter(messages);
    let is_anthropic = provider.kind == ProviderKind::Anthropic || provider.kind == ProviderKind::AnthropicCompatible;
    let told = if is_anthropic {
        said(messages)
    } else {
        messages
    };
    if 0 <= i < told.len() {
        conversation::law_messages_are_written_in_full(told[i]);
    }
}

/// The messages that are not from the system are picked out one by one.
proof fn lemma_said_is_filter(messages: Seq<ProviderMessageView>)
    ensures
        said(messages) == messages.filter(|message: ProviderMessageView| message.role != "system"@),
    decreases messages.len(),
{
    reveal(Seq::filter);
    if messages.len() > 0 {
        lemma_said_is_filter(messages.drop_last());
    }
}

/// A request to Anthropic tells apart what the first message from the system
/// says, where that is a text; where no message is from the system, nothing is
/// told. The others never do so.
pub proof fn law_system_message_stands_apart(
    provider: ResolvedProviderView,
    messages: Seq<ProviderMessageView>,
    tools: Seq<ToolDefinitionView>,
    results: Seq<ToolResultView>,
    n: int,
    i: int,
)
    requires
        0 <= n < 2,
    ensures
        requests_of(provider, messages, tools, results)[n] matches Ok(request) ==> {
            let is_anthropic = provider.kind == ProviderKind::Anthropic || provider.kind
                == ProviderKind::AnthropicCompatible;
            let is_first = 0 <= i < messages.len() && messages[i].role == "system"@ && forall|j: int|
                0 <= j < i ==> (#[trigger] messages[j]).role != "system"@;
            &&& !is_anthropic ==> request.body.get("system"@) is None
            &&& (forall|j: int| 0 <= j < messages.len() ==> (#[trigger] messages[j]).role != "system"@)
                ==> request.body.get("system"@) is None
            &&& is_anthropic && is_first ==> (match messages[i].content {
                MessageContentView::Text(t) => request.body.str_at("system"@) == Some(t),
                MessageContentView::Multi(_) => request.body.get("system"@) is None,
            })
        },
{
    lemma_body_lookup(provider, messages, tools, results, n);
    if forall|j: int| 0 <= j < messages.len() ==> (#[trigger] messages[j]).role != "system"@ {
        lemma_no_system_content(messages);
    }
    if 0 <= i < messages.len() && messages[i].role == "system"@ && forall|j: int|
        0 <= j < i ==> (#[trigger] messages[j]).role != "system"@ {
        lemma_first_system_content(messages, i);
    }
}

/// Without a message from the system there is no system message.
proof fn lemma_no_system_content(messages: Seq<ProviderMessageView>)
    requires
        forall|j: int| 0 <= j < messages.len() ==> (#[trigger] messages[j]).role != "system"@,
    ensures
        system_content(messages) is None,
    decreases messages.len(),
{
    if messages.len() > 0 {
        let rest = messages.drop_first();
        assert forall|j: int| 0 <= j < rest.len() implies (#[trigger] rest[j]).role != "system"@ by {
            assert(rest[j] == messages[j + 1]);
        }
        lemma_no_system_content(rest);
    }
}

/// The first message from the system is the system message.
proof fn lemma_first_system_content(messages: Seq<ProviderMessageView>, i: int)
    requires
        0 <= i < messages.len(),
        messages[i].role == "system"@,
        forall|j: int| 0 <= j < i ==> (#[trigger] messages[j]).role != "system"@,
    ensures
        system_content(messages) == messages[i].content.as_text(),
    decreases messages.len(),
{
    if i > 0 {
        let rest = messages.drop_first();
        assert(messages[0].role != "system"@);
        assert forall|j: int| 0 <= j < i - 1 implies (#[trigger] rest[j]).role != "system"@ by {
            assert(rest[j] == messages[j + 1]);
        }
        lemma_first_system_content(rest, i - 1);
    }
}

/// Does an item of a request carry the output of a tool, and the id of the call
/// that it answers? For OpenAI they stand in a JSON text, or the output alone
/// where none can be written.
pub open spec fn carries_result(kind: ProviderKind, item: JsonView, id: Seq<char>, output: Seq<char>) -> bool {
    match kind {
        ProviderKind::OpenAI => item.str_at("role"@) == Some("user"@) && item.str_at("content"@) == match serde_values::written_members(
            seq![("type"@, "function_call_output"@), ("call_id"@, id), ("output"@, output)],
        ) {
            Some(written) => Some(written),
            None => Some(output),
        },
        ProviderKind::OpenAICompatible => item.str_at("role"@) == Some("tool"@) && item.str_at("tool_call_id"@) == Some(
            id,
        ) && item.str_at("content"@) == Some(output),
        _ => item.array_at("content"@) matches Some(blocks) && item.str_at("role"@) == Some("user"@) && blocks.len()
            == 1 && blocks[0].str_at("type"@) == Some("tool_result"@) && blocks[0].str_at("tool_use_id"@) == Some(id)
            && blocks[0].str_at("content"@) == Some(output),
    }
}

/// A request after tool results carries every one of them, behind the messages
/// and in their order, each with the id of its call.
pub proof fn law_requests_carry_every_result(
    provider: ResolvedProviderView,
    messages: Seq<ProviderMessageView>,
    tools: Seq<ToolDefinitionView>,
    results: Seq<ToolResultView>,
    i: int,
)
    requires
        0 <= i < results.len(),
    ensures
        requests_of(provider, messages, tools, results)[1] matches Ok(request) ==> (list_in(
            provider.kind,
            request.body,
        ) matches Some(list) && list.len() >= results.len() && carries_result(
            provider.kind,
            list[list.len() - results.len() + i],
            results[i].call_id,
            results[i].output,
        )),
{
    lemma_body_lookup(provider, messages, tools, results, 1);
    let told = result_message(provider.kind, results[i]);
    conversation::law_messages_are_written_in_full(told);
    reveal_strlit("role");
    reveal_strlit("content");
    reveal_strlit("type");
    reveal_strlit("tool_use_id");
    assert("role"@.len() == 4 && "role"@[0] == 'r');
    assert("content"@.len() == 7);
    assert("type"@.len() == 4 && "type"@[0] == 't');
    assert("tool_use_id"@.len() == 11);
    reveal_with_fuel(json::member, 4);
    assert((messages + result_messages(provider.kind, results))[messages.len() + i] == told);
    assert((anthropic_messages(said(messages)) + anthropic_results(results))[said(messages).len() + i]
        == anthropic_result(results[i]));
}

/// The text in a part of this type; empty for any other part.
pub open spec fn is_text_of(part: JsonView, part_type: Seq<char>, t: Seq<char>) -> bool {
    if part.str_at("type"@) == Some(part_type) && part.str_at("text"@) is Some {
        part.str_at("text"@) == Some(t)
    } else {
        t.len() == 0
    }
}

/// The texts of parts are put together in their order.
proof fn lemma_parts_text(parts: Seq<JsonView>, part_type: Seq<char>, texts: Seq<Seq<char>>)
    requires
        parts.len() == texts.len(),
        forall|i: int| 0 <= i < parts.len() ==> is_text_of(#[trigger] parts[i], part_type, texts[i]),
    ensures
        parts_text(parts, part_type) == texts.flatten(),
    decreases parts.len(),
{
    texts.lemma_flatten_and_flatten_alt_are_equivalent();
    if parts.len() > 0 {
        let front = parts.drop_last();
        let others = texts.drop_last();
        assert forall|i: int| 0 <= i < front.len() implies is_text_of(#[trigger] front[i], part_type, others[i]) by {
            assert(front[i] == parts[i]);
        }
        lemma_parts_text(front, part_type, others);
        others.lemma_flatten_and_flatten_alt_are_equivalent();
        assert(is_text_of(parts[parts.len() - 1], part_type, texts[texts.len() - 1]));
        assert(parts_text(parts, part_type) =~= others.flatten() + texts.last());
    }
}

/// The text of an answer of Anthropic is that of its text parts, one after the
/// other; that of a chat is the content of its first choice.
pub proof fn law_answers_give_their_text(
    value: JsonView,
    parts: Seq<JsonView>,
    texts: Seq<Seq<char>>,
    choices: Seq<JsonView>,
    t: Seq<char>,
)
    ensures
        value.array_at("content"@) == Some(parts) && parts.len() == texts.len() && texts.flatten().len() > 0 && (
        forall|i: int| 0 <= i < parts.len() ==> is_text_of(#[trigger] parts[i], "text"@, texts[i])) ==> {
            &&& output_text_of(ProviderKind::Anthropic, Some(value)) == Ok::<_, DirectProviderErrorView>(texts.flatten())
            &&& output_text_of(ProviderKind::AnthropicCompatible, Some(value)) == Ok::<_, DirectProviderErrorView>(
                texts.flatten(),
            )
        },
        value.array_at("choices"@) == Some(choices) && choices.len() > 0 && choices[0].str_in("message"@, "content"@)
            == Some(t) && t.len() > 0 ==> output_text_of(ProviderKind::OpenAICompatible, Some(value)) == Ok::<
            _,
            DirectProviderErrorView,
        >(t),
        value.str_at("output_text"@) == Some(t) && t.len() > 0 ==> output_text_of(ProviderKind::OpenAI, Some(value))
            == Ok::<_, DirectProviderErrorView>(t),
{
    if value.array_at("content"@) == Some(parts) && parts.len() == texts.len() && forall|i: int|
        0 <= i < parts.len() ==> is_text_of(#[trigger] parts[i], "text"@, texts[i]) {
        lemma_parts_text(parts, "text"@, texts);
    }
}

/// The texts of the items of an answer of OpenAI are put together in their order.
proof fn lemma_items_text(items: Seq<JsonView>, texts: Seq<Seq<Seq<char>>>)
    requires
        items.len() == texts.len(),
        forall|i: int| 0 <= i < items.len() ==> has_texts(#[trigger] items[i], texts[i]),
    ensures
        items_text(items) == Seq::new(texts.len(), |i: int| texts[i].flatten()).flatten(),
    decreases items.len(),
{
    let whole = Seq::new(texts.len(), |i: int| texts[i].flatten());
    whole.lemma_flatten_and_flatten_alt_are_equivalent();
    if items.len() > 0 {
        let front = items.drop_last();
        let others = texts.drop_last();
        assert forall|i: int| 0 <= i < front.len() implies has_texts(#[trigger] front[i], others[i]) by {
            assert(front[i] == items[i]);
        }
        lemma_items_text(front, others);
        let rest = Seq::new(others.len(), |i: int| others[i].flatten());
        rest.lemma_flatten_and_flatten_alt_are_equivalent();
        assert(whole.drop_last() =~= rest);
        let last = texts[texts.len() - 1];
        assert(has_texts(items[items.len() - 1], last));
        match items.last().array_at("content"@) {
            Some(parts) => {
                lemma_parts_text(parts, "output_text"@, last);
            },
            None => {
                assert(last.flatten() =~= Seq::empty());
            },
        }
        assert(items_text(items) =~= rest.flatten() + last.flatten());
    }
}

/// Are these the texts in the content of an item?
pub open spec fn has_texts(item: JsonView, texts: Seq<Seq<char>>) -> bool {
    match item.array_at("content"@) {
        Some(parts) => parts.len() == texts.len() && forall|k: int|
            0 <= k < parts.len() ==> is_text_of(#[trigger] parts[k], "output_text"@, texts[k]),
        None => texts.len() == 0,
    }
}

/// Without a text of its own, an answer of OpenAI gives the texts in the contents
/// of its items, item after item.
pub proof fn law_items_give_their_text(value: JsonView, items: Seq<JsonView>, texts: Seq<Seq<Seq<char>>>)
    requires
        value.str_at("output_text"@) is None,
        value.array_at("output"@) == Some(items),
        items.len() == texts.len(),
        forall|i: int| 0 <= i < items.len() ==> has_texts(#[trigger] items[i], texts[i]),
    ensures
        ({
            let whole = Seq::new(texts.len(), |i: int| texts[i].flatten()).flatten();
            &&& whole.len() > 0 ==> output_text_of(ProviderKind::OpenAI, Some(value)) == Ok::<
                _,
                DirectProviderErrorView,
            >(whole)
            &&& whole.len() == 0 ==> output_text_of(ProviderKind::OpenAI, Some(value)) is Err
        }),
{
    lemma_items_text(items, texts);
}

/// An answer that cannot be read, or that has no text, is an error, and so is any
/// answer of the provider that Warp hosts.
pub proof fn law_answers_without_text_are_errors(kind: ProviderKind, value: JsonView)
    ensures
        output_text_of(kind, None) matches Err(error) && error.class == DirectProviderErrorClass::InvalidResponseShape,
        output_text_of(kind, Some(value)) matches Ok(t) ==> t.len() > 0,
        output_text_of(kind, Some(value)) matches Err(error) ==> error.class
            == DirectProviderErrorClass::InvalidResponseShape,
        output_text_of(ProviderKind::WarpHosted, Some(value)) is Err,
        value.array_at("choices"@) is None ==> output_text_of(ProviderKind::OpenAICompatible, Some(value)) is Err,
        value.array_at("content"@) is None ==> output_text_of(ProviderKind::Anthropic, Some(value)) is Err,
        value.str_at("output_text"@) is None && value.array_at("output"@) is None ==> output_text_of(
            ProviderKind::OpenAI,
            Some(value),
        ) is Err,
{
}

} // verus!
