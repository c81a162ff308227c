use ai_providers::agent_input::{
    latest_direct_provider_query, latest_user_query, AgentContext, AgentInput, AgentRequest,
};
use ai_providers::api_keys::ApiKeys;
use ai_providers::conversation::{
    build_conversation_messages, build_system_message, conversation_with_system, system_message_at,
    AgentExchangeSnapshot, HostContext, MessageContent, ProviderMessage, SerializedImage,
};
use ai_providers::direct_auth::{apply_auth, http_request, resolve_auth, AuthMaterial};
use ai_providers::direct_error::{DirectProviderError, DirectProviderErrorClass, TransportFailure};
use ai_providers::direct_provider::{
    direct_output_with, direct_response_events, generate_direct_provider_output, provider_error_message,
    response_events_with, DirectOutput, RequestParams,
};
use ai_providers::direct_request::{
    build_followup_request, default_anthropic_max_tokens, endpoint_url, DirectProviderRequest,
};
use ai_providers::direct_run::{ClientAction, DirectRun, ResponseEvent, RunAction, RunIds};
use ai_providers::direct_stream::{
    parse_sse_chunk, stream_to_result, SseChunk, StreamSignal, StreamState, StreamStep, StreamingResult,
};
use ai_providers::direct_telemetry::{direct_provider_endpoint_origin_hash, direct_provider_telemetry_hash};
use ai_providers::http_message::HttpMethod;
use ai_providers::http_status::HttpStatus;
use ai_providers::json::{Json, JsonNumber};
use ai_providers::provider_registry::{
    CapabilitySetting, ProviderCapabilities, ProviderDefaults, ProviderKind, ProviderPolicy, ProviderRegistry,
    ProviderResolutionError, ResolvedAuth, ResolvedProvider, Single,
};
use ai_providers::serde_values::parse_json;
use ai_providers::string_map::StringMap;
use ai_providers::tools::{
    collect_tools, dispatch_tool, execution_output, McpContext, McpServer, McpTool, ToolCall, ToolDefinition,
    ToolDispatch, ToolResult,
};

fn host() -> HostContext {
    HostContext { os: "linux".to_string(), arch: "x86_64".to_string() }
}

fn status(code: u16) -> HttpStatus {
    HttpStatus::from_u16(code).unwrap()
}

fn member<'a>(value: &'a Json, name: &str) -> &'a Json {
    value.get(name).unwrap()
}

fn item(value: &Json, index: usize) -> &Json {
    &value.as_array().unwrap()[index]
}

fn resolved_provider(kind: ProviderKind, base_url: &str) -> ResolvedProvider {
    ResolvedProvider {
        profile_id: "test-provider".to_string(),
        kind,
        model: "test-model".to_string(),
        base_url: base_url.to_string(),
        auth: ResolvedAuth::NoAuth,
        headers: StringMap::new(),
        capabilities: ProviderCapabilities::default(),
        policy: ProviderPolicy::for_kind(&kind),
        defaults: ProviderDefaults::default(),
    }
}

#[test]
fn openai_compatible_request_uses_chat_completions_payload() {
    let provider = resolved_provider(ProviderKind::OpenAICompatible, "http://localhost:11434/v1/");

    let request = DirectProviderRequest::new(&provider, &host(), "hello".to_string()).unwrap();

    assert_eq!(request.url, "http://localhost:11434/v1/chat/completions");
    assert_eq!(member(&request.body, "model").as_str(), Some("test-model"));
    // System message + user message
    assert_eq!(member(&request.body, "messages").as_array().unwrap().len(), 2);
    assert_eq!(member(item(member(&request.body, "messages"), 1), "role").as_str(), Some("user"));
    assert_eq!(member(item(member(&request.body, "messages"), 1), "content").as_str(), Some("hello"));
    assert_eq!(member(&request.body, "stream"), &Json::Bool(true));
}

#[test]
fn openai_request_uses_responses_payload() {
    let provider = resolved_provider(ProviderKind::OpenAI, "https://api.openai.com/v1");

    let request = DirectProviderRequest::new(&provider, &host(), "hello".to_string()).unwrap();

    assert_eq!(request.url, "https://api.openai.com/v1/responses");
    assert_eq!(member(&request.body, "model").as_str(), Some("test-model"));
    // System message + user message
    assert_eq!(member(&request.body, "input").as_array().unwrap().len(), 2);
    assert_eq!(member(item(member(&request.body, "input"), 1), "role").as_str(), Some("user"));
    assert_eq!(member(item(member(&request.body, "input"), 1), "content").as_str(), Some("hello"));
    assert_eq!(member(&request.body, "stream"), &Json::Bool(true));
}

#[test]
fn extracts_openai_responses_output_text() {
    let provider = resolved_provider(ProviderKind::OpenAI, "https://api.openai.com/v1");
    let request = DirectProviderRequest::new(&provider, &host(), "hello".to_string()).unwrap();

    assert_eq!(
        request
            .extract_output_text(r#"{"output_text":"direct answer"}"#)
            .unwrap(),
        "direct answer"
    );
}

#[test]
fn extracts_openai_chat_output_text() {
    let provider = resolved_provider(ProviderKind::OpenAICompatible, "http://localhost:11434/v1");
    let request = DirectProviderRequest::new(&provider, &host(), "hello".to_string()).unwrap();

    assert_eq!(
        request
            .extract_output_text(r#"{"choices":[{"message":{"content":"chat answer"}}]}"#)
            .unwrap(),
        "chat answer"
    );
}

#[test]
fn extracts_anthropic_output_text() {
    let provider = resolved_provider(ProviderKind::Anthropic, "https://api.anthropic.com/v1");
    let request = DirectProviderRequest::new(&provider, &host(), "hello".to_string()).unwrap();

    assert_eq!(
        request
            .extract_output_text(r#"{"content":[{"type":"text","text":"anthropic answer"}]}"#)
            .unwrap(),
        "anthropic answer"
    );
}

#[test]
fn classifies_provider_status_errors() {
    assert_eq!(
        DirectProviderError::from_status(status(401), String::new()).class(),
        DirectProviderErrorClass::AuthFailure
    );
    assert_eq!(
        DirectProviderError::from_status(status(404), String::new()).class(),
        DirectProviderErrorClass::MissingModel
    );
    assert_eq!(
        DirectProviderError::from_status(status(429), String::new()).class(),
        DirectProviderErrorClass::RateLimit
    );
}

#[test]
fn telemetry_hashes_model_id_and_endpoint_origin() {
    let model_hash = direct_provider_telemetry_hash("qwen2.5-coder:14b");
    assert!(model_hash.starts_with("sha256:"));
    assert_eq!(model_hash.len(), "sha256:".len() + 64);
    assert!(!model_hash.contains("qwen"));

    let origin_hash =
        direct_provider_endpoint_origin_hash("http://127.0.0.1:11434/v1/chat/completions");
    assert_eq!(
        origin_hash,
        direct_provider_telemetry_hash("http://127.0.0.1:11434")
    );
    assert!(!origin_hash.contains("127.0.0.1"));
    assert!(!origin_hash.contains("11434"));
}

// ---------------------------------------------------------------------------
// Multi-turn conversation message building tests
// ---------------------------------------------------------------------------

#[test]
fn multi_turn_conversation_builds_alternating_messages() {
    let provider = resolved_provider(ProviderKind::OpenAICompatible, "http://localhost:11434/v1/");
    let history = vec![
        AgentExchangeSnapshot {
            user_query: "first question".to_string(),
            assistant_text: "first answer".to_string(),
            user_images: vec![],
        },
        AgentExchangeSnapshot {
            user_query: "second question".to_string(),
            assistant_text: "second answer".to_string(),
            user_images: vec![],
        },
    ];

    let messages = build_conversation_messages(
        &provider, &host(),
        None,
        &history,
        "current query".to_string(),
        vec![],
    );

    // System message + 2 history pairs (user/assistant) + current query
    assert_eq!(messages.len(), 6);
    assert_eq!(messages[0].role, "system");
    assert_eq!(messages[1].role, "user");
    assert_eq!(messages[1].content, "first question");
    assert_eq!(messages[2].role, "assistant");
    assert_eq!(messages[2].content, "first answer");
    assert_eq!(messages[3].role, "user");
    assert_eq!(messages[3].content, "second question");
    assert_eq!(messages[4].role, "assistant");
    assert_eq!(messages[4].content, "second answer");
    assert_eq!(messages[5].role, "user");
    assert_eq!(messages[5].content, "current query");
}

#[test]
fn multi_turn_empty_history_only_current_query() {
    let provider = resolved_provider(ProviderKind::OpenAI, "https://api.openai.com/v1");
    let history: Vec<AgentExchangeSnapshot> = vec![];

    let messages =
        build_conversation_messages(&provider, &host(), None, &history, "hello".to_string(), vec![]);

    // System message + current query
    assert_eq!(messages.len(), 2);
    assert_eq!(messages[0].role, "system");
    assert_eq!(messages[1].role, "user");
    assert_eq!(messages[1].content, "hello");
}

#[test]
fn multi_turn_openai_request_uses_conversation_history() {
    let provider = resolved_provider(ProviderKind::OpenAI, "https://api.openai.com/v1");
    let history = vec![AgentExchangeSnapshot {
        user_query: "what is rust?".to_string(),
        assistant_text: "Rust is a systems programming language.".to_string(),
        user_images: vec![],
    }];

    let request = DirectProviderRequest::new_with_messages(
        &provider,
        build_conversation_messages(
            &provider, &host(),
            None,
            &history,
            "tell me more".to_string(),
            vec![],
        ),
        &[],
    )
    .unwrap();

    assert_eq!(member(&request.body, "input").as_array().unwrap().len(), 4);
    assert_eq!(member(item(member(&request.body, "input"), 0), "role").as_str(), Some("system"));
    assert_eq!(member(item(member(&request.body, "input"), 1), "role").as_str(), Some("user"));
    assert_eq!(member(item(member(&request.body, "input"), 1), "content").as_str(), Some("what is rust?"));
    assert_eq!(member(item(member(&request.body, "input"), 2), "role").as_str(), Some("assistant"));
    assert_eq!(member(item(member(&request.body, "input"), 2), "content").as_str(), Some("Rust is a systems programming language."));
    assert_eq!(member(item(member(&request.body, "input"), 3), "role").as_str(), Some("user"));
    assert_eq!(member(item(member(&request.body, "input"), 3), "content").as_str(), Some("tell me more"));
}

#[test]
fn multi_turn_anthropic_request_uses_system_message() {
    let provider = resolved_provider(ProviderKind::Anthropic, "https://api.anthropic.com/v1");
    let history: Vec<AgentExchangeSnapshot> = vec![];

    let request = DirectProviderRequest::new_with_messages(
        &provider,
        build_conversation_messages(&provider, &host(), None, &history, "hello".to_string(), vec![]),
        &[],
    )
    .unwrap();

    // System message is passed as the `system` field in Anthropic API
    assert!(request.body.get("system").is_some());
    assert_eq!(member(&request.body, "messages").as_array().unwrap().len(), 1);
    assert_eq!(member(item(member(&request.body, "messages"), 0), "role").as_str(), Some("user"));
    assert_eq!(member(item(member(&request.body, "messages"), 0), "content").as_str(), Some("hello"));
}

// ---------------------------------------------------------------------------
// Conversations
// ---------------------------------------------------------------------------

fn image(data: &str) -> SerializedImage {
    SerializedImage { data_base64: data.to_string(), mime_type: "image/png".to_string() }
}

#[test]
fn the_system_message_tells_where_the_model_runs() {
    let message = system_message_at(&host(), "2026-01-02 03:04:05 UTC", Some("/work"));
    let lines: Vec<&str> = message.split('\n').collect();
    assert_eq!(
        lines,
        vec![
            "You are an AI coding assistant running inside Warp, the AI terminal and code editor.",
            "Operating system: linux (x86_64)",
            "Current time: 2026-01-02 03:04:05 UTC",
            "Working directory: /work",
            "You help the user with coding tasks: writing, editing, debugging, and explaining code. When writing commands or file paths, use the correct syntax for the user's operating system.",
        ]
    );
    assert_eq!(system_message_at(&host(), "now", None).split('\n').count(), 4);
}

#[test]
fn the_system_message_now_has_the_time() {
    let message = build_system_message(&host(), None).unwrap();
    let time = message.split('\n').nth(2).unwrap();
    assert!(time.starts_with("Current time: 2"));
    assert!(time.ends_with(" UTC"));
    assert_eq!(time.len(), "Current time: 2026-01-02 03:04:05 UTC".len());
}

#[test]
fn images_follow_the_text_of_a_message() {
    let message = ProviderMessage::user_with_images("look".to_string(), vec![image("AAA"), image("BBB")]);
    let content = message.content.to_openai_content_value();
    assert_eq!(
        content,
        parse_json(
            r#"[{"type":"text","text":"look"},
                {"type":"image_url","image_url":{"url":"data:image/png;base64,AAA"}},
                {"type":"image_url","image_url":{"url":"data:image/png;base64,BBB"}}]"#
        )
        .map(|value| sorted(value, &content))
        .unwrap()
    );
    let content = message.content.to_anthropic_content_value();
    let source = member(item(&content, 1), "source");
    assert_eq!(source.str_at("type"), Some("base64"));
    assert_eq!(source.str_at("media_type"), Some("image/png"));
    assert_eq!(source.str_at("data"), Some("AAA"));
    assert_eq!(item(&content, 1).str_at("type"), Some("image"));
    let bare = ProviderMessage::user_with_images(String::new(), vec![image("AAA")]);
    assert_eq!(bare.content.to_openai_content_value().as_array().unwrap().len(), 1);
    assert_eq!(bare.content.as_str(), None);
    assert!(bare.content != "");
    let plain = ProviderMessage::user_with_images("hi".to_string(), vec![]);
    assert_eq!(plain.content, "hi");
}

/// `value` with the members of its objects in the order that `like` has them in.
fn sorted(value: Json, like: &Json) -> Json {
    match (value, like) {
        (Json::Array(items), Json::Array(others)) => {
            Json::Array(items.into_iter().zip(others).map(|(value, like)| sorted(value, like)).collect())
        }
        (Json::Object(members), Json::Object(others)) => Json::Object(
            others
                .iter()
                .map(|(name, like)| {
                    let (_, value) = members.iter().find(|(other, _)| other == name).unwrap();
                    (name.clone(), sorted(value.clone(), like))
                })
                .collect(),
        ),
        (value, _) => value,
    }
}

// ---------------------------------------------------------------------------
// Requests
// ---------------------------------------------------------------------------

fn tool(name: &str) -> ToolDefinition {
    ToolDefinition {
        name: name.to_string(),
        description: "does it".to_string(),
        input_schema: parse_json(r#"{"type":"object"}"#).unwrap(),
    }
}

#[test]
fn endpoints_need_a_base() {
    assert_eq!(endpoint_url("http://h/v1//", "/x").unwrap(), "http://h/v1/x");
    assert_eq!(endpoint_url("/", "/x").unwrap(), "/x");
    for base in ["", " \t\n", "\u{2003}"] {
        let error = endpoint_url(base, "/x").unwrap_err();
        assert_eq!(error.class(), DirectProviderErrorClass::EndpointUnreachable);
        assert_eq!(error.to_string(), "Direct provider error (EndpointUnreachable): provider base URL is empty");
    }
}

#[test]
fn defaults_and_tools_stand_in_the_body() {
    let mut provider = resolved_provider(ProviderKind::OpenAI, "http://h");
    provider.defaults.stream = Some(false);
    provider.defaults.temperature = Some(Single { bits: 0.5f32.to_bits() });
    provider.defaults.top_p = Some(Single { bits: f32::NAN.to_bits() });
    let request =
        DirectProviderRequest::new_with_messages(&provider, vec![ProviderMessage::user("q")], &[tool("t")]).unwrap();
    assert_eq!(member(&request.body, "stream"), &Json::Bool(false));
    assert_eq!(member(&request.body, "temperature"), &Json::Number(JsonNumber::Single(0.5f32.to_bits())));
    assert_eq!(member(&request.body, "top_p"), &Json::Null);
    let sent = item(member(&request.body, "tools"), 0);
    assert_eq!(sent.str_at("type"), Some("function"));
    assert_eq!(sent.str_in("function", "name"), Some("t"));
    assert_eq!(member(member(sent, "function"), "parameters").str_at("type"), Some("object"));
    assert!(request.tools.is_empty());
    let bare = DirectProviderRequest::new_with_messages(
        &resolved_provider(ProviderKind::OpenAI, "http://h"),
        vec![],
        &[],
    )
    .unwrap();
    for name in ["temperature", "top_p", "tools", "system", "max_tokens"] {
        assert!(bare.body.get(name).is_none(), "{name}");
    }
    for value in [f32::INFINITY, f32::NEG_INFINITY] {
        provider.defaults.temperature = Some(Single { bits: value.to_bits() });
        let request = DirectProviderRequest::new_with_messages(&provider, vec![], &[]).unwrap();
        assert_eq!(member(&request.body, "temperature"), &Json::Null);
    }
    provider.defaults.temperature = Some(Single { bits: f32::MAX.to_bits() });
    let request = DirectProviderRequest::new_with_messages(&provider, vec![], &[]).unwrap();
    assert_eq!(member(&request.body, "temperature"), &Json::Number(JsonNumber::Single(f32::MAX.to_bits())));
}

#[test]
fn anthropic_requests_have_a_token_limit() {
    let mut provider = resolved_provider(ProviderKind::Anthropic, "http://h");
    let limit = |provider: &ResolvedProvider| {
        let request = DirectProviderRequest::new_with_messages(provider, vec![], &[tool("t")]).unwrap();
        assert_eq!(item(member(&request.body, "tools"), 0).str_at("name"), Some("t"));
        assert!(request.body.get("system").is_none());
        member(&request.body, "max_tokens").clone()
    };
    assert_eq!(limit(&provider), Json::Number(JsonNumber::Unsigned(1024)));
    provider.policy.allow_manual_model_ids = true;
    assert_eq!(limit(&provider), Json::Number(JsonNumber::Unsigned(4096)));
    provider.defaults.max_output_tokens = Some(5);
    assert_eq!(limit(&provider), Json::Number(JsonNumber::Unsigned(5)));
    assert_eq!(default_anthropic_max_tokens(&ProviderPolicy::for_kind(&ProviderKind::AnthropicCompatible)), 4096);
}

#[test]
fn warp_hosted_has_no_direct_requests() {
    let provider = resolved_provider(ProviderKind::WarpHosted, "http://h");
    let error = DirectProviderRequest::new_with_messages(&provider, vec![], &[]).unwrap_err();
    assert_eq!(
        error.to_string(),
        "Direct provider error (UnsupportedCapability): warp-hosted providers do not use direct HTTP transport"
    );
    assert!(parse_sse_chunk(ProviderKind::WarpHosted, "", "{}").is_err());
}

fn followup(kind: ProviderKind, messages: &mut Vec<ProviderMessage>, results: &[ToolResult]) -> DirectProviderRequest {
    let provider = resolved_provider(kind, "http://h");
    build_followup_request(
        kind,
        &provider.base_url,
        &provider.model,
        &provider.defaults,
        &provider.policy,
        &[],
        messages,
        results,
    )
    .unwrap()
}

fn result(id: &str, output: &str) -> ToolResult {
    ToolResult { call_id: id.to_string(), output: output.to_string() }
}

#[test]
fn openai_gets_tool_results_as_json_texts() {
    let mut messages = vec![ProviderMessage::user("q")];
    let request = followup(ProviderKind::OpenAI, &mut messages, &[result("c1", "say \"hi\"")]);
    assert_eq!(messages.len(), 2);
    let said = item(member(&request.body, "input"), 1);
    assert_eq!(said.str_at("role"), Some("user"));
    let report = parse_json(said.str_at("content").unwrap()).unwrap();
    assert_eq!(report.str_at("type"), Some("function_call_output"));
    assert_eq!(report.str_at("call_id"), Some("c1"));
    assert_eq!(report.str_at("output"), Some("say \"hi\""));
    let again = DirectProviderRequest::new_with_messages(
        &resolved_provider(ProviderKind::OpenAI, "http://h"),
        messages,
        &[],
    )
    .unwrap();
    assert_eq!(again.body, request.body);
}

#[test]
fn chat_servers_get_tool_results_as_tool_messages() {
    let mut messages = vec![ProviderMessage::user("q")];
    let request =
        followup(ProviderKind::OpenAICompatible, &mut messages, &[result("c1", "one"), result("c2", "two")]);
    assert_eq!(messages.len(), 3);
    let said = item(member(&request.body, "messages"), 2);
    assert_eq!(said.str_at("role"), Some("tool"));
    assert_eq!(said.str_at("content"), Some("two"));
    assert_eq!(said.str_at("tool_call_id"), Some("c2"));
    assert!(item(member(&request.body, "messages"), 0).get("tool_call_id").is_none());
    assert_eq!(request.url, "http://h/chat/completions");
}

#[test]
fn anthropic_gets_tool_results_in_the_request_only() {
    let mut messages = conversation_with_system("sys".to_string(), &[], "q".to_string(), vec![]);
    let request = followup(ProviderKind::Anthropic, &mut messages, &[result("c1", "one")]);
    assert_eq!(messages.len(), 2);
    assert_eq!(request.body.str_at("system"), Some("sys"));
    let list = request.body.array_at("messages").unwrap();
    assert_eq!(list.len(), 2);
    let report = item(member(&list[1], "content"), 0);
    assert_eq!(report.str_at("type"), Some("tool_result"));
    assert_eq!(report.str_at("tool_use_id"), Some("c1"));
    assert_eq!(report.str_at("content"), Some("one"));
    assert_eq!(list[1].str_at("role"), Some("user"));
}

#[test]
fn followups_need_a_base_too() {
    let provider = resolved_provider(ProviderKind::OpenAI, " ");
    let mut messages = vec![];
    let error = build_followup_request(
        provider.kind,
        &provider.base_url,
        &provider.model,
        &provider.defaults,
        &provider.policy,
        &[],
        &mut messages,
        &[result("c", "o")],
    )
    .unwrap_err();
    assert_eq!(error.class(), DirectProviderErrorClass::EndpointUnreachable);
    assert_eq!(messages.len(), 1);
}

#[test]
fn output_texts_are_put_together() {
    let extract = |kind, body: &str| {
        let provider = resolved_provider(kind, "http://h");
        DirectProviderRequest::new(&provider, &host(), "q".to_string()).unwrap().extract_output_text(body)
    };
    assert_eq!(
        extract(
            ProviderKind::OpenAI,
            r#"{"output":[{"content":[{"type":"output_text","text":"a"},{"type":"other","text":"x"}]},
                {"none":1},{"content":[{"type":"output_text","text":"b"},{"type":"output_text"}]}]}"#
        )
        .unwrap(),
        "ab"
    );
    assert_eq!(
        extract(
            ProviderKind::AnthropicCompatible,
            r#"{"content":[{"type":"text","text":"a"},{"type":"tool_use"},{"type":"text","text":"b"}]}"#
        )
        .unwrap(),
        "ab"
    );
    for (kind, body) in [
        (ProviderKind::OpenAI, "{}"),
        (ProviderKind::OpenAI, r#"{"output_text":""}"#),
        (ProviderKind::OpenAICompatible, r#"{"choices":[]}"#),
        (ProviderKind::Anthropic, r#"{"content":[]}"#),
    ] {
        assert_eq!(
            extract(kind, body).unwrap_err().message,
            "provider response did not contain output text"
        );
    }
    assert_eq!(extract(ProviderKind::OpenAI, "nope").unwrap_err().message, "provider returned invalid JSON");
}

// ---------------------------------------------------------------------------
// Secrets
// ---------------------------------------------------------------------------

fn keys() -> ApiKeys {
    ApiKeys {
        openai: Some("sk-openai".to_string()),
        anthropic: Some("sk-ant".to_string()),
        google: None,
        open_router: None,
    }
}

fn with_auth(kind: ProviderKind, auth: ResolvedAuth) -> ResolvedProvider {
    let mut provider = resolved_provider(kind, "http://h/v1");
    provider.auth = auth;
    provider
}

fn env(name: &str) -> Option<String> {
    if name == "SET" {
        Some("from env".to_string())
    } else {
        None
    }
}

fn storage(reference: &str) -> Option<String> {
    if reference == "ref" || reference.starts_with("legacy") {
        Some("from storage".to_string())
    } else {
        None
    }
}

#[test]
fn secrets_come_from_where_the_provider_says() {
    let find = |kind, auth| resolve_auth(&with_auth(kind, auth), &keys(), env, storage);
    let keychain = |reference: &str| ResolvedAuth::KeychainApiKey { secret_ref: Some(reference.to_string()) };
    let api_key = |key: &str| AuthMaterial::ApiKey(key.to_string());
    assert_eq!(find(ProviderKind::OpenAI, ResolvedAuth::NoAuth).unwrap(), AuthMaterial::NoAuth);
    assert_eq!(
        find(ProviderKind::OpenAI, ResolvedAuth::EnvApiKey { env_var: Some("SET".to_string()) }).unwrap(),
        api_key("from env")
    );
    assert_eq!(
        find(ProviderKind::OpenAI, keychain("legacy://AiApiKeys/openai")).unwrap(),
        api_key("sk-openai")
    );
    assert_eq!(
        find(ProviderKind::Anthropic, keychain("legacy://AiApiKeys/anthropic")).unwrap(),
        api_key("sk-ant")
    );
    assert_eq!(
        find(ProviderKind::Anthropic, keychain("legacy://AiApiKeys/openai")).unwrap(),
        api_key("from storage")
    );
    assert_eq!(find(ProviderKind::OpenAICompatible, keychain("ref")).unwrap(), api_key("from storage"));
    assert_eq!(
        find(ProviderKind::Anthropic, ResolvedAuth::KeychainBearerToken { secret_ref: "ref".to_string() }).unwrap(),
        AuthMaterial::BearerToken("from storage".to_string())
    );
}

#[test]
fn missing_secrets_are_told_apart() {
    let message = |auth| {
        let error = resolve_auth(&with_auth(ProviderKind::OpenAI, auth), &keys(), env, storage).unwrap_err();
        assert_eq!(error.class(), DirectProviderErrorClass::MissingSecret);
        error.message
    };
    assert_eq!(
        message(ResolvedAuth::EnvApiKey { env_var: None }),
        "provider is missing an API key environment variable"
    );
    assert_eq!(
        message(ResolvedAuth::EnvApiKey { env_var: Some("UNSET".to_string()) }),
        "environment variable UNSET is not set"
    );
    assert_eq!(
        message(ResolvedAuth::KeychainApiKey { secret_ref: None }),
        "provider API key secret is unavailable"
    );
    assert_eq!(
        message(ResolvedAuth::KeychainApiKey { secret_ref: Some("gone".to_string()) }),
        "provider API key secret is unavailable"
    );
    assert_eq!(
        message(ResolvedAuth::KeychainBearerToken { secret_ref: "gone".to_string() }),
        "bearer token is not available in secure storage"
    );
}

#[test]
fn requests_carry_headers_and_the_secret() {
    let mut provider = resolved_provider(ProviderKind::Anthropic, "http://h");
    provider.headers.insert("x-b".to_string(), "2".to_string());
    provider.headers.insert("x-a".to_string(), "1".to_string());
    let request = DirectProviderRequest::new_with_messages(&provider, vec![], &[]).unwrap();
    let sent = http_request(&request, &provider.headers, &AuthMaterial::ApiKey("sk".to_string()));
    assert_eq!(sent.method, HttpMethod::Post);
    assert_eq!(sent.url, "http://h/messages");
    let headers: Vec<(&str, &str)> =
        sent.headers.iter().map(|(name, value)| (name.as_str(), value.as_str())).collect();
    assert_eq!(
        headers,
        vec![("x-a", "1"), ("x-b", "2"), ("x-api-key", "sk"), ("anthropic-version", "2023-06-01")]
    );
    assert_eq!(sent.body, Some(request.body.clone()));
    let mut headers = vec![];
    apply_auth(&mut headers, ProviderKind::AnthropicCompatible, &AuthMaterial::BearerToken("t".to_string()));
    apply_auth(&mut headers, ProviderKind::OpenAI, &AuthMaterial::ApiKey("k".to_string()));
    apply_auth(&mut headers, ProviderKind::OpenAI, &AuthMaterial::NoAuth);
    assert_eq!(
        headers,
        vec![
            ("Authorization".to_string(), "Bearer t".to_string()),
            ("Authorization".to_string(), "Bearer k".to_string()),
        ]
    );
}

// ---------------------------------------------------------------------------
// Errors
// ---------------------------------------------------------------------------

#[test]
fn every_status_has_a_class() {
    let class = |code| DirectProviderError::from_status(status(code), String::new()).class();
    assert_eq!(class(403), DirectProviderErrorClass::AuthFailure);
    assert_eq!(class(408), DirectProviderErrorClass::Timeout);
    assert_eq!(class(504), DirectProviderErrorClass::Timeout);
    assert_eq!(class(400), DirectProviderErrorClass::UnsupportedCapability);
    assert_eq!(class(422), DirectProviderErrorClass::UnsupportedCapability);
    assert_eq!(class(500), DirectProviderErrorClass::ProviderStatus);
    assert_eq!(class(302), DirectProviderErrorClass::ProviderStatus);
}

#[test]
fn status_errors_quote_the_answer() {
    let bare = DirectProviderError::from_status(status(404), " \n".to_string());
    assert_eq!(
        bare.to_string(),
        "Direct provider error (MissingModel, HTTP 404 Not Found): provider returned HTTP 404 Not Found"
    );
    let told = DirectProviderError::from_status(status(429), "slow down".to_string());
    assert_eq!(told.message, "provider returned HTTP 429 Too Many Requests: slow down");
    assert_eq!(told.status.map(|status| status.as_u16()), Some(429));
}

fn transport(is_timeout: bool, is_connect: bool, is_decode: bool) -> TransportFailure {
    TransportFailure { is_timeout, is_connect, is_decode, status: None, detail: "boom".to_string() }
}

#[test]
fn transport_failures_have_a_class() {
    let class = |failure| DirectProviderError::from_transport(&failure).class();
    assert_eq!(class(transport(true, true, true)), DirectProviderErrorClass::Timeout);
    assert_eq!(class(transport(false, true, true)), DirectProviderErrorClass::EndpointUnreachable);
    assert_eq!(class(transport(false, false, true)), DirectProviderErrorClass::InvalidResponseShape);
    assert_eq!(class(transport(false, false, false)), DirectProviderErrorClass::Unknown);
    assert_eq!(DirectProviderErrorClass::RateLimit.name(), format!("{:?}", DirectProviderErrorClass::RateLimit));
}

// ---------------------------------------------------------------------------
// Streams
// ---------------------------------------------------------------------------

fn chunk(kind: ProviderKind, event: &str, data: &str) -> SseChunk {
    parse_sse_chunk(kind, event, data).unwrap()
}

fn text(t: &str) -> SseChunk {
    SseChunk::TextDelta(t.to_string())
}

fn start(id: &str, name: &str) -> SseChunk {
    SseChunk::ToolCallStart { id: id.to_string(), name: name.to_string() }
}

fn delta(id: &str, partial_json: &str) -> SseChunk {
    SseChunk::ToolCallDelta { id: id.to_string(), partial_json: partial_json.to_string() }
}

fn stop(id: &str) -> SseChunk {
    SseChunk::ToolCallStop { id: id.to_string() }
}

#[test]
fn responses_events_are_read() {
    let read = |data: &str| chunk(ProviderKind::OpenAI, "", data);
    assert_eq!(read(r#"{"type":"response.output_text.delta","delta":{"text":"hi"}}"#), text("hi"));
    assert_eq!(read(r#"{"type":"response.reasoning_text.delta","delta":{"text":"hm"}}"#), text("hm"));
    assert_eq!(read(r#"{"type":"response.output_text.delta","delta":{"text":""}}"#), SseChunk::Done);
    assert_eq!(
        read(r#"{"type":"response.output_item.added","item":{"type":"function_call","id":"c","name":"n"}}"#),
        start("c", "n")
    );
    assert_eq!(read(r#"{"type":"response.output_item.added","item":{"type":"message"}}"#), SseChunk::Done);
    assert_eq!(
        read(r#"{"type":"response.function_call_arguments.delta","delta":{"text":"{"}}"#),
        delta("", "{")
    );
    assert_eq!(
        read(r#"{"type":"response.output_item.done","item":{"type":"function_call","id":"c"}}"#),
        stop("c")
    );
    assert_eq!(read(r#"{"type":"response.completed"}"#), SseChunk::Done);
    assert_eq!(read(" [DONE] "), SseChunk::Done);
    assert_eq!(read(""), SseChunk::Done);
    assert_eq!(
        parse_sse_chunk(ProviderKind::OpenAI, "", "{").unwrap_err().message,
        "provider returned invalid SSE JSON"
    );
}

#[test]
fn chat_events_are_read() {
    let read = |data: &str| chunk(ProviderKind::OpenAICompatible, "", data);
    assert_eq!(read(r#"{"choices":[{"delta":{"content":"hi"},"finish_reason":null}]}"#), text("hi"));
    assert_eq!(read(r#"{"choices":[{"delta":{"content":""}}]}"#), SseChunk::Skip);
    assert_eq!(read(r#"{"choices":[{"delta":{"role":"assistant"}}]}"#), SseChunk::Skip);
    assert_eq!(read(r#"{"choices":[{"delta":{"content":"x"},"finish_reason":"stop"}]}"#), SseChunk::Done);
    assert_eq!(
        read(r#"{"choices":[{"delta":{"tool_calls":[{"id":"c","function":{"name":"n","arguments":"{"}}]}}]}"#),
        start("c", "n")
    );
    assert_eq!(
        read(r#"{"choices":[{"delta":{"tool_calls":[{"function":{"arguments":"{}"}}]}}]}"#),
        delta("", "{}")
    );
    assert_eq!(
        read(r#"{"choices":[{"delta":{"tool_calls":[]},"finish_reason":"tool_calls"}]}"#),
        SseChunk::Done
    );
    let error = |data: &str| parse_sse_chunk(ProviderKind::OpenAICompatible, "", data).unwrap_err().message;
    assert_eq!(error("{}"), "chat completion chunk missing choices");
    assert_eq!(error(r#"{"choices":[]}"#), "chat completion chunk has empty choices");
}

#[test]
fn anthropic_events_are_read() {
    let read = |event: &str, data: &str| chunk(ProviderKind::AnthropicCompatible, event, data);
    assert_eq!(
        read("content_block_start", r#"{"content_block":{"type":"tool_use","id":"c","name":"n"}}"#),
        start("c", "n")
    );
    assert_eq!(read("content_block_start", r#"{"content_block":{"type":"text"}}"#), SseChunk::Done);
    assert_eq!(
        read("content_block_delta", r#"{"delta":{"type":"text_delta","text":"hi"}}"#),
        text("hi")
    );
    assert_eq!(
        read("content_block_delta", r#"{"delta":{"type":"input_json_delta","partial_json":"{"}}"#),
        delta("", "{")
    );
    assert_eq!(read("content_block_delta", r#"{"delta":{"type":"other"}}"#), SseChunk::Done);
    assert_eq!(read("content_block_stop", "{}"), stop(""));
    assert_eq!(read("message_stop", "{}"), SseChunk::Done);
}

fn message(event: &str, data: &str) -> StreamSignal {
    StreamSignal::Message { event: event.to_string(), data: data.to_string() }
}

#[test]
fn a_stream_is_put_together() {
    let signals = [
        StreamSignal::Open,
        message("", r#"{"choices":[{"delta":{"content":"Let me "}}]}"#),
        message("", r#"{"choices":[{"delta":{"content":""}}]}"#),
        message("", r#"{"choices":[{"delta":{"content":"look."}}]}"#),
        message("", r#"{"choices":[{"delta":{"tool_calls":[{"id":"c1","function":{"name":"ls"}}]}}]}"#),
        message("", r#"{"choices":[{"delta":{"tool_calls":[{"function":{"arguments":"{\"path\":"}}]}}]}"#),
        message("", r#"{"choices":[{"delta":{"tool_calls":[{"function":{"arguments":"\"/\"}"}}]}}]}"#),
        message("", r#"{"choices":[{"delta":{"tool_calls":[{"id":"c2","function":{"name":"cat"}}]}}]}"#),
        message("", r#"{"choices":[{"delta":{"tool_calls":[{"function":{"arguments":"oops"}}]}}]}"#),
        message("", "[DONE]"),
        message("", "never read"),
    ];
    let result = stream_to_result(&signals, ProviderKind::OpenAICompatible).unwrap();
    assert_eq!(result.accumulated_text, "Let me look.");
    assert_eq!(result.tool_calls.len(), 2);
    assert_eq!((result.tool_calls[0].id.as_str(), result.tool_calls[0].name.as_str()), ("c1", "ls"));
    assert_eq!(result.tool_calls[0].input.str_at("path"), Some("/"));
    assert_eq!((result.tool_calls[1].id.as_str(), result.tool_calls[1].name.as_str()), ("c2", "cat"));
    assert_eq!(result.tool_calls[1].input, Json::text("oops"));
    assert!(result.http_status.is_none());
}

#[test]
fn tool_calls_stop_under_the_id_of_their_start() {
    let mut state = StreamState::new();
    for chunk in [start("c1", "n"), delta("", "{}"), stop("other"), stop("c2"), text("t")] {
        state.absorb(chunk);
    }
    let result = state.finish();
    assert_eq!(result.tool_calls.len(), 2);
    assert_eq!(result.tool_calls[0].id, "c1");
    assert_eq!(result.tool_calls[0].input, Json::Object(vec![]));
    assert_eq!((result.tool_calls[1].id.as_str(), result.tool_calls[1].name.as_str()), ("c2", ""));
    assert_eq!(result.tool_calls[1].input, Json::text(""));
    assert_eq!(result.accumulated_text, "t");
}

#[test]
fn streams_can_end_and_fail() {
    let ended = [message("", r#"{"choices":[{"delta":{"content":"a"}}]}"#), StreamSignal::StreamEnded];
    assert_eq!(stream_to_result(&ended, ProviderKind::OpenAICompatible).unwrap().accumulated_text, "a");
    assert_eq!(stream_to_result(&[], ProviderKind::OpenAICompatible).unwrap().accumulated_text, "");
    let failed = [StreamSignal::Transport(transport(false, true, false))];
    assert_eq!(
        stream_to_result(&failed, ProviderKind::OpenAI).unwrap_err().to_string(),
        "Direct provider error (EndpointUnreachable): boom"
    );
    let other = [StreamSignal::OtherFailure("odd".to_string())];
    assert_eq!(
        stream_to_result(&other, ProviderKind::OpenAI).unwrap_err().to_string(),
        "Direct provider error (Unknown): odd"
    );
    let mut state = StreamState::new();
    assert!(matches!(state.step(ProviderKind::OpenAI, &message("", "{")), StreamStep::Failed(_)));
    assert!(matches!(state.step(ProviderKind::OpenAI, &message("", "[DONE]")), StreamStep::Finished));
    assert!(matches!(state.step(ProviderKind::OpenAI, &StreamSignal::Open), StreamStep::Continue));
}

// ---------------------------------------------------------------------------
// Tools
// ---------------------------------------------------------------------------

fn mcp_tool(name: &str, description: Option<&str>) -> McpTool {
    McpTool {
        name: name.to_string(),
        description: description.map(|text| text.to_string()),
        input_schema: vec![("type".to_string(), Json::text("object"))],
    }
}

#[test]
fn tools_of_servers_come_before_listed_ones() {
    assert!(collect_tools(&None).is_empty());
    let context = McpContext {
        servers: vec![
            McpServer { tools: vec![mcp_tool("a", Some("first")), mcp_tool("b", None)] },
            McpServer { tools: vec![mcp_tool("a", Some("second"))] },
        ],
        tools: vec![mcp_tool("b", Some("hidden")), mcp_tool("c", None), mcp_tool("c", Some("hidden"))],
    };
    let tools = collect_tools(&Some(context));
    let listed: Vec<(&str, &str)> =
        tools.iter().map(|tool| (tool.name.as_str(), tool.description.as_str())).collect();
    assert_eq!(listed, vec![("a", "first"), ("b", ""), ("a", "second"), ("c", "")]);
    assert_eq!(tools[0].input_schema.str_at("type"), Some("object"));
}

#[test]
fn tools_run_on_objects_where_there_is_an_executor() {
    let call = |input| ToolCall { id: "c".to_string(), name: "ls".to_string(), input };
    let object = parse_json(r#"{"path":"/"}"#).unwrap();
    match dispatch_tool(&call(object.clone()), true) {
        ToolDispatch::Execute { name, arguments } => {
            assert_eq!(name, "ls");
            assert_eq!(arguments, vec![("path".to_string(), Json::text("/"))]);
        }
        other => panic!("{other:?}"),
    }
    for (input, has_executor) in [(object, false), (Json::text("/"), true), (Json::Null, true)] {
        match dispatch_tool(&call(input), has_executor) {
            ToolDispatch::Output(output) => {
                assert_eq!(output, "This tool is not available in direct-provider mode: ls")
            }
            other => panic!("{other:?}"),
        }
    }
    assert_eq!(execution_output(Ok("done".to_string())), "done");
    assert_eq!(execution_output(Err("no".to_string())), "Tool execution error: no");
}

// ---------------------------------------------------------------------------
// Inputs
// ---------------------------------------------------------------------------

fn input(request: AgentRequest) -> AgentInput {
    AgentInput { user_query: None, request }
}

fn query(query: &str, has_attachments: bool, is_normal_mode: bool) -> AgentRequest {
    AgentRequest::UserQuery {
        query: query.to_string(),
        has_attachments,
        is_normal_mode,
        context: vec![
            AgentContext::Other,
            AgentContext::Image { data: "AAA".to_string(), mime_type: "image/png".to_string() },
        ],
    }
}

#[test]
fn queries_are_made_of_inputs() {
    let made = |request| latest_direct_provider_query(&[input(request)]).map(|(query, images)| (query, images.len()));
    assert_eq!(made(query("q", false, true)), Some(("q".to_string(), 1)));
    assert_eq!(made(query("q", true, true)), None);
    assert_eq!(made(query("q", false, false)), None);
    let context = || vec![AgentContext::Other];
    assert_eq!(
        made(AgentRequest::AutoCodeDiffQuery { query: "d".to_string(), context: context() }),
        Some(("d".to_string(), 0))
    );
    let review = |comments: &[&str]| AgentRequest::CodeReview {
        comments: comments.iter().map(|comment| comment.to_string()).collect(),
    };
    assert_eq!(made(review(&["a", "b"])), Some(("a\n\nb".to_string(), 0)));
    assert_eq!(made(review(&[])), None);
    assert_eq!(made(review(&[""])), None);
    let skill = |user_query: Option<&str>| AgentRequest::InvokeSkill {
        skill_name: "/test".to_string(),
        user_query: user_query.map(|text| text.to_string()),
        context: context(),
    };
    assert_eq!(made(skill(Some("all"))), Some(("/test all".to_string(), 0)));
    assert_eq!(made(skill(Some(""))), Some(("/test".to_string(), 0)));
    assert_eq!(made(skill(None)), Some(("/test".to_string(), 0)));
    let ambient = |runtime_skill: Option<&str>| AgentRequest::StartFromAmbientRunPrompt {
        ambient_run_id: "7".to_string(),
        runtime_skill: runtime_skill.map(|text| text.to_string()),
        context: context(),
    };
    assert_eq!(made(ambient(Some("fix"))), Some(("(ambient run: 7) fix".to_string(), 0)));
    assert_eq!(made(ambient(None)), Some(("(ambient run: 7)".to_string(), 0)));
    assert_eq!(made(AgentRequest::Other), None);
}

#[test]
fn the_latest_query_wins() {
    let mut inputs =
        vec![input(query("first", false, true)), input(query("second", false, true)), input(AgentRequest::Other)];
    assert_eq!(latest_direct_provider_query(&inputs).unwrap().0, "second");
    assert_eq!(latest_user_query(&inputs), None);
    inputs[0].user_query = Some("shown".to_string());
    assert_eq!(latest_user_query(&inputs).as_deref(), Some("shown"));
    inputs[2].user_query = Some("shown later".to_string());
    assert_eq!(latest_user_query(&inputs).as_deref(), Some("shown later"));
    assert!(latest_direct_provider_query(&[]).is_none());
}

// ---------------------------------------------------------------------------
// Runs
// ---------------------------------------------------------------------------

fn params(provider: ResolvedProvider) -> RequestParams {
    RequestParams {
        resolved_provider: Ok(provider),
        input: vec![AgentInput { user_query: Some("shown".to_string()), request: query("q", false, true) }],
        conversation_token: None,
        tasks: vec![],
        conversation_history: vec![],
        current_working_directory: Some("/work".to_string()),
        mcp_context: None,
        legacy_api_keys: keys(),
    }
}

fn ids() -> RunIds {
    RunIds {
        conversation_id: "conv".to_string(),
        request_id: "req".to_string(),
        task_id: "task".to_string(),
        message_id: "msg".to_string(),
    }
}

fn begun(provider: ResolvedProvider) -> DirectRun {
    match direct_output_with(&params(provider), &host(), "now", ids(), None) {
        DirectOutput::Run { run, step } => {
            assert!(step.events.is_empty());
            assert!(matches!(step.action, RunAction::Send(_)));
            run
        }
        other => panic!("{other:?}"),
    }
}

fn streamed(accumulated_text: &str, calls: &[&str]) -> StreamingResult {
    StreamingResult {
        accumulated_text: accumulated_text.to_string(),
        tool_calls: calls
            .iter()
            .map(|id| ToolCall { id: id.to_string(), name: "t".to_string(), input: Json::Object(vec![]) })
            .collect(),
        http_status: None,
    }
}

fn init() -> ResponseEvent {
    ResponseEvent::Init {
        conversation_id: "conv".to_string(),
        request_id: "req".to_string(),
        run_id: "conv".to_string(),
    }
}

fn create_task() -> ResponseEvent {
    ResponseEvent::ClientActions(vec![ClientAction::CreateTask {
        task_id: "task".to_string(),
        description: "shown".to_string(),
    }])
}

fn say(text: &str) -> ResponseEvent {
    ResponseEvent::ClientActions(vec![ClientAction::AddMessagesToTask {
        task_id: "task".to_string(),
        message_id: "msg".to_string(),
        request_id: "req".to_string(),
        text: text.to_string(),
    }])
}

#[test]
fn a_run_without_tools_has_one_turn() {
    let mut run = begun(resolved_provider(ProviderKind::OpenAI, "http://h"));
    assert_eq!(run.messages.len(), 2);
    let step = run.streamed(streamed("hello", &[]), 40);
    assert_eq!(step.events, vec![init(), create_task(), say("hello"), ResponseEvent::Finished]);
    match step.action {
        RunAction::Complete(outcome) => {
            assert!(outcome.success);
            assert_eq!((outcome.duration_ms, outcome.stream_duration_ms), (40, Some(40)));
            assert_eq!(outcome.error_class, None);
        }
        other => panic!("{other:?}"),
    }
}

#[test]
fn a_run_goes_on_with_tool_results() {
    let mut run = begun(resolved_provider(ProviderKind::OpenAICompatible, "http://h"));
    let step = run.streamed(streamed("one ", &["c1"]), 1);
    assert_eq!(step.events, vec![init(), create_task(), say("one ")]);
    assert!(matches!(step.action, RunAction::RunTools(ref calls) if calls.len() == 1));
    let step = run.tools_ran(vec!["out".to_string()], 2, 3);
    assert!(step.events.is_empty());
    match step.action {
        RunAction::Send(request) => {
            let body = request.body.unwrap();
            assert_eq!(item(member(&body, "messages"), 2).str_at("content"), Some("out"));
            assert_eq!(item(member(&body, "messages"), 2).str_at("tool_call_id"), Some("c1"));
        }
        other => panic!("{other:?}"),
    }
    let step = run.streamed(streamed("", &["c2"]), 4);
    assert!(step.events.is_empty());
    run.tools_ran(vec!["more".to_string()], 5, 6);
    let mut last = streamed("two", &[]);
    last.http_status = Some(status(200));
    let step = run.streamed(last, 7);
    assert_eq!(step.events, vec![say("one two"), ResponseEvent::Finished]);
    match step.action {
        RunAction::Complete(outcome) => assert_eq!(outcome.http_status.map(|status| status.as_u16()), Some(200)),
        other => panic!("{other:?}"),
    }
}

#[test]
fn a_run_makes_ten_requests_at_most() {
    let mut run = begun(resolved_provider(ProviderKind::Anthropic, "http://h"));
    let mut requests = 1;
    loop {
        run.streamed(streamed("", &["c"]), 1);
        let step = run.tools_ran(vec!["o".to_string()], 1, 9);
        match step.action {
            RunAction::Send(_) => requests += 1,
            RunAction::Complete(outcome) => {
                assert!(outcome.success);
                assert_eq!(step.events, vec![ResponseEvent::Finished]);
                break;
            }
            other => panic!("{other:?}"),
        }
    }
    assert_eq!(requests, 10);
}

#[test]
fn runs_fail_where_requests_do() {
    let mut run = begun(resolved_provider(ProviderKind::OpenAI, "http://h"));
    let step = run.connection_failed("bad header");
    assert_eq!(step.events, vec![ResponseEvent::Failed("Failed to create SSE stream: bad header".to_string())]);
    match step.action {
        RunAction::Complete(outcome) => {
            assert_eq!(outcome.error_class.as_deref(), Some("Unknown"));
            assert_eq!((outcome.success, outcome.duration_ms, outcome.stream_duration_ms), (false, 0, None));
        }
        other => panic!("{other:?}"),
    }
    let mut first = streamed("a", &["c"]);
    first.http_status = Some(status(503));
    run.streamed(first, 1);
    let error = DirectProviderError::from_transport(&transport(true, false, false));
    let step = run.stream_failed(&error, 5, 9);
    assert_eq!(step.events, vec![ResponseEvent::Failed("Direct provider error (Timeout): boom".to_string())]);
    match step.action {
        RunAction::Complete(outcome) => {
            assert_eq!(outcome.error_class, None);
            assert_eq!((outcome.success, outcome.duration_ms, outcome.stream_duration_ms), (false, 5, Some(9)));
            assert_eq!(outcome.http_status.map(|status| status.as_u16()), Some(503));
        }
        other => panic!("{other:?}"),
    }
    run.provider.base_url = String::new();
    let step = run.tools_ran(vec!["o".to_string()], 5, 9);
    assert!(matches!(step.action, RunAction::Complete(ref outcome) if !outcome.success));
    assert_eq!(step.events.len(), 1);
}

#[test]
fn a_first_request_that_cannot_be_made_is_reported() {
    let output = direct_output_with(
        &params(resolved_provider(ProviderKind::OpenAI, "")),
        &host(),
        "now",
        ids(),
        None,
    );
    match output {
        DirectOutput::Run { step, .. } => {
            assert!(matches!(step.events[0], ResponseEvent::Failed(_)));
            match step.action {
                RunAction::Complete(outcome) => {
                    assert_eq!(outcome.error_class.as_deref(), Some("EndpointUnreachable"))
                }
                other => panic!("{other:?}"),
            }
        }
        other => panic!("{other:?}"),
    }
}

fn refused(params: &RequestParams) -> String {
    match generate_direct_provider_output(params, &host(), env, storage) {
        DirectOutput::Refused(message) => message,
        other => panic!("{other:?}"),
    }
}

#[test]
fn requests_without_a_provider_are_refused() {
    let mut asked = params(resolved_provider(ProviderKind::OpenAI, "http://h"));
    asked.resolved_provider = Err(ProviderResolutionError::UnknownProvider { provider_id: "p".to_string() });
    assert_eq!(
        refused(&asked),
        "The provider 'p' used in this conversation has been deleted. Please select a different model to continue."
    );
    let id = || "p".to_string();
    let m = || "m".to_string();
    assert_eq!(
        provider_error_message(&ProviderResolutionError::DisabledProvider { provider_id: id() }),
        "The provider 'p' used in this conversation has been disabled. Please select a different model to continue."
    );
    assert_eq!(
        provider_error_message(&ProviderResolutionError::UnknownModel { provider_id: id(), model_id: m() }),
        "The model 'm' from provider 'p' is no longer available. Please select a different model to continue."
    );
    assert_eq!(
        provider_error_message(&ProviderResolutionError::TeamPolicyBlocked {
            provider_id: id(),
            reason: "no".to_string(),
        }),
        "The provider 'p' is blocked by team policy: no. Please select a different model to continue."
    );
    assert_eq!(
        provider_error_message(&ProviderResolutionError::StaleModel { provider_id: id(), model_id: m() }),
        "The model 'm' from provider 'p' needs to be refreshed before it can be used. Please validate the provider or select a different model to continue."
    );
}

#[test]
fn requests_without_a_query_or_a_secret_are_refused() {
    let mut asked = params(with_auth(
        ProviderKind::OpenAI,
        ResolvedAuth::EnvApiKey { env_var: Some("UNSET".to_string()) },
    ));
    assert_eq!(
        refused(&asked),
        "Direct provider error (MissingSecret): environment variable UNSET is not set"
    );
    asked.input = vec![input(AgentRequest::Other)];
    assert_eq!(
        refused(&asked),
        "Direct providers currently support text user-query turns without attachments only"
    );
}

fn is_uuid(id: &str) -> bool {
    id.len() == 36
        && id.char_indices().all(|(i, c)| match i {
            8 | 13 | 18 | 23 => c == '-',
            _ => c.is_ascii_digit() || ('a'..='f').contains(&c),
        })
}

#[test]
fn runs_have_their_own_ids_tools_and_secret() {
    let mut asked = params(with_auth(
        ProviderKind::OpenAI,
        ResolvedAuth::KeychainBearerToken { secret_ref: "ref".to_string() },
    ));
    asked.mcp_context = Some(McpContext { servers: vec![], tools: vec![mcp_tool("a", None)] });
    let run = |asked: &RequestParams| match generate_direct_provider_output(asked, &host(), env, storage) {
        DirectOutput::Run { run, .. } => run,
        other => panic!("{other:?}"),
    };
    let first = run(&asked);
    assert_eq!(first.auth, AuthMaterial::BearerToken("from storage".to_string()));
    assert_eq!(first.tools.len(), 1);
    for id in [&first.ids.conversation_id, &first.ids.request_id, &first.ids.task_id, &first.ids.message_id] {
        assert!(is_uuid(id), "{id}");
    }
    assert!(first.ids.request_id != run(&asked).ids.request_id);
    asked.conversation_token = Some("token".to_string());
    asked.tasks = vec!["t1".to_string(), "t2".to_string()];
    match &mut asked.resolved_provider {
        Ok(provider) => provider.capabilities.tools = CapabilitySetting::disabled(),
        Err(error) => panic!("{error:?}"),
    }
    let second = run(&asked);
    assert_eq!(second.ids.conversation_id, "token");
    assert_eq!(second.ids.task_id, "t1");
    assert!(!second.tasks_empty);
    assert!(second.tools.is_empty());
    assert_eq!(second.messages[1].content.as_str(), None);
    assert!(matches!(second.messages[1].content, MessageContent::Multi(ref parts) if parts.len() == 2));
}

#[test]
fn whole_answers_are_told_in_three_events() {
    let events = response_events_with(&ids(), "shown".to_string(), true, "answer".to_string());
    assert_eq!(events.len(), 3);
    assert_eq!(events[0], init());
    match &events[1] {
        ResponseEvent::ClientActions(actions) => {
            assert_eq!(actions.len(), 2);
            assert!(matches!(&actions[0], ClientAction::CreateTask { description, .. } if description == "shown"));
            assert!(matches!(&actions[1], ClientAction::AddMessagesToTask { text, .. } if text == "answer"));
        }
        other => panic!("{other:?}"),
    }
    assert_eq!(events[2], ResponseEvent::Finished);
    let mut asked = params(resolved_provider(ProviderKind::OpenAI, "http://h"));
    asked.tasks = vec!["t1".to_string()];
    match &direct_response_events(&asked, "answer".to_string())[1] {
        ResponseEvent::ClientActions(actions) => {
            assert_eq!(actions.len(), 1);
            assert!(matches!(&actions[0], ClientAction::AddMessagesToTask { task_id, .. } if task_id == "t1"));
        }
        other => panic!("{other:?}"),
    }
}

#[test]
fn error_classes_are_told_apart() {
    let classes = [
        DirectProviderErrorClass::AuthFailure,
        DirectProviderErrorClass::EndpointUnreachable,
        DirectProviderErrorClass::Timeout,
        DirectProviderErrorClass::InvalidResponseShape,
        DirectProviderErrorClass::MissingModel,
        DirectProviderErrorClass::UnsupportedCapability,
        DirectProviderErrorClass::RateLimit,
        DirectProviderErrorClass::ProviderStatus,
        DirectProviderErrorClass::MissingSecret,
        DirectProviderErrorClass::Unknown,
    ];
    for (i, a) in classes.iter().enumerate() {
        for b in &classes[..i] {
            let text = |class| DirectProviderError::new(class, "the same").to_string();
            assert!(text(*a) != text(*b));
        }
    }
}

#[test]
fn stored_keys_are_used_by_their_profiles() {
    let registry = ProviderRegistry::from_existing(None, &keys(), "sonnet-4");
    let nowhere = |_: &str| -> Option<String> { panic!("nothing is looked up") };
    for (model, key) in [("openai-main:gpt-4.1", "sk-openai"), ("anthropic-main:sonnet-4", "sk-ant")] {
        let provider = registry.resolve_agent_provider(Some(model)).unwrap();
        assert_eq!(resolve_auth(&provider, &keys(), nowhere, nowhere).unwrap(), AuthMaterial::ApiKey(key.to_string()));
    }
}
