use std::time::Duration;

use ai_providers::clock::Timestamp;
use ai_providers::http_message::{HttpMethod, HttpReply};
use ai_providers::json::{Json, JsonNumber};
use ai_providers::provider_registry::{
    AuthConfig, AuthSource, DiscoveredModelSource, ProviderDiscovery, ProviderKind, ProviderProfile,
};
use ai_providers::provider_validator::{
    classify_http_error, classify_reqwest_error, continue_validation, extract_error_detail, finish_discovery,
    finish_validation, models_request, probe_request, resolve_auth, start_discovery, start_validation,
    try_classify_http_error, AuthValueKind, DiscoveredModelInfo, DiscoveryStep, FirstStep, NextStep,
    ResolvedAuthValue, ValidationCacheEntry, ValidationError, ValidationLevel, ValidationResult, ValidationStatus,
};
use ai_providers::serde_values::parse_json;

#[test]
fn validation_error_retryable_classification() {
    assert!(ValidationError::Timeout.is_retryable());
    assert!(ValidationError::EndpointUnreachable {
        detail: "test".to_string()
    }
    .is_retryable());
    assert!(ValidationError::StreamInterrupted {
        detail: "test".to_string()
    }
    .is_retryable());
    assert!(ValidationError::RateLimit {
        detail: "test".to_string(),
        retry_after_secs: None
    }
    .is_retryable());
    assert!(!ValidationError::AuthFailure {
        detail: "bad key".to_string(),
        http_status: 401
    }
    .is_retryable());
    assert!(!ValidationError::InvalidSchema {
        detail: "bad json".to_string()
    }
    .is_retryable());
}

#[test]
fn classify_http_errors() {
    let err = classify_http_error(401, r#"{"error":{"message":"Invalid API key"}}"#);
    assert!(matches!(
        err,
        ValidationError::AuthFailure {
            http_status: 401,
            ..
        }
    ));

    let err = classify_http_error(429, r#"{"error":{"message":"Rate limit exceeded"}}"#);
    assert!(matches!(err, ValidationError::RateLimit { .. }));

    let err = classify_http_error(500, "Internal server error");
    assert!(matches!(
        err,
        ValidationError::UnknownProviderError {
            http_status: 500,
            ..
        }
    ));
}

#[test]
fn extract_error_detail_openai() {
    let body =
        r#"{"error":{"message":"Incorrect API key provided","type":"invalid_request_error"}}"#;
    assert_eq!(extract_error_detail(body), "Incorrect API key provided");
}

#[test]
fn extract_error_detail_anthropic() {
    let body = r#"{"error":{"type":"authentication_error","message":"invalid x-api-key"}}"#;
    assert_eq!(extract_error_detail(body), "invalid x-api-key");
}

#[test]
fn extract_error_detail_generic() {
    let body = "Something went wrong";
    assert_eq!(extract_error_detail(body), "Something went wrong");
}

#[test]
fn extract_error_detail_long_body() {
    let body = "x".repeat(600);
    let detail = extract_error_detail(&body);
    assert!(detail.contains("... (truncated)"));
    assert!(detail.len() < 600);
}

// ---------------------------------------------------------------------------
// Errors
// ---------------------------------------------------------------------------

#[test]
fn error_details_come_in_three_shapes() {
    assert_eq!(extract_error_detail(r#"{"message":"m","error":"e"}"#), "m");
    assert_eq!(extract_error_detail(r#"{"error":"e"}"#), "e");
    assert_eq!(extract_error_detail(r#"{"error":{"message":"deep"},"message":"flat"}"#), "deep");
    assert_eq!(extract_error_detail(r#"{"error":{"message":1}}"#), r#"{"error":{"message":1}}"#);
    assert_eq!(extract_error_detail(r#"["message"]"#), r#"["message"]"#);
    assert_eq!(extract_error_detail(""), "");
}

#[test]
fn long_answers_are_cut_at_500_bytes() {
    let exact = "y".repeat(500);
    assert_eq!(extract_error_detail(&exact), exact);
    let long = "\u{e9}".repeat(251);
    assert_eq!(extract_error_detail(&long), format!("{}... (truncated)", "\u{e9}".repeat(250)));
}

#[test]
fn answers_that_cannot_be_cut_are_not_classified() {
    let odd = format!("x{}", "\u{e9}".repeat(250));
    assert_eq!(odd.len(), 501);
    assert_eq!(try_classify_http_error(500, &odd), None);
    let long_message = format!("{{\"message\":\"{odd}\"}}");
    assert_eq!(
        try_classify_http_error(404, &long_message),
        Some(ValidationError::UnknownProviderError { detail: odd, http_status: 404 })
    );
    assert_eq!(
        try_classify_http_error(403, "no"),
        Some(ValidationError::AuthFailure { detail: "no".to_string(), http_status: 403 })
    );
}

#[test]
fn transport_errors_are_timeouts_or_unreachable_endpoints() {
    assert_eq!(classify_reqwest_error(true, "slow"), ValidationError::Timeout);
    assert_eq!(
        classify_reqwest_error(false, "refused"),
        ValidationError::EndpointUnreachable { detail: "refused".to_string() }
    );
}

#[test]
fn errors_have_messages() {
    let detail = || "d".to_string();
    let cases = [
        (ValidationError::AuthFailure { detail: detail(), http_status: 401 }, "Authentication failed \u{2014} d"),
        (ValidationError::EndpointUnreachable { detail: detail() }, "Provider endpoint unreachable \u{2014} d"),
        (ValidationError::Timeout, "Request timed out"),
        (ValidationError::InvalidSchema { detail: detail() }, "Invalid response schema \u{2014} d"),
        (ValidationError::UnsupportedCapability { detail: detail() }, "Unsupported capability \u{2014} d"),
        (
            ValidationError::RateLimit { detail: detail(), retry_after_secs: Some(3) },
            "Rate limited by provider \u{2014} d",
        ),
        (ValidationError::StreamInterrupted { detail: detail() }, "Stream interrupted \u{2014} d"),
        (
            ValidationError::UnknownProviderError { detail: detail(), http_status: 500 },
            "Unknown provider error \u{2014} d",
        ),
    ];
    for (error, message) in cases {
        assert_eq!(error.to_string(), message);
        assert_eq!(error.clone(), error);
    }
    assert!(!ValidationError::UnsupportedCapability { detail: detail() }.is_retryable());
    assert!(!ValidationError::UnknownProviderError { detail: detail(), http_status: 500 }.is_retryable());
}

// ---------------------------------------------------------------------------
// Secrets
// ---------------------------------------------------------------------------

fn echo(reference: &str) -> Option<String> {
    if reference.is_empty() {
        None
    } else {
        Some(format!("secret of {reference}"))
    }
}

#[test]
fn secrets_are_looked_up_by_reference() {
    let cases = [
        (AuthConfig::NoAuth, AuthValueKind::NoAuth, None),
        (AuthConfig::keychain_api_key("ref"), AuthValueKind::ApiKey, Some("secret of ref")),
        (AuthConfig::env_api_key("VAR"), AuthValueKind::ApiKey, Some("secret of VAR")),
        (
            AuthConfig::ApiKey {
                source: AuthSource::Env,
                secret_ref: Some("unused".to_string()),
                env_var: None,
            },
            AuthValueKind::ApiKey,
            None,
        ),
        (
            AuthConfig::BearerToken { source: AuthSource::Keychain, secret_ref: "tok".to_string() },
            AuthValueKind::BearerToken,
            Some("secret of tok"),
        ),
        (
            AuthConfig::BearerToken { source: AuthSource::Keychain, secret_ref: String::new() },
            AuthValueKind::BearerToken,
            None,
        ),
    ];
    for (auth, kind, value) in cases {
        let resolved = resolve_auth(&auth, echo);
        assert_eq!(resolved.kind, kind);
        assert_eq!(resolved.value.as_deref(), value);
    }
}

// ---------------------------------------------------------------------------
// Requests
// ---------------------------------------------------------------------------

fn key(value: &str) -> ResolvedAuthValue {
    ResolvedAuthValue { kind: AuthValueKind::ApiKey, value: Some(value.to_string()) }
}

fn no_auth() -> ResolvedAuthValue {
    ResolvedAuthValue { kind: AuthValueKind::NoAuth, value: None }
}

fn header(name: &str, value: &str) -> (String, String) {
    (name.to_string(), value.to_string())
}

#[test]
fn models_are_asked_for_with_the_secret() {
    let request = models_request(ProviderKind::OpenAI, "https://api.openai.com/v1//", &key("sk"));
    assert_eq!(request.method, HttpMethod::Get);
    assert_eq!(request.url, "https://api.openai.com/v1/models");
    assert_eq!(request.headers, vec![header("Authorization", "Bearer sk")]);
    assert_eq!(request.body, None);
    let request = models_request(ProviderKind::AnthropicCompatible, "http://localhost", &key("sk"));
    assert_eq!(request.headers, vec![header("x-api-key", "sk")]);
    let request = models_request(ProviderKind::OpenAICompatible, "http://localhost", &no_auth());
    assert!(request.headers.is_empty());
}

#[test]
fn probes_ask_for_one_token() {
    let request = probe_request(ProviderKind::Anthropic, "https://api.anthropic.com/v1", &key("sk"), "haiku");
    assert_eq!(request.method, HttpMethod::Post);
    assert_eq!(request.url, "https://api.anthropic.com/v1/messages");
    assert_eq!(request.headers, vec![header("x-api-key", "sk"), header("anthropic-version", "2023-06-01")]);
    let body = request.body.unwrap();
    assert_eq!(body.str_at("model"), Some("haiku"));
    assert_eq!(body.get("max_tokens"), Some(&Json::Number(JsonNumber::Unsigned(1))));
    assert_eq!(body.array_at("messages").unwrap()[0].str_at("content"), Some("OK"));
    let request = probe_request(ProviderKind::OpenAI, "https://api.openai.com/v1", &no_auth(), "gpt-4o-mini");
    assert_eq!(request.url, "https://api.openai.com/v1/responses");
    let body = request.body.unwrap();
    assert_eq!(body.str_at("input"), Some("Say OK"));
    assert_eq!(body.get("max_output_tokens"), Some(&Json::Number(JsonNumber::Unsigned(1))));
    let request = probe_request(ProviderKind::OpenAICompatible, "http://localhost/v1/", &no_auth(), "m");
    assert_eq!(request.url, "http://localhost/v1/chat/completions");
}

// ---------------------------------------------------------------------------
// Validation
// ---------------------------------------------------------------------------

fn profile(kind: ProviderKind) -> ProviderProfile {
    ProviderProfile::direct("p", kind, "P", Some("http://localhost/v1".to_string()), AuthConfig::NoAuth)
}

fn body(text: &str) -> HttpReply {
    HttpReply::Body(parse_json(text).unwrap())
}

const OPENAI_LIST: &str =
    r#"{"data":[{"id":"a","object":"model","display_name":"A"},{"no":"id"},{"id":7},{"id":"b"}]}"#;

fn info(id: &str, display_name: Option<&str>) -> DiscoveredModelInfo {
    DiscoveredModelInfo { id: id.to_string(), display_name: display_name.map(|name| name.to_string()) }
}

fn failure() -> HttpReply {
    HttpReply::TransportFailure { is_timeout: true, detail: "slow".to_string() }
}

fn validate(
    kind: ProviderKind,
    level: ValidationLevel,
    models_reply: HttpReply,
    probe_reply: Option<HttpReply>,
) -> ValidationResult {
    let profile = profile(kind);
    match start_validation(&profile, &no_auth()) {
        FirstStep::Finished(result) => result,
        FirstStep::AskModels(request) => {
            assert_eq!(request, models_request(kind, "http://localhost/v1", &no_auth()));
            match continue_validation(&profile, &no_auth(), level, models_reply, "haiku-3").unwrap() {
                NextStep::Finished(result) => {
                    assert!(probe_reply.is_none());
                    result
                }
                NextStep::AskProbe { request, models, model } => {
                    assert_eq!(request, probe_request(kind, "http://localhost/v1", &no_auth(), &model));
                    finish_validation(kind, models, &model, probe_reply.unwrap()).unwrap()
                }
            }
        }
    }
}

#[test]
fn warp_hosted_is_valid_without_a_request() {
    let result = validate(ProviderKind::WarpHosted, ValidationLevel::Deep, failure(), None).timed(12);
    assert_eq!(
        result,
        ValidationResult {
            status: ValidationStatus::Success,
            error: None,
            discovered_models: None,
            response_time_ms: Some(12),
            model: None,
        }
    );
}

#[test]
fn listed_models_have_ids() {
    let result = validate(ProviderKind::OpenAI, ValidationLevel::Cheap, body(OPENAI_LIST), None);
    assert_eq!(result.status, ValidationStatus::Success);
    assert_eq!(result.discovered_models, Some(vec![info("a", Some("model")), info("b", None)]));
    let result = validate(ProviderKind::Anthropic, ValidationLevel::Cheap, body(OPENAI_LIST), None);
    assert_eq!(result.discovered_models, Some(vec![info("a", Some("A")), info("b", None)]));
}

#[test]
fn lists_without_models_are_no_lists() {
    for text in [r#"{"data":[]}"#, r#"{"data":{}}"#, r#"{}"#, "[]", r#"{"data":[{"id":1}]}"#] {
        let result = validate(ProviderKind::OpenAI, ValidationLevel::Deep, body(text), None);
        assert_eq!(result.status, ValidationStatus::Failed);
        assert_eq!(
            result.error,
            Some(ValidationError::InvalidSchema { detail: "No models found in response".to_string() })
        );
    }
}

#[test]
fn deep_validation_names_the_model_that_answered() {
    let result = validate(
        ProviderKind::OpenAI,
        ValidationLevel::Deep,
        body(OPENAI_LIST),
        Some(body(r#"{"model":"gpt-4o-mini-2024"}"#)),
    );
    assert_eq!(result.model.as_deref(), Some("gpt-4o-mini-2024"));
    let result = validate(ProviderKind::Anthropic, ValidationLevel::Deep, body(OPENAI_LIST), Some(body("{}")));
    assert_eq!(result.model.as_deref(), Some("haiku-3"));
    let result = validate(ProviderKind::OpenAICompatible, ValidationLevel::Deep, body(OPENAI_LIST), Some(body("{}")));
    assert_eq!(result.model.as_deref(), Some("a"));
    let result = validate(ProviderKind::AnthropicCompatible, ValidationLevel::Deep, failure(), Some(body("{}")));
    assert_eq!(result.model.as_deref(), Some("haiku-3"));
    let result = validate(ProviderKind::OpenAICompatible, ValidationLevel::Deep, failure(), Some(body("{}")));
    assert_eq!(result.model.as_deref(), Some("gpt-3.5-turbo"));
    assert_eq!(result.status, ValidationStatus::Success);
    assert_eq!(result.discovered_models, None);
}

#[test]
fn failures_are_partial_where_something_works() {
    let status = |kind, level, models, probe| {
        let result = validate(kind, level, models, probe);
        assert_eq!(result.error, Some(ValidationError::Timeout));
        assert_eq!(result.model, None);
        result.status
    };
    assert_eq!(status(ProviderKind::OpenAI, ValidationLevel::Cheap, failure(), None), ValidationStatus::Failed);
    assert_eq!(
        status(ProviderKind::OpenAI, ValidationLevel::Deep, body(OPENAI_LIST), Some(failure())),
        ValidationStatus::Partial
    );
    assert_eq!(
        status(ProviderKind::OpenAICompatible, ValidationLevel::Cheap, failure(), None),
        ValidationStatus::Partial
    );
    assert_eq!(
        status(ProviderKind::AnthropicCompatible, ValidationLevel::Deep, body(OPENAI_LIST), Some(failure())),
        ValidationStatus::Partial
    );
    assert_eq!(
        status(ProviderKind::AnthropicCompatible, ValidationLevel::Deep, failure(), Some(failure())),
        ValidationStatus::Failed
    );
}

#[test]
fn undecodable_replies_name_what_was_asked_for() {
    let undecodable = || HttpReply::Undecodable { detail: "eof".to_string() };
    let detail = |result: ValidationResult| match result.error {
        Some(ValidationError::InvalidSchema { detail }) => detail,
        other => panic!("{other:?}"),
    };
    let models = validate(ProviderKind::OpenAI, ValidationLevel::Cheap, undecodable(), None);
    assert_eq!(detail(models), "Failed to parse models response: eof");
    for (kind, subject) in [
        (ProviderKind::OpenAI, "responses"),
        (ProviderKind::Anthropic, "messages"),
        (ProviderKind::AnthropicCompatible, "messages"),
        (ProviderKind::OpenAICompatible, "chat completions"),
    ] {
        let result = validate(kind, ValidationLevel::Deep, body(OPENAI_LIST), Some(undecodable()));
        assert_eq!(detail(result), format!("Failed to parse {subject} response: eof"));
    }
}

#[test]
fn error_statuses_are_classified() {
    let reply = HttpReply::ErrorStatus { status: 429, body: r#"{"message":"later"}"#.to_string() };
    let result = validate(ProviderKind::Anthropic, ValidationLevel::Cheap, reply, None);
    assert_eq!(
        result.error,
        Some(ValidationError::RateLimit { detail: "later".to_string(), retry_after_secs: None })
    );
    let odd = HttpReply::ErrorStatus { status: 500, body: format!("x{}", "\u{e9}".repeat(250)) };
    let provider = profile(ProviderKind::OpenAI);
    assert_eq!(continue_validation(&provider, &no_auth(), ValidationLevel::Cheap, odd, "haiku-3"), None);
}

// ---------------------------------------------------------------------------
// Discovery
// ---------------------------------------------------------------------------

#[test]
fn discovery_keeps_the_models_of_warp_hosted() {
    let provider = ProviderProfile::warp_hosted();
    assert_eq!(start_discovery(&provider, &no_auth()), DiscoveryStep::Finished(vec![]));
}

#[test]
fn discovered_models_have_a_source() {
    let mut provider = profile(ProviderKind::OpenAICompatible);
    assert_eq!(
        start_discovery(&provider, &no_auth()),
        DiscoveryStep::AskModels(models_request(provider.kind, &provider.base_url, &no_auth()))
    );
    let models = finish_discovery(&provider, body(OPENAI_LIST)).unwrap().unwrap();
    assert_eq!(models.len(), 2);
    assert_eq!(models[0].id, "a");
    assert_eq!(models[0].source, DiscoveredModelSource::Discovered);
    provider.discovery = ProviderDiscovery::manual_only(vec![]);
    let models = finish_discovery(&provider, body(OPENAI_LIST)).unwrap().unwrap();
    assert_eq!(models[1].source, DiscoveredModelSource::Manual);
    assert_eq!(finish_discovery(&provider, failure()).unwrap(), Err(ValidationError::Timeout));
}

// ---------------------------------------------------------------------------
// The cache
// ---------------------------------------------------------------------------

fn cached_at(secs: i64, nanos: u32) -> ValidationCacheEntry {
    let result = validate(ProviderKind::OpenAI, ValidationLevel::Cheap, failure(), None);
    ValidationCacheEntry::from_validation_result_at(&result, &Timestamp::new(secs, nanos).unwrap())
}

#[test]
fn cache_entries_keep_the_outcome() {
    let entry = cached_at(5, 6);
    assert_eq!(entry.status, ValidationStatus::Failed);
    assert_eq!(entry.error, Some(ValidationError::Timeout));
    assert_eq!(entry.retry_count, 0);
    assert_eq!((entry.last_validated.secs(), entry.last_validated.nanos()), (5, 6));
}

#[test]
fn cache_entries_grow_stale() {
    let entry = cached_at(100, 500);
    let at = |secs, nanos| Timestamp::new(secs, nanos).unwrap();
    assert!(!entry.is_stale_at(&at(100, 500), Duration::from_secs(0)));
    assert!(entry.is_stale_at(&at(100, 501), Duration::from_secs(0)));
    assert!(!entry.is_stale_at(&at(110, 500), Duration::from_secs(10)));
    assert!(entry.is_stale_at(&at(110, 501), Duration::from_secs(10)));
    assert!(entry.is_stale_at(&at(99, 0), Duration::from_secs(1_000)));
    assert!(!entry.is_stale_at(&at(99, 0), Duration::MAX));
}

#[test]
fn new_cache_entries_are_fresh() {
    let result = validate(ProviderKind::OpenAI, ValidationLevel::Cheap, body(OPENAI_LIST), None);
    let entry = ValidationCacheEntry::from_validation_result(&result);
    assert!(!entry.is_stale(Duration::from_secs(60)));
    assert!(cached_at(0, 0).is_stale(Duration::from_secs(60)));
}

#[test]
fn failure_modes_are_told_apart() {
    let detail = || "the same".to_string();
    let errors = [
        ValidationError::AuthFailure { detail: detail(), http_status: 401 },
        ValidationError::EndpointUnreachable { detail: detail() },
        ValidationError::Timeout,
        ValidationError::InvalidSchema { detail: detail() },
        ValidationError::UnsupportedCapability { detail: detail() },
        ValidationError::RateLimit { detail: detail(), retry_after_secs: None },
        ValidationError::StreamInterrupted { detail: detail() },
        ValidationError::UnknownProviderError { detail: detail(), http_status: 500 },
    ];
    for (i, a) in errors.iter().enumerate() {
        for b in &errors[..i] {
            assert!(a.to_string() != b.to_string());
        }
    }
    assert_eq!(errors[5].to_string(), "Rate limited by provider \u{2014} the same");
}
