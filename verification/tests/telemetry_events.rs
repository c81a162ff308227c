use ai_providers::direct_telemetry::{
    direct_provider_completed, direct_provider_started, direct_provider_telemetry_hash, DirectProviderOutcome,
    DirectProviderTelemetry, TelemetryEvent,
};
use ai_providers::http_status::{status_family, HttpStatus};
use ai_providers::json::{Json, JsonNumber};
use ai_providers::provider_registry::ProviderKind;

/// The JSON text of a value.
fn serialize(value: &Json) -> String {
    serde_json::to_string(&to_value(value)).unwrap()
}

fn to_value(value: &Json) -> serde_json::Value {
    match value {
        Json::Null => serde_json::Value::Null,
        Json::Bool(b) => serde_json::Value::from(*b),
        Json::Number(JsonNumber::Unsigned(n)) => serde_json::Value::from(*n),
        Json::Number(other) => panic!("{other:?}"),
        Json::Text(text) => serde_json::Value::from(text.as_str()),
        Json::Array(items) => items.iter().map(to_value).collect(),
        Json::Object(members) => {
            members.iter().map(|(name, value)| (name.clone(), to_value(value))).collect()
        }
    }
}

fn field<'a>(payload: &'a Json, name: &str) -> &'a Json {
    payload.get(name).unwrap()
}

#[test]
fn direct_provider_started_telemetry_excludes_sensitive_values() {
    let event = TelemetryEvent::DirectProviderRequestStarted {
        provider_kind: "OpenAICompatible".to_string(),
        endpoint_origin_hash: "sha256:endpoint".to_string(),
        model_id_hash: "sha256:model".to_string(),
        is_local: Some(true),
    };

    assert!(!event.contains_ugc());
    let payload = event.payload().expect("started event should have payload");
    assert_eq!(field(&payload, "provider_kind").as_str(), Some("OpenAICompatible"));
    assert_eq!(field(&payload, "endpoint_origin_hash").as_str(), Some("sha256:endpoint"));
    assert_eq!(field(&payload, "model_id_hash").as_str(), Some("sha256:model"));
    assert_eq!(field(&payload, "is_local"), &Json::Bool(true));

    let serialized = serialize(&payload);
    for forbidden in [
        "qwen2.5-coder:14b",
        "http://127.0.0.1:11434/v1",
        "Authorization",
        "sk-local-secret",
        "user prompt",
        "tool argument",
        "/Users/test/project",
    ] {
        assert!(
            !serialized.contains(forbidden),
            "direct-provider started telemetry leaked {forbidden}"
        );
    }
}

#[test]
fn direct_provider_completed_telemetry_excludes_sensitive_values() {
    let event = TelemetryEvent::DirectProviderRequestCompleted {
        provider_kind: "OpenAICompatible".to_string(),
        endpoint_origin_hash: "sha256:endpoint".to_string(),
        model_id_hash: "sha256:model".to_string(),
        success: false,
        error_class: Some("AuthFailure".to_string()),
        duration_ms: 25,
        stream_duration_ms: Some(40),
        http_status_family: Some("4xx".to_string()),
        is_local: Some(false),
        tokens_prompt: Some(10),
        tokens_completion: Some(5),
        tokens_total: Some(15),
    };

    assert!(!event.contains_ugc());
    let payload = event
        .payload()
        .expect("completed event should have payload");
    assert_eq!(field(&payload, "provider_kind").as_str(), Some("OpenAICompatible"));
    assert_eq!(field(&payload, "endpoint_origin_hash").as_str(), Some("sha256:endpoint"));
    assert_eq!(field(&payload, "model_id_hash").as_str(), Some("sha256:model"));
    assert_eq!(field(&payload, "error_class").as_str(), Some("AuthFailure"));
    assert_eq!(field(&payload, "http_status_family").as_str(), Some("4xx"));

    let serialized = serialize(&payload);
    for forbidden in [
        "https://proxy.example.com/v1",
        "enterprise-secret-model",
        "x-api-key",
        "sk-live-secret",
        "assistant response body",
        r#"{"path":"/Users/test/project"}"#,
    ] {
        assert!(
            !serialized.contains(forbidden),
            "direct-provider completed telemetry leaked {forbidden}"
        );
    }
}

fn telemetry(base_url: &str) -> DirectProviderTelemetry {
    DirectProviderTelemetry {
        provider_kind: ProviderKind::AnthropicCompatible,
        base_url: base_url.to_string(),
        model: "secret-model".to_string(),
    }
}

#[test]
fn reports_hold_fingerprints() {
    let event = direct_provider_started(&telemetry("http://localhost:11434/v1"));
    assert_eq!(event, direct_provider_started(&telemetry("http://localhost:11434/other/path")));
    match event {
        TelemetryEvent::DirectProviderRequestStarted {
            provider_kind,
            endpoint_origin_hash,
            model_id_hash,
            is_local,
        } => {
            assert_eq!(provider_kind, "AnthropicCompatible");
            assert_eq!(endpoint_origin_hash, direct_provider_telemetry_hash("http://localhost:11434"));
            assert_eq!(model_id_hash, direct_provider_telemetry_hash("secret-model"));
            assert_eq!(is_local, Some(true));
        }
        other => panic!("{other:?}"),
    }
}

#[test]
fn fingerprints_are_sha256_in_hexadecimal() {
    assert_eq!(
        direct_provider_telemetry_hash(""),
        "sha256:e3b0c44298fc1c149afbf4c8996fb92427ae41e4649b934ca495991b7852b855"
    );
    assert_eq!(
        direct_provider_telemetry_hash("abc"),
        "sha256:ba7816bf8f01cfea414140de5dae2223b00361a396177a9cb410ff61f20015ad"
    );
}

#[test]
fn outcomes_are_reported() {
    let mut outcome = DirectProviderOutcome::unknown();
    outcome.error_class = Some("Timeout".to_string());
    outcome.http_status = HttpStatus::from_u16(504);
    outcome.duration_ms = 3;
    let payload = direct_provider_completed(&telemetry("nowhere"), outcome).payload().unwrap();
    let text = serialize(&payload);
    for part in [
        r#""success":false"#,
        r#""error_class":"Timeout""#,
        r#""http_status_family":"5xx""#,
        r#""duration_ms":3"#,
        r#""stream_duration_ms":null"#,
        r#""is_local":null"#,
        r#""tokens_total":null"#,
    ] {
        assert!(text.contains(part), "{part}");
    }
    assert!(!text.contains("nowhere") && !text.contains("secret-model"));
    assert_eq!(
        field(&payload, "endpoint_origin_hash").as_str().unwrap(),
        direct_provider_telemetry_hash("nowhere")
    );
}

#[test]
fn statuses_have_families() {
    for (code, family) in
        [(199, "unknown"), (200, "2xx"), (299, "2xx"), (301, "3xx"), (404, "4xx"), (599, "5xx"), (600, "unknown")]
    {
        assert_eq!(status_family(code), family);
    }
}
