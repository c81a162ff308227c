use ai_providers::api_keys::ApiKeys;
use ai_providers::clock::Timestamp;
use ai_providers::provider_registry::{
    infer_local_only, AuthConfig, AuthSource, CapabilitySetting, DiscoveredModel, DiscoveredModelSource,
    DiscoveryStrategy, ProviderCapabilities, ProviderDefaults, ProviderDiscovery, ProviderKind, ProviderModelChoice,
    ProviderPolicy, ProviderProfile, ProviderQualifiedModelId, ProviderRegistry, ProviderRegistryDefaults,
    ProviderResolutionError, ResolvedAuth, ResolvedProvider, Single, LEGACY_ANTHROPIC_PROVIDER_ID,
    LEGACY_OPENAI_PROVIDER_ID, WARP_HOSTED_PROVIDER_ID,
};
use ai_providers::provider_validator::{
    DiscoveredModelInfo, ValidationError, ValidationResult, ValidationStatus,
};
use ai_providers::string_map::StringMap;

#[test]
fn default_registry_synthesizes_warp_hosted_provider() {
    let registry = ProviderRegistry::default();

    let provider = registry
        .providers
        .get(WARP_HOSTED_PROVIDER_ID)
        .expect("warp-hosted provider should exist");
    assert_eq!(provider.kind, ProviderKind::WarpHosted);
    assert_eq!(provider.defaults.model.as_deref(), Some("auto"));
    assert_eq!(
        registry.defaults.agent_provider.as_deref(),
        Some(WARP_HOSTED_PROVIDER_ID)
    );
}

#[test]
fn direct_provider_policy_defaults_disable_warp_fallback() {
    let openai = ProviderProfile::direct(
        "openai-main",
        ProviderKind::OpenAI,
        "OpenAI direct",
        None,
        AuthConfig::env_api_key("OPENAI_API_KEY"),
    );

    assert!(!openai.policy.allow_fallback_to_warp_hosted);
    assert!(!openai.policy.allow_manual_model_ids);
    assert!(openai.policy.redact_telemetry);

    let compatible = ProviderProfile::direct(
        "ollama-local",
        ProviderKind::OpenAICompatible,
        "Ollama local",
        Some("http://127.0.0.1:11434/v1".to_string()),
        AuthConfig::NoAuth,
    );

    assert!(compatible.policy.allow_manual_model_ids);
    assert_eq!(compatible.policy.local_only, Some(true));
    assert!(!compatible.policy.allows_warp_hosted_fallback());
}

#[test]
fn legacy_migration_creates_first_party_profiles_without_google_or_openrouter() {
    let legacy_keys = ApiKeys {
        openai: Some("sk-openai".to_string()),
        anthropic: Some("sk-ant".to_string()),
        google: Some("google".to_string()),
        open_router: Some("openrouter".to_string()),
    };

    let registry = ProviderRegistry::from_existing(None, &legacy_keys, "sonnet-4");

    assert!(registry.providers.contains_key(WARP_HOSTED_PROVIDER_ID));
    assert!(registry.providers.contains_key(LEGACY_OPENAI_PROVIDER_ID));
    assert!(registry
        .providers
        .contains_key(LEGACY_ANTHROPIC_PROVIDER_ID));
    assert_eq!(registry.providers.len(), 3);
    assert_eq!(
        registry.providers.get(LEGACY_OPENAI_PROVIDER_ID).unwrap().auth,
        AuthConfig::keychain_api_key("legacy://AiApiKeys/openai")
    );
}

#[test]
fn qualified_model_id_preserves_colons_in_provider_model_id() {
    let qualified = ProviderQualifiedModelId::parse("ollama-local:qwen2.5-coder:14b")
        .expect("qualified model id should parse");

    assert_eq!(qualified.provider_id, "ollama-local");
    assert_eq!(qualified.model_id, "qwen2.5-coder:14b");
    assert_eq!(qualified.to_string(), "ollama-local:qwen2.5-coder:14b");
}

#[test]
fn resolver_prefers_requested_provider_qualified_model() {
    let mut registry = ProviderRegistry::default();
    let mut ollama = ProviderProfile::direct(
        "ollama-local",
        ProviderKind::OpenAICompatible,
        "Ollama local",
        Some("http://localhost:11434/v1".to_string()),
        AuthConfig::NoAuth,
    );
    ollama.discovery = ProviderDiscovery::manual_only(vec!["llama3.1:8b".to_string()]);
    registry.upsert_provider(ollama);
    registry.defaults = ProviderRegistryDefaults {
        agent_provider: Some(WARP_HOSTED_PROVIDER_ID.to_string()),
        agent_model: Some("auto".to_string()),
    };

    let resolved = registry
        .resolve_agent_provider(Some("ollama-local:llama3.1:8b"))
        .expect("manual compatible model should resolve");

    assert_eq!(resolved.profile_id, "ollama-local");
    assert_eq!(resolved.kind, ProviderKind::OpenAICompatible);
    assert_eq!(resolved.model, "llama3.1:8b");
    assert_eq!(resolved.auth, ResolvedAuth::NoAuth);
    assert_eq!(resolved.policy.local_only, Some(true));
}

#[test]
fn resolver_uses_registry_defaults_when_no_override_is_present() {
    let mut registry = ProviderRegistry::default();
    let mut openai = ProviderProfile::direct(
        "openai-main",
        ProviderKind::OpenAI,
        "OpenAI direct",
        None,
        AuthConfig::env_api_key("OPENAI_API_KEY"),
    );
    openai.defaults.model = Some("gpt-4.1".to_string());
    registry.upsert_provider(openai);
    registry.defaults = ProviderRegistryDefaults {
        agent_provider: Some("openai-main".to_string()),
        agent_model: Some("gpt-4.1".to_string()),
    };

    let resolved = registry
        .resolve_agent_provider(None)
        .expect("registry default should resolve");

    assert_eq!(resolved.profile_id, "openai-main");
    assert_eq!(resolved.model, "gpt-4.1");
    assert_eq!(
        resolved.auth,
        ResolvedAuth::EnvApiKey {
            env_var: Some("OPENAI_API_KEY".to_string())
        }
    );
}

#[test]
fn resolver_treats_unqualified_existing_model_ids_as_warp_hosted() {
    let registry = ProviderRegistry::default();

    let resolved = registry
        .resolve_agent_provider(Some("sonnet"))
        .expect("legacy unqualified model ids should resolve through warp-hosted");

    assert_eq!(resolved.profile_id, WARP_HOSTED_PROVIDER_ID);
    assert_eq!(resolved.kind, ProviderKind::WarpHosted);
    assert_eq!(resolved.model, "sonnet");
}

#[test]
fn resolver_rejects_disabled_provider() {
    let mut registry = ProviderRegistry::default();
    let mut profile = ProviderProfile::direct(
        "openai-main",
        ProviderKind::OpenAI,
        "OpenAI direct",
        None,
        AuthConfig::env_api_key("OPENAI_API_KEY"),
    );
    profile.enabled = false;
    profile.defaults.model = Some("gpt-4.1".to_string());
    registry.upsert_provider(profile);

    let error = registry
        .resolve_agent_provider(Some("openai-main:gpt-4.1"))
        .expect_err("disabled provider should not resolve");

    assert_eq!(
        error,
        ProviderResolutionError::DisabledProvider {
            provider_id: "openai-main".to_string()
        }
    );
}

#[test]
fn resolver_rejects_unknown_first_party_model_without_manual_policy() {
    let mut registry = ProviderRegistry::default();
    let profile = ProviderProfile::direct(
        "openai-main",
        ProviderKind::OpenAI,
        "OpenAI direct",
        None,
        AuthConfig::env_api_key("OPENAI_API_KEY"),
    );
    registry.upsert_provider(profile);

    let error = registry
        .resolve_agent_provider(Some("openai-main:made-up-model"))
        .expect_err("first-party unknown model should be rejected");

    assert_eq!(
        error,
        ProviderResolutionError::UnknownModel {
            provider_id: "openai-main".to_string(),
            model_id: "made-up-model".to_string()
        }
    );
}

#[test]
fn enabled_choices_include_provider_provenance() {
    let mut registry = ProviderRegistry {
        defaults: ProviderRegistryDefaults::default(),
        providers: StringMap::new(),
    };
    let mut profile = ProviderProfile::direct(
        "proxy",
        ProviderKind::AnthropicCompatible,
        "Enterprise proxy",
        Some("https://llm-proxy.example.com/v1".to_string()),
        AuthConfig::keychain_api_key("keychain://warp/providers/proxy"),
    );
    profile.discovery = ProviderDiscovery::manual_only(vec!["sonnet-proxy".to_string()]);
    registry.upsert_provider(profile);

    let choices = registry.enabled_model_choices();

    assert_eq!(choices.len(), 1);
    assert_eq!(choices[0].provider_display_name, "Enterprise proxy");
    assert_eq!(choices[0].provider_kind, ProviderKind::AnthropicCompatible);
    assert!(choices[0].manual);
    assert!(!choices[0].local_only);
}

#[test]
fn team_policy_allows_direct_when_allowed() {
    let resolved = ResolvedProvider {
        profile_id: "openai-main".to_string(),
        kind: ProviderKind::OpenAI,
        model: "gpt-4.1".to_string(),
        base_url: "https://api.openai.com/v1".to_string(),
        auth: ResolvedAuth::EnvApiKey {
            env_var: Some("OPENAI_API_KEY".to_string()),
        },
        headers: StringMap::new(),
        capabilities: ProviderCapabilities::default(),
        policy: ProviderPolicy::for_kind(&ProviderKind::OpenAI),
        defaults: ProviderDefaults::default(),
    };
    assert!(resolved.validate_team_policy(true, true, true, false).is_ok());
}

#[test]
fn team_policy_blocks_direct_when_disallowed() {
    let resolved = ResolvedProvider {
        profile_id: "openai-main".to_string(),
        kind: ProviderKind::OpenAI,
        model: "gpt-4.1".to_string(),
        base_url: "https://api.openai.com/v1".to_string(),
        auth: ResolvedAuth::EnvApiKey {
            env_var: Some("OPENAI_API_KEY".to_string()),
        },
        headers: StringMap::new(),
        capabilities: ProviderCapabilities::default(),
        policy: ProviderPolicy::for_kind(&ProviderKind::OpenAI),
        defaults: ProviderDefaults::default(),
    };
    let err = resolved
        .validate_team_policy(false, true, true, false)
        .expect_err("should be blocked");
    assert!(matches!(
        err,
        ProviderResolutionError::TeamPolicyBlocked { .. }
    ));
}

#[test]
fn team_policy_blocks_compatible_when_disallowed() {
    let resolved = ResolvedProvider {
        profile_id: "ollama-local".to_string(),
        kind: ProviderKind::OpenAICompatible,
        model: "llama3".to_string(),
        base_url: "http://localhost:11434/v1".to_string(),
        auth: ResolvedAuth::NoAuth,
        headers: StringMap::new(),
        capabilities: ProviderCapabilities::default(),
        policy: ProviderPolicy::for_kind(&ProviderKind::OpenAICompatible),
        defaults: ProviderDefaults::default(),
    };
    let err = resolved
        .validate_team_policy(true, false, true, false)
        .expect_err("should be blocked");
    assert!(matches!(
        err,
        ProviderResolutionError::TeamPolicyBlocked { .. }
    ));
}

#[test]
fn team_policy_allows_warp_hosted_regardless() {
    let registry = ProviderRegistry::default();
    let resolved = registry
        .resolve_agent_provider(Some("auto"))
        .expect("warp-hosted should resolve");
    // Warp-hosted is neither direct nor compatible, so it should always pass
    assert!(resolved.validate_team_policy(false, false, false, false).is_ok());
}

#[test]
fn team_policy_blocks_compatible_when_endpoint_origin_disallowed() {
    let resolved = ResolvedProvider {
        profile_id: "enterprise-proxy".to_string(),
        kind: ProviderKind::OpenAICompatible,
        model: "proxy-model".to_string(),
        base_url: "https://unapproved.example.com/v1".to_string(),
        auth: ResolvedAuth::NoAuth,
        headers: StringMap::new(),
        capabilities: ProviderCapabilities::default(),
        policy: ProviderPolicy::for_kind(&ProviderKind::OpenAICompatible),
        defaults: ProviderDefaults::default(),
    };

    let err = resolved
        .validate_team_policy(true, true, false, false)
        .expect_err("endpoint origin should be blocked");

    assert!(matches!(
        err,
        ProviderResolutionError::TeamPolicyBlocked { reason, .. }
            if reason.contains("endpoint origin")
    ));
}

#[test]
fn team_policy_blocks_byo_when_managed_team_disallows() {
    let resolved = ResolvedProvider {
        profile_id: "openai-main".to_string(),
        kind: ProviderKind::OpenAI,
        model: "gpt-4.1".to_string(),
        base_url: "https://api.openai.com/v1".to_string(),
        auth: ResolvedAuth::EnvApiKey {
            env_var: Some("OPENAI_API_KEY".to_string()),
        },
        headers: StringMap::new(),
        capabilities: ProviderCapabilities::default(),
        // Default policy has allow_in_managed_teams = None
        policy: ProviderPolicy::for_kind(&ProviderKind::OpenAI),
        defaults: ProviderDefaults::default(),
    };
    // Passes for solo users
    assert!(resolved.validate_team_policy(true, true, true, false).is_ok());
    // Blocked for managed teams when allow_in_managed_teams is None
    let err = resolved
        .validate_team_policy(true, true, true, true)
        .expect_err("should be blocked for managed team");
    assert!(matches!(
        err,
        ProviderResolutionError::TeamPolicyBlocked { .. }
    ));
}

#[test]
fn team_policy_allows_byo_when_managed_team_explicitly_allows() {
    let mut policy = ProviderPolicy::for_kind(&ProviderKind::OpenAI);
    policy.allow_in_managed_teams = Some(true);
    let resolved = ResolvedProvider {
        profile_id: "openai-enterprise".to_string(),
        kind: ProviderKind::OpenAI,
        model: "gpt-4.1".to_string(),
        base_url: "https://api.openai.com/v1".to_string(),
        auth: ResolvedAuth::EnvApiKey {
            env_var: Some("OPENAI_API_KEY".to_string()),
        },
        headers: StringMap::new(),
        capabilities: ProviderCapabilities::default(),
        policy,
        defaults: ProviderDefaults::default(),
    };
    // Allowed when explicitly permitted even for managed teams
    assert!(resolved.validate_team_policy(true, true, true, true).is_ok());
}

#[test]
fn applying_validation_result_persists_cache_and_discovered_models() {
    let mut registry = ProviderRegistry::default();
    let provider = ProviderProfile::direct(
        "openai-main",
        ProviderKind::OpenAI,
        "OpenAI direct",
        None,
        AuthConfig::env_api_key("OPENAI_API_KEY"),
    );
    registry.upsert_provider(provider);

    let result = ValidationResult {
        status: ValidationStatus::Success,
        error: None,
        discovered_models: Some(vec![DiscoveredModelInfo {
            id: "gpt-4.1".to_string(),
            display_name: Some("GPT 4.1".to_string()),
        }]),
        response_time_ms: Some(42),
        model: None,
    };

    registry.apply_validation_result("openai-main", &result);

    let provider = registry.providers.get("openai-main").unwrap();
    assert_eq!(
        provider
            .validation_cache
            .as_ref()
            .map(|cache| &cache.status),
        Some(&ValidationStatus::Success)
    );
    assert_eq!(provider.discovered_models.len(), 1);
    assert_eq!(provider.discovered_models[0].id, "gpt-4.1");
    assert_eq!(
        provider.discovered_models[0].source,
        DiscoveredModelSource::Discovered
    );
    assert_eq!(
        provider.discovery.strategy,
        DiscoveryStrategy::ModelsEndpoint
    );
}

#[test]
fn applying_failed_validation_result_keeps_error_cache() {
    let mut registry = ProviderRegistry::default();
    let provider = ProviderProfile::direct(
        "openai-main",
        ProviderKind::OpenAI,
        "OpenAI direct",
        None,
        AuthConfig::env_api_key("OPENAI_API_KEY"),
    );
    registry.upsert_provider(provider);

    let result = ValidationResult {
        status: ValidationStatus::Failed,
        error: Some(ValidationError::AuthFailure {
            detail: "bad key".to_string(),
            http_status: 401,
        }),
        discovered_models: None,
        response_time_ms: Some(12),
        model: None,
    };

    registry.apply_validation_result("openai-main", &result);

    let cache = registry.providers.get("openai-main").unwrap()
        .validation_cache
        .as_ref()
        .expect("failed validation should still be cached");
    assert_eq!(cache.status, ValidationStatus::Failed);
    assert!(matches!(
        cache.error,
        Some(ValidationError::AuthFailure {
            http_status: 401,
            ..
        })
    ));
}

#[test]
fn applying_deep_validation_model_adds_manual_fallback_model() {
    let mut registry = ProviderRegistry::default();
    let provider = ProviderProfile::direct(
        "ollama-local",
        ProviderKind::OpenAICompatible,
        "Ollama local",
        Some("http://localhost:11434/v1".to_string()),
        AuthConfig::NoAuth,
    );
    registry.upsert_provider(provider);

    let result = ValidationResult {
        status: ValidationStatus::Success,
        error: None,
        discovered_models: None,
        response_time_ms: Some(30),
        model: Some("llama3.1:8b".to_string()),
    };

    registry.apply_validation_result("ollama-local", &result);

    assert_eq!(
        registry.providers.get("ollama-local").unwrap().discovery.fallback_models,
        vec!["llama3.1:8b".to_string()]
    );
}

// ---------------------------------------------------------------------------
// Model ids
// ---------------------------------------------------------------------------

#[test]
fn unqualified_or_incomplete_ids_do_not_parse() {
    for value in ["", "gpt-4.1", ":gpt-4.1", "openai-main:", ":"] {
        assert!(ProviderQualifiedModelId::parse(value).is_none(), "{value}");
    }
    let short = ProviderQualifiedModelId::parse("a:b").unwrap();
    assert_eq!(short, ProviderQualifiedModelId::new("a", "b"));
}

#[test]
fn written_model_ids_read_back() {
    let id = ProviderQualifiedModelId::new("caf\u{e9}", "mod\u{e8}le:\u{1f980}");
    assert_eq!(ProviderQualifiedModelId::parse(&id.to_string()), Some(id));
}

#[test]
fn model_ids_are_sorted_and_unique() {
    let mut profile = ProviderProfile::warp_hosted();
    profile.defaults.model = Some("m".to_string());
    profile.discovered_models = vec![model("z"), model("a"), model("m")];
    profile.discovery.fallback_models = vec!["b".to_string(), "a".to_string(), "B".to_string()];
    assert_eq!(profile.model_ids(), vec!["B", "a", "b", "m", "z"]);
}

// ---------------------------------------------------------------------------
// Profiles
// ---------------------------------------------------------------------------

fn model(id: &str) -> DiscoveredModel {
    DiscoveredModel {
        id: id.to_string(),
        display_name: None,
        source: DiscoveredModelSource::Discovered,
        capabilities: ProviderCapabilities::default(),
    }
}

fn openai() -> ProviderProfile {
    ProviderProfile::direct(
        "openai-main",
        ProviderKind::OpenAI,
        "OpenAI direct",
        None,
        AuthConfig::env_api_key("OPENAI_API_KEY"),
    )
}

fn result_with_models(ids: &[&str]) -> ValidationResult {
    ValidationResult {
        status: ValidationStatus::Success,
        error: None,
        discovered_models: Some(
            ids.iter().map(|id| DiscoveredModelInfo { id: id.to_string(), display_name: None }).collect(),
        ),
        response_time_ms: None,
        model: None,
    }
}

#[test]
fn first_party_providers_have_default_endpoints() {
    assert_eq!(openai().base_url, "https://api.openai.com/v1");
    assert_eq!(openai().policy.local_only, Some(false));
    assert_eq!(ProviderKind::Anthropic.default_base_url(), "https://api.anthropic.com/v1");
    for kind in [ProviderKind::WarpHosted, ProviderKind::OpenAICompatible, ProviderKind::AnthropicCompatible] {
        assert_eq!(kind.default_base_url(), "");
    }
    assert!(!ProviderKind::WarpHosted.is_direct());
    assert!(ProviderKind::OpenAI.is_direct() && !ProviderKind::OpenAI.is_compatible());
    assert!(ProviderKind::AnthropicCompatible.is_compatible());
    assert_eq!(ProviderKind::OpenAICompatible.name(), format!("{:?}", ProviderKind::OpenAICompatible));
}

#[test]
fn local_endpoints_are_told_from_remote_ones() {
    assert_eq!(infer_local_only("http://localhost:11434/v1"), Some(true));
    assert_eq!(infer_local_only("http://127.0.0.1/v1"), Some(true));
    assert_eq!(infer_local_only("http://0.0.0.0:8080"), Some(true));
    assert_eq!(infer_local_only("http://[::1]:11434/v1"), Some(true));
    assert_eq!(infer_local_only("http://[0:0:0:0:0:0:0:1]/v1"), Some(true));
    assert_eq!(infer_local_only("http://[::2]:11434/v1"), Some(false));
    assert_eq!(infer_local_only("https://LOCALHOST/v1"), Some(true));
    assert_eq!(infer_local_only("https://localhost.example.com"), Some(false));
    assert_eq!(infer_local_only("not a url"), None);
    assert_eq!(infer_local_only("data:text/plain,hi"), None);
}

#[test]
fn capability_settings_say_what_the_user_has_set() {
    assert_eq!(CapabilitySetting::default(), CapabilitySetting::Automatic("auto".to_string()));
    assert_eq!(CapabilitySetting::automatic().is_enabled(), None);
    assert_eq!(CapabilitySetting::enabled().is_enabled(), Some(true));
    assert_eq!(CapabilitySetting::disabled().is_enabled(), Some(false));
}

#[test]
fn fallback_needs_permission_and_a_remote_endpoint() {
    let mut policy = ProviderPolicy::for_kind(&ProviderKind::OpenAI);
    assert!(!policy.allows_warp_hosted_fallback());
    policy.allow_fallback_to_warp_hosted = true;
    assert!(policy.allows_warp_hosted_fallback());
    policy.local_only = Some(true);
    assert!(!policy.allows_warp_hosted_fallback());
    policy.local_only = Some(false);
    assert!(policy.allows_warp_hosted_fallback());
    assert!(!ProviderPolicy::warp_hosted().allows_warp_hosted_fallback());
}

#[test]
fn bearer_tokens_resolve_to_the_keychain() {
    let auth = AuthConfig::BearerToken { source: AuthSource::Env, secret_ref: "ref".to_string() };
    assert_eq!(ResolvedAuth::from(&auth), ResolvedAuth::KeychainBearerToken { secret_ref: "ref".to_string() });
    assert_eq!(
        ResolvedAuth::from(&AuthConfig::keychain_api_key("ref")),
        ResolvedAuth::KeychainApiKey { secret_ref: Some("ref".to_string()) }
    );
    assert_eq!(ResolvedAuth::from(&AuthConfig::NoAuth), ResolvedAuth::NoAuth);
}

// ---------------------------------------------------------------------------
// The registry
// ---------------------------------------------------------------------------

#[test]
fn start_keeps_stored_profiles_and_is_idempotent() {
    let keys = ApiKeys { openai: Some("sk".to_string()), anthropic: None, google: None, open_router: None };
    let mut stored = ProviderRegistry { defaults: ProviderRegistryDefaults::default(), providers: StringMap::new() };
    let mut kept = openai();
    kept.display_name = "Mine".to_string();
    stored.upsert_provider(kept);
    let started = ProviderRegistry::from_existing(Some(stored), &keys, "sonnet-4");
    assert_eq!(started.providers.len(), 2);
    assert_eq!(started.providers.get("openai-main").unwrap().display_name, "Mine");
    assert_eq!(started.defaults.agent_provider.as_deref(), Some(WARP_HOSTED_PROVIDER_ID));
    assert_eq!(started.defaults.agent_model.as_deref(), Some("auto"));
    let again = ProviderRegistry::from_existing(Some(started.clone()), &keys, "sonnet-4");
    assert_eq!(again, started);
}

#[test]
fn legacy_profiles_have_a_model_each() {
    let keys = ApiKeys {
        openai: Some("a".to_string()),
        anthropic: Some("b".to_string()),
        google: None,
        open_router: None,
    };
    let registry = ProviderRegistry::from_existing(None, &keys, "sonnet-4");
    assert_eq!(registry.providers.get(LEGACY_OPENAI_PROVIDER_ID).unwrap().model_ids(), vec!["gpt-4.1"]);
    assert_eq!(registry.providers.get(LEGACY_ANTHROPIC_PROVIDER_ID).unwrap().model_ids(), vec!["sonnet-4"]);
}

#[test]
fn updates_keep_the_validation_cache_and_other_providers() {
    let mut registry = ProviderRegistry::new();
    registry.upsert_provider(openai());
    registry.apply_validation_result("openai-main", &result_with_models(&["gpt-4.1"]));
    let cache = registry.providers.get("openai-main").unwrap().validation_cache.clone();
    assert!(cache.is_some());
    let mut renamed = openai();
    renamed.display_name = "Renamed".to_string();
    renamed.policy.local_only = None;
    renamed.base_url = "http://localhost:1/v1".to_string();
    registry.upsert_provider(renamed);
    let stored = registry.providers.get("openai-main").unwrap();
    assert_eq!(stored.display_name, "Renamed");
    assert_eq!(stored.validation_cache, cache);
    assert_eq!(stored.policy.local_only, Some(true));
    assert_eq!(registry.providers.get(WARP_HOSTED_PROVIDER_ID).unwrap(), &ProviderProfile::warp_hosted());
}

#[test]
fn results_for_unknown_providers_change_nothing() {
    let mut registry = ProviderRegistry::new();
    let before = registry.clone();
    registry.apply_validation_result("nobody", &result_with_models(&["m"]));
    registry.apply_discovered_models("nobody", vec![model("m")]);
    assert_eq!(registry, before);
}

#[test]
fn discovered_models_change_the_strategy() {
    let mut registry = ProviderRegistry::new();
    let mut manual = openai();
    manual.discovery = ProviderDiscovery::manual_only(vec!["mine".to_string()]);
    registry.upsert_provider(manual);
    registry.apply_discovered_models("openai-main", vec![]);
    assert_eq!(registry.providers.get("openai-main").unwrap().discovery.strategy, DiscoveryStrategy::ManualOnly);
    registry.apply_validation_result("openai-main", &result_with_models(&["m"]));
    assert_eq!(registry.providers.get("openai-main").unwrap().discovery.strategy, DiscoveryStrategy::ManualOnly);
    registry.apply_discovered_models("openai-main", vec![model("m")]);
    let stored = registry.providers.get("openai-main").unwrap();
    assert_eq!(stored.discovery.strategy, DiscoveryStrategy::ModelsEndpoint);
    assert_eq!(stored.discovery.fallback_models, vec!["mine"]);
    assert_eq!(stored.model_ids(), vec!["m", "mine"]);
}

#[test]
fn known_models_are_not_added_again() {
    let mut registry = ProviderRegistry::new();
    let mut profile = openai();
    profile.discovery.fallback_models = vec!["b".to_string(), "a".to_string()];
    registry.upsert_provider(profile);
    let mut result = result_with_models(&["m"]);
    result.model = Some("m".to_string());
    registry.apply_validation_result("openai-main", &result);
    assert_eq!(registry.providers.get("openai-main").unwrap().discovery.fallback_models, vec!["b", "a"]);
    result.model = Some("aa".to_string());
    registry.apply_validation_result("openai-main", &result);
    assert_eq!(registry.providers.get("openai-main").unwrap().discovery.fallback_models, vec!["a", "aa", "b"]);
}

#[test]
fn choices_stand_in_the_order_of_the_provider_ids() {
    let mut registry = ProviderRegistry::new();
    let mut profile = openai();
    profile.id = "zeta".to_string();
    profile.discovery.fallback_models = vec!["m2".to_string()];
    profile.discovered_models = vec![model("m1")];
    registry.upsert_provider(profile.clone());
    profile.id = "alpha".to_string();
    registry.upsert_provider(profile.clone());
    profile.id = "off".to_string();
    profile.enabled = false;
    registry.upsert_provider(profile);
    let ids: Vec<String> =
        registry.enabled_model_choices().iter().map(|choice| choice.qualified_id.to_string()).collect();
    assert_eq!(ids, vec!["alpha:m1", "alpha:m2", "warp-hosted:auto", "zeta:m1", "zeta:m2"]);
    for choice in registry.enabled_model_choices() {
        let resolved = registry.resolve_agent_provider(Some(&choice.qualified_id.to_string())).unwrap();
        assert_eq!(resolved.profile_id, choice.qualified_id.provider_id);
        assert_eq!(resolved.model, choice.model_id);
        assert_eq!(choice.manual, choice.model_id == "m2");
    }
    assert!(registry.providers.get("off").is_some());
}

#[test]
fn a_choice_tells_where_it_comes_from() {
    let mut profile = openai();
    profile.policy.local_only = Some(true);
    profile.discovery.fallback_models = vec!["mine".to_string()];
    let choice = ProviderModelChoice::new(&profile, "mine".to_string());
    assert!(choice.local_only && choice.manual);
    assert!(!ProviderModelChoice::new(&profile, "other".to_string()).manual);
}

// ---------------------------------------------------------------------------
// Resolution
// ---------------------------------------------------------------------------

const DAY: i64 = 86_400;

#[test]
fn discovered_models_go_stale_after_a_day() {
    let mut registry = ProviderRegistry::new();
    registry.upsert_provider(openai());
    let validated = Timestamp::new(1_700_000_000, 0).unwrap();
    registry.apply_validation_result_at("openai-main", &result_with_models(&["gpt-4.1"]), &validated);
    let asked = Some("openai-main:gpt-4.1");
    let day_later = Timestamp::new(1_700_000_000 + DAY, 0).unwrap();
    assert_eq!(registry.resolve_agent_provider_at(asked, &day_later).unwrap().model, "gpt-4.1");
    let later = Timestamp::new(1_700_000_000 + DAY, 1).unwrap();
    assert_eq!(
        registry.resolve_agent_provider_at(asked, &later),
        Err(ProviderResolutionError::StaleModel {
            provider_id: "openai-main".to_string(),
            model_id: "gpt-4.1".to_string(),
        })
    );
    // A cache from the future is stale too.
    let earlier = Timestamp::new(1_600_000_000, 0).unwrap();
    assert!(registry.resolve_agent_provider_at(asked, &earlier).is_err());
    let mut profile = registry.providers.get("openai-main").unwrap().clone();
    profile.policy.allow_manual_model_ids = true;
    registry.upsert_provider(profile);
    assert!(registry.resolve_agent_provider_at(asked, &later).is_ok());
}

#[test]
fn a_fresh_validation_resolves_now() {
    let mut registry = ProviderRegistry::new();
    registry.upsert_provider(openai());
    registry.apply_validation_result("openai-main", &result_with_models(&["gpt-4.1"]));
    assert!(!registry.providers.get("openai-main").unwrap().is_stale());
    assert_eq!(registry.resolve_agent_provider(Some("openai-main:gpt-4.1")).unwrap().kind, ProviderKind::OpenAI);
    let mut old = registry.providers.get("openai-main").unwrap().clone();
    let mut cache = old.validation_cache.unwrap();
    cache.last_validated = Timestamp::new(0, 0).unwrap();
    old.validation_cache = Some(cache);
    assert!(old.is_stale());
    registry.upsert_provider(old);
    assert!(registry.resolve_agent_provider(Some("openai-main:gpt-4.1")).is_err());
}

#[test]
fn unknown_providers_are_not_replaced() {
    let registry = ProviderRegistry::new();
    let error = registry.resolve_agent_provider(Some("gone:gpt-4.1")).unwrap_err();
    assert_eq!(error, ProviderResolutionError::UnknownProvider { provider_id: "gone".to_string() });
    assert_eq!(error.to_string(), "Unknown provider 'gone'");
}

#[test]
fn defaults_that_are_not_set_mean_warp_hosted() {
    let mut registry = ProviderRegistry::new();
    registry.defaults = ProviderRegistryDefaults::default();
    let resolved = registry.resolve_agent_provider(None).unwrap();
    assert_eq!((resolved.profile_id.as_str(), resolved.model.as_str()), ("warp-hosted", "auto"));
    assert_eq!(registry.select(None), ProviderQualifiedModelId::new("warp-hosted", "auto"));
}

#[test]
fn resolution_errors_tell_what_is_wrong() {
    let id = || "p".to_string();
    let m = || "m".to_string();
    assert_eq!(
        ProviderResolutionError::DisabledProvider { provider_id: id() }.to_string(),
        "Provider 'p' is disabled"
    );
    assert_eq!(
        ProviderResolutionError::UnknownModel { provider_id: id(), model_id: m() }.to_string(),
        "Provider 'p' does not know model 'm'"
    );
    assert_eq!(
        ProviderResolutionError::TeamPolicyBlocked { provider_id: id(), reason: "no".to_string() }.to_string(),
        "Provider 'p' is blocked by team policy: no"
    );
    assert_eq!(
        ProviderResolutionError::StaleModel { provider_id: id(), model_id: m() }.to_string(),
        "Provider 'p' model 'm' has stale discovery data"
    );
}

#[test]
fn team_policy_gives_the_first_objection() {
    let mut registry = ProviderRegistry::new();
    registry.upsert_provider(ProviderProfile::direct(
        "local",
        ProviderKind::OpenAICompatible,
        "Local",
        Some("http://localhost/v1".to_string()),
        AuthConfig::NoAuth,
    ));
    let resolved = registry.resolve_agent_provider(Some("local:any")).unwrap();
    let reason = |direct, compatible, origin, managed| match resolved
        .validate_team_policy(direct, compatible, origin, managed)
    {
        Err(ProviderResolutionError::TeamPolicyBlocked { provider_id, reason }) => {
            assert_eq!(provider_id, "local");
            reason
        }
        other => panic!("{other:?}"),
    };
    assert_eq!(reason(false, false, false, true), "Direct providers are disabled by team policy");
    assert_eq!(reason(true, false, false, true), "Custom compatible endpoints are disabled by team policy");
    assert_eq!(reason(true, true, false, true), "Provider endpoint origin is not allowed by team policy");
    assert_eq!(reason(true, true, true, true), "This provider is not allowed in managed teams");
    assert!(resolved.validate_team_policy(true, true, true, false).is_ok());
    let hosted = registry.resolve_agent_provider(Some("auto")).unwrap();
    assert!(hosted.validate_team_policy(false, false, false, true).is_ok());
}

#[test]
fn single_precision_numbers_are_equal_by_value() {
    let single = |value: f32| Single { bits: value.to_bits() };
    let values = [0.0, -0.0, 1.0, -1.0, f32::MIN_POSITIVE, f32::INFINITY, f32::NEG_INFINITY, f32::NAN, -f32::NAN];
    for a in values {
        for b in values {
            assert_eq!(single(a) == single(b), a == b, "{a} {b}");
        }
    }
}

#[test]
fn choices_are_ordered_and_leave_with_their_provider() {
    let mut registry = ProviderRegistry::new();
    registry.upsert_provider(openai());
    registry.apply_validation_result("openai-main", &result_with_models(&["b", "a", "c", "a"]));
    let ids = |registry: &ProviderRegistry| -> Vec<String> {
        registry.enabled_model_choices().iter().map(|choice| choice.qualified_id.to_string()).collect()
    };
    let all = ids(&registry);
    let mut listed = all.clone();
    listed.sort();
    listed.dedup();
    assert_eq!(all, listed);
    assert!(all.len() > 3 && all.contains(&"warp-hosted:auto".to_string()));
    let mut disabled = registry.providers.get("openai-main").unwrap().clone();
    disabled.enabled = false;
    registry.upsert_provider(disabled);
    assert_eq!(ids(&registry), vec!["warp-hosted:auto"]);
    assert_eq!(registry.providers.get("openai-main").unwrap().discovered_models.len(), 4);
}
