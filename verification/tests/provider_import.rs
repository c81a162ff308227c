use ai_providers::provider_import::{
    import_provider, required_env_var, ExportedAuthConfig, ExportedProviderProfile, ImportError,
    ProviderExportTemplate,
};
use ai_providers::provider_registry::{
    AuthConfig, AuthSource, DiscoveredModel, DiscoveredModelSource, ProviderDiscovery, ProviderKind, ProviderPolicy,
    ProviderProfile, ProviderRegistry,
};

fn make_test_profile(id: &str, kind: ProviderKind, auth: AuthConfig) -> ProviderProfile {
    let mut profile = ProviderProfile::direct(
        id,
        kind,
        id,
        Some("http://localhost:11434/v1".to_string()),
        auth,
    );
    profile.discovery = ProviderDiscovery::manual_only(vec!["test-model".to_string()]);
    profile
}

#[test]
fn export_redacts_nothing_for_keychain_refs() {
    let profile = make_test_profile(
        "ollama",
        ProviderKind::OpenAICompatible,
        AuthConfig::keychain_api_key("keychain://warp/providers/ollama"),
    );
    let exported = ExportedProviderProfile::from(&profile);
    assert_eq!(exported.id, "ollama");
    assert!(matches!(
        exported.auth,
        ExportedAuthConfig::ApiKey {
            source: AuthSource::Keychain,
            ref secret_ref,
            ..
        } if secret_ref.as_ref().unwrap() == "keychain://warp/providers/ollama"
    ));
}

#[test]
fn export_preserves_env_var_names() {
    let profile = make_test_profile(
        "openai-env",
        ProviderKind::OpenAI,
        AuthConfig::env_api_key("MY_OPENAI_KEY"),
    );
    let exported = ExportedProviderProfile::from(&profile);
    assert!(matches!(
        exported.auth,
        ExportedAuthConfig::ApiKey {
            source: AuthSource::Env,
            ref env_var,
            ..
        } if env_var.as_ref().unwrap() == "MY_OPENAI_KEY"
    ));
}

#[test]
fn export_bearer_token_keeps_ref_only() {
    let auth = AuthConfig::BearerToken {
        source: AuthSource::Keychain,
        secret_ref: "keychain://warp/providers/bearer".to_string(),
    };
    let profile = make_test_profile("bearer", ProviderKind::Anthropic, auth);
    let exported = ExportedProviderProfile::from(&profile);
    assert!(matches!(
        exported.auth,
        ExportedAuthConfig::BearerToken {
            source: AuthSource::Keychain,
            ref secret_ref,
        } if secret_ref.as_ref().unwrap() == "keychain://warp/providers/bearer"
    ));
}

#[test]
fn export_no_auth() {
    let profile = make_test_profile("no-auth", ProviderKind::OpenAICompatible, AuthConfig::NoAuth);
    let exported = ExportedProviderProfile::from(&profile);
    assert!(matches!(exported.auth, ExportedAuthConfig::NoAuth));
}

#[test]
fn import_succeeds_with_no_collision() {
    let registry = ProviderRegistry::new();
    let exported = ExportedProviderProfile {
        id: "imported-provider".to_string(),
        kind: ProviderKind::OpenAICompatible,
        display_name: "Imported".to_string(),
        base_url: "http://localhost:11434/v1".to_string(),
        auth: ExportedAuthConfig::NoAuth,
        headers: Default::default(),
        defaults: Default::default(),
        capabilities: Default::default(),
        policy: ProviderPolicy::for_kind(&ProviderKind::OpenAICompatible),
        discovery: ProviderDiscovery::manual_only(vec!["llama3".to_string()]),
        discovered_models: vec![],
    };
    let result = import_provider(&exported, &registry, false).unwrap();
    assert!(!result.needs_secret);
    assert!(result.secret_hint.is_none());
    assert_eq!(result.profile.id, "imported-provider");
    assert_eq!(result.profile.kind, ProviderKind::OpenAICompatible);
}

#[test]
fn import_detects_keychain_secret_needed() {
    let registry = ProviderRegistry::new();
    let exported = ExportedProviderProfile {
        id: "keychain-provider".to_string(),
        kind: ProviderKind::OpenAI,
        display_name: "Keychain".to_string(),
        base_url: "https://api.openai.com/v1".to_string(),
        auth: ExportedAuthConfig::ApiKey {
            source: AuthSource::Keychain,
            secret_ref: Some("keychain://warp/providers/keychain".to_string()),
            env_var: None,
        },
        headers: Default::default(),
        defaults: Default::default(),
        capabilities: Default::default(),
        policy: ProviderPolicy::for_kind(&ProviderKind::OpenAI),
        discovery: ProviderDiscovery::models_endpoint(),
        discovered_models: vec![],
    };
    let result = import_provider(&exported, &registry, false).unwrap();
    assert!(result.needs_secret);
    assert!(result.secret_hint.is_some());
}

#[test]
fn import_detects_bearer_token_secret_needed() {
    let registry = ProviderRegistry::new();
    let exported = ExportedProviderProfile {
        id: "bearer-provider".to_string(),
        kind: ProviderKind::Anthropic,
        display_name: "Bearer".to_string(),
        base_url: "https://api.anthropic.com/v1".to_string(),
        auth: ExportedAuthConfig::BearerToken {
            source: AuthSource::Keychain,
            secret_ref: Some("keychain://warp/providers/bearer".to_string()),
        },
        headers: Default::default(),
        defaults: Default::default(),
        capabilities: Default::default(),
        policy: ProviderPolicy::for_kind(&ProviderKind::Anthropic),
        discovery: ProviderDiscovery::models_endpoint(),
        discovered_models: vec![],
    };
    let result = import_provider(&exported, &registry, false).unwrap();
    assert!(result.needs_secret);
    assert!(result.secret_hint.is_some());
}

#[test]
fn import_rejects_id_collision() {
    let mut registry = ProviderRegistry::new();
    let profile = make_test_profile(
        "colliding-id",
        ProviderKind::OpenAICompatible,
        AuthConfig::NoAuth,
    );
    registry.upsert_provider(profile);

    let exported = ExportedProviderProfile {
        id: "colliding-id".to_string(),
        kind: ProviderKind::OpenAICompatible,
        display_name: "Collision".to_string(),
        base_url: "http://localhost:11434/v1".to_string(),
        auth: ExportedAuthConfig::NoAuth,
        headers: Default::default(),
        defaults: Default::default(),
        capabilities: Default::default(),
        policy: ProviderPolicy::for_kind(&ProviderKind::OpenAICompatible),
        discovery: ProviderDiscovery::manual_only(vec![]),
        discovered_models: vec![],
    };
    let result = import_provider(&exported, &registry, false);
    assert!(matches!(result, Err(ImportError::IdCollision(_))));
}

#[test]
fn import_env_var_already_set() {
    let registry = ProviderRegistry::new();
    let exported = ExportedProviderProfile {
        id: "env-set-provider".to_string(),
        kind: ProviderKind::OpenAI,
        display_name: "Env Set".to_string(),
        base_url: "https://api.openai.com/v1".to_string(),
        auth: ExportedAuthConfig::ApiKey {
            source: AuthSource::Env,
            secret_ref: None,
            env_var: Some("WARP_TEST_IMPORT_KEY".to_string()),
        },
        headers: Default::default(),
        defaults: Default::default(),
        capabilities: Default::default(),
        policy: ProviderPolicy::for_kind(&ProviderKind::OpenAI),
        discovery: ProviderDiscovery::models_endpoint(),
        discovered_models: vec![],
    };
    assert_eq!(required_env_var(&exported).as_deref(), Some("WARP_TEST_IMPORT_KEY"));
    let result = import_provider(&exported, &registry, true).unwrap();
    assert!(!result.needs_secret);
}

#[test]
fn export_filters_warp_hosted_models() {
    let mut profile = ProviderProfile::warp_hosted();
    profile.discovered_models.push(DiscoveredModel {
        id: "gpt-4".to_string(),
        display_name: Some("GPT-4".to_string()),
        source: DiscoveredModelSource::WarpHosted,
        capabilities: Default::default(),
    });
    let exported = ExportedProviderProfile::from(&profile);
    // Warp hosted provider itself is filtered at the call site, but
    // the From impl also filters out WarpHosted-sourced models.
    assert!(exported.discovered_models.is_empty());
}

fn model(id: &str, source: DiscoveredModelSource) -> DiscoveredModel {
    DiscoveredModel { id: id.to_string(), display_name: None, source, capabilities: Default::default() }
}

#[test]
fn a_profile_survives_export_and_import() {
    let mut profile = make_test_profile(
        "round",
        ProviderKind::AnthropicCompatible,
        AuthConfig::BearerToken { source: AuthSource::Env, secret_ref: "ref".to_string() },
    );
    profile.headers.insert("x-team".to_string(), "blue".to_string());
    profile.defaults.max_output_tokens = Some(7);
    profile.policy.allow_in_managed_teams = Some(true);
    profile.enabled = false;
    profile.discovered_models = vec![
        model("w", DiscoveredModelSource::WarpHosted),
        model("d", DiscoveredModelSource::Discovered),
        model("l", DiscoveredModelSource::Legacy),
    ];
    let exported = ExportedProviderProfile::from(&profile);
    let imported = import_provider(&exported, &ProviderRegistry::new(), false).unwrap().profile;
    let mut expected = profile.clone();
    expected.enabled = true;
    expected.discovered_models.remove(0);
    assert_eq!(imported, expected);
    assert_eq!(ExportedProviderProfile::from(&imported), exported);
}

#[test]
fn a_missing_environment_variable_is_hinted_at() {
    let mut exported = ExportedProviderProfile::from(&make_test_profile(
        "env",
        ProviderKind::OpenAI,
        AuthConfig::env_api_key("MY_KEY"),
    ));
    let result = import_provider(&exported, &ProviderRegistry::new(), false).unwrap();
    assert!(result.needs_secret);
    assert_eq!(result.secret_hint.as_deref(), Some("Set the `MY_KEY` environment variable"));
    exported.auth = ExportedAuthConfig::ApiKey { source: AuthSource::Env, secret_ref: None, env_var: None };
    assert_eq!(required_env_var(&exported).as_deref(), Some(""));
    let result = import_provider(&exported, &ProviderRegistry::new(), false).unwrap();
    assert_eq!(result.secret_hint.as_deref(), Some("Set the `` environment variable"));
}

#[test]
fn keychain_secrets_are_hinted_at() {
    let registry = ProviderRegistry::new();
    let key = ExportedProviderProfile::from(&make_test_profile(
        "key",
        ProviderKind::OpenAI,
        AuthConfig::keychain_api_key("ref"),
    ));
    assert_eq!(required_env_var(&key), None);
    assert_eq!(
        import_provider(&key, &registry, true).unwrap().secret_hint.as_deref(),
        Some("Enter the API key to store in your keychain")
    );
    let mut token = key.clone();
    token.auth = ExportedAuthConfig::BearerToken { source: AuthSource::Keychain, secret_ref: None };
    let result = import_provider(&token, &registry, true).unwrap();
    assert_eq!(result.secret_hint.as_deref(), Some("Enter the bearer token to store in your keychain"));
    assert_eq!(
        result.profile.auth,
        AuthConfig::BearerToken { source: AuthSource::Keychain, secret_ref: String::new() }
    );
}

#[test]
fn a_collision_names_the_id() {
    let exported = ExportedProviderProfile::from(&ProviderProfile::warp_hosted());
    let error = import_provider(&exported, &ProviderRegistry::new(), false).unwrap_err();
    assert_eq!(error, ImportError::IdCollision("warp-hosted".to_string()));
    assert_eq!(error.to_string(), "Provider ID 'warp-hosted' already exists in the registry");
}

#[test]
fn templates_have_a_version() {
    let template = ProviderExportTemplate::new(vec![ExportedProviderProfile::from(&ProviderProfile::warp_hosted())]);
    assert_eq!(template.version, 1);
    assert_eq!(template.clone(), template);
    assert_eq!(template.providers[0].id, "warp-hosted");
}
