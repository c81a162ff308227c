//! Provider profiles: what a user has configured for one provider.
use std::time::Duration;

use vstd::prelude::*;
use vstd::std_specs::cmp::PartialEqSpecImpl;

use crate::clock::{Timestamp, TimestampView};
use crate::endpoint;
use crate::endpoint::infer_local_only;
use crate::provider_validator::{ValidationCacheEntry, ValidationCacheEntryView};
use crate::string_map::StringMap;
use crate::text;

verus! {

/// The id of the provider that Warp hosts.
pub const WARP_HOSTED_PROVIDER_ID: &'static str = "warp-hosted";

/// The id of the profile made for an OpenAI key that was stored before.
pub const LEGACY_OPENAI_PROVIDER_ID: &'static str = "openai-main";

/// The id of the profile made for an Anthropic key that was stored before.
pub const LEGACY_ANTHROPIC_PROVIDER_ID: &'static str = "anthropic-main";

/// The place of an OpenAI key that was stored before.
pub const LEGACY_OPENAI_SECRET_REF: &'static str = "legacy://AiApiKeys/openai";

/// The place of an Anthropic key that was stored before.
pub const LEGACY_ANTHROPIC_SECRET_REF: &'static str = "legacy://AiApiKeys/anthropic";

/// The seconds after which a validation is stale.
pub const VALIDATION_MAX_AGE_SECS: u64 = 86_400;

/// The kind of a provider.
#[derive(Clone, Copy, Debug, PartialEq, Eq, PartialOrd, Ord, Structural)]
pub enum ProviderKind {
    WarpHosted,
    OpenAI,
    Anthropic,
    OpenAICompatible,
    AnthropicCompatible,
}

impl ProviderKind {
    /// Does the client talk to the provider itself?
    pub open spec fn spec_is_direct(self) -> bool {
        self != ProviderKind::WarpHosted
    }

    /// Is the provider a custom endpoint with the API of another?
    pub open spec fn spec_is_compatible(self) -> bool {
        self == ProviderKind::OpenAICompatible || self == ProviderKind::AnthropicCompatible
    }

    /// The endpoint of a provider for which none is given.
    pub open spec fn spec_default_base_url(self) -> Seq<char> {
        match self {
            ProviderKind::OpenAI => "https://api.openai.com/v1"@,
            ProviderKind::Anthropic => "https://api.anthropic.com/v1"@,
            _ => Seq::empty(),
        }
    }

    /// The name of the variant.
    pub open spec fn spec_name(self) -> Seq<char> {
        match self {
            ProviderKind::WarpHosted => "WarpHosted"@,
            ProviderKind::OpenAI => "OpenAI"@,
            ProviderKind::Anthropic => "Anthropic"@,
            ProviderKind::OpenAICompatible => "OpenAICompatible"@,
            ProviderKind::AnthropicCompatible => "AnthropicCompatible"@,
        }
    }

    /// Does the client talk to the provider itself?
    pub fn is_direct(&self) -> (r: bool)
        ensures
            r == self.spec_is_direct(),
    {
        match self {
            ProviderKind::WarpHosted => false,
            _ => true,
        }
    }

    /// Is the provider a custom endpoint with the API of another?
    pub fn is_compatible(&self) -> (r: bool)
        ensures
            r == self.spec_is_compatible(),
    {
        match self {
            ProviderKind::OpenAICompatible => true,
            ProviderKind::AnthropicCompatible => true,
            _ => false,
        }
    }

    /// The endpoint of a provider for which none is given.
    pub fn default_base_url(&self) -> (r: String)
        ensures
            r@ == self.spec_default_base_url(),
    {
        match self {
            ProviderKind::OpenAI => "https://api.openai.com/v1".to_string(),
            ProviderKind::Anthropic => "https://api.anthropic.com/v1".to_string(),
            _ => String::new(),
        }
    }

    /// The name of the variant.
    pub fn name(&self) -> (r: String)
        ensures
            r@ == self.spec_name(),
    {
        match self {
            ProviderKind::WarpHosted => "WarpHosted".to_string(),
            ProviderKind::OpenAI => "OpenAI".to_string(),
            ProviderKind::Anthropic => "Anthropic".to_string(),
            ProviderKind::OpenAICompatible => "OpenAICompatible".to_string(),
            ProviderKind::AnthropicCompatible => "AnthropicCompatible".to_string(),
        }
    }
}

/// Where a secret is kept.
#[derive(Clone, Copy, Debug, PartialEq, Eq, Structural)]
pub enum AuthSource {
    Keychain,
    Env,
}

/// How a provider is told who asks. Secrets are named, never held.
#[derive(Debug, PartialEq, Eq)]
#[allow(inconsistent_fields)]
pub enum AuthConfig {
    NoAuth,
    ApiKey { source: AuthSource, secret_ref: Option<String>, env_var: Option<String> },
    BearerToken { source: AuthSource, secret_ref: String },
}

/// What an [`AuthConfig`] is.
#[allow(inconsistent_fields)]
pub enum AuthConfigView {
    NoAuth,
    ApiKey { source: AuthSource, secret_ref: Option<Seq<char>>, env_var: Option<Seq<char>> },
    BearerToken { source: AuthSource, secret_ref: Seq<char> },
}

impl View for AuthConfig {
    type V = AuthConfigView;

    open spec fn view(&self) -> AuthConfigView {
        match self {
            AuthConfig::NoAuth => AuthConfigView::NoAuth,
            AuthConfig::ApiKey { source, secret_ref, env_var } => AuthConfigView::ApiKey {
                source: *source,
                secret_ref: secret_ref.deep_view(),
                env_var: env_var.deep_view(),
            },
            AuthConfig::BearerToken { source, secret_ref } => AuthConfigView::BearerToken {
                source: *source,
                secret_ref: secret_ref@,
            },
        }
    }
}

impl Clone for AuthConfig {
    fn clone(&self) -> (r: Self)
        ensures
            r@ == self@,
    {
        match self {
            AuthConfig::NoAuth => AuthConfig::NoAuth,
            AuthConfig::ApiKey { source, secret_ref, env_var } => AuthConfig::ApiKey {
                source: *source,
                secret_ref: secret_ref.clone(),
                env_var: env_var.clone(),
            },
            AuthConfig::BearerToken { source, secret_ref } => AuthConfig::BearerToken {
                source: *source,
                secret_ref: secret_ref.clone(),
            },
        }
    }
}

impl AuthConfigView {
    /// An API key in the keychain.
    pub open spec fn keychain_api_key(secret_ref: Seq<char>) -> Self {
        AuthConfigView::ApiKey { source: AuthSource::Keychain, secret_ref: Some(secret_ref), env_var: None }
    }

    /// An API key in an environment variable.
    pub open spec fn env_api_key(env_var: Seq<char>) -> Self {
        AuthConfigView::ApiKey { source: AuthSource::Env, secret_ref: None, env_var: Some(env_var) }
    }
}

impl AuthConfig {
    /// An API key in the keychain.
    pub fn keychain_api_key(secret_ref: &str) -> (r: Self)
        ensures
            r@ == AuthConfigView::keychain_api_key(secret_ref@),
    {
        AuthConfig::ApiKey { source: AuthSource::Keychain, secret_ref: Some(secret_ref.to_string()), env_var: None }
    }

    /// An API key in an environment variable.
    pub fn env_api_key(env_var: &str) -> (r: Self)
        ensures
            r@ == AuthConfigView::env_api_key(env_var@),
    {
        AuthConfig::ApiKey { source: AuthSource::Env, secret_ref: None, env_var: Some(env_var.to_string()) }
    }
}

/// Whether a provider has a capability.
#[derive(Debug, PartialEq, Eq)]
pub enum CapabilitySetting {
    Automatic(String),
    Explicit(bool),
}

/// What a [`CapabilitySetting`] is.
pub enum CapabilitySettingView {
    Automatic(Seq<char>),
    Explicit(bool),
}

impl View for CapabilitySetting {
    type V = CapabilitySettingView;

    open spec fn view(&self) -> CapabilitySettingView {
        match self {
            CapabilitySetting::Automatic(how) => CapabilitySettingView::Automatic(how@),
            CapabilitySetting::Explicit(on) => CapabilitySettingView::Explicit(*on),
        }
    }
}

impl Clone for CapabilitySetting {
    fn clone(&self) -> (r: Self)
        ensures
            r@ == self@,
    {
        match self {
            CapabilitySetting::Automatic(how) => CapabilitySetting::Automatic(how.clone()),
            CapabilitySetting::Explicit(on) => CapabilitySetting::Explicit(*on),
        }
    }
}

impl CapabilitySettingView {
    /// The setting that leaves it to the client.
    pub open spec fn automatic() -> Self {
        CapabilitySettingView::Automatic("auto"@)
    }

    /// What the user has set, if anything.
    pub open spec fn is_enabled(self) -> Option<bool> {
        match self {
            CapabilitySettingView::Automatic(_) => None,
            CapabilitySettingView::Explicit(on) => Some(on),
        }
    }
}

impl CapabilitySetting {
    /// The setting that leaves it to the client.
    pub fn automatic() -> (r: Self)
        ensures
            r@ == CapabilitySettingView::automatic(),
    {
        CapabilitySetting::Automatic("auto".to_string())
    }

    /// The provider has the capability.
    pub fn enabled() -> (r: Self)
        ensures
            r@ == CapabilitySettingView::Explicit(true),
    {
        CapabilitySetting::Explicit(true)
    }

    /// The provider does not have the capability.
    pub fn disabled() -> (r: Self)
        ensures
            r@ == CapabilitySettingView::Explicit(false),
    {
        CapabilitySetting::Explicit(false)
    }

    /// What the user has set, if anything.
    pub fn is_enabled(&self) -> (r: Option<bool>)
        ensures
            r == self@.is_enabled(),
    {
        match self {
            CapabilitySetting::Automatic(_) => None,
            CapabilitySetting::Explicit(on) => Some(*on),
        }
    }
}

impl Default for CapabilitySetting {
    fn default() -> (r: Self)
        ensures
            r@ == CapabilitySettingView::automatic(),
    {
        CapabilitySetting::automatic()
    }
}

/// The capabilities of a provider or a model.
#[derive(Debug, PartialEq, Eq)]
pub struct ProviderCapabilities {
    pub tools: CapabilitySetting,
    pub vision: CapabilitySetting,
    pub structured_outputs: CapabilitySetting,
    pub prompt_caching: CapabilitySetting,
    pub reasoning_controls: CapabilitySetting,
    pub model_discovery: CapabilitySetting,
}

/// What a [`ProviderCapabilities`] is.
pub struct ProviderCapabilitiesView {
    pub tools: CapabilitySettingView,
    pub vision: CapabilitySettingView,
    pub structured_outputs: CapabilitySettingView,
    pub prompt_caching: CapabilitySettingView,
    pub reasoning_controls: CapabilitySettingView,
    pub model_discovery: CapabilitySettingView,
}

impl View for ProviderCapabilities {
    type V = ProviderCapabilitiesView;

    open spec fn view(&self) -> ProviderCapabilitiesView {
        ProviderCapabilitiesView {
            tools: self.tools@,
            vision: self.vision@,
            structured_outputs: self.structured_outputs@,
            prompt_caching: self.prompt_caching@,
            reasoning_controls: self.reasoning_controls@,
            model_discovery: self.model_discovery@,
        }
    }
}

impl Clone for ProviderCapabilities {
    fn clone(&self) -> (r: Self)
        ensures
            r@ == self@,
    {
        ProviderCapabilities {
            tools: self.tools.clone(),
            vision: self.vision.clone(),
            structured_outputs: self.structured_outputs.clone(),
            prompt_caching: self.prompt_caching.clone(),
            reasoning_controls: self.reasoning_controls.clone(),
            model_discovery: self.model_discovery.clone(),
        }
    }
}

impl ProviderCapabilitiesView {
    /// Everything is left to the client.
    pub open spec fn automatic() -> Self {
        ProviderCapabilitiesView {
            tools: CapabilitySettingView::automatic(),
            vision: CapabilitySettingView::automatic(),
            structured_outputs: CapabilitySettingView::automatic(),
            prompt_caching: CapabilitySettingView::automatic(),
            reasoning_controls: CapabilitySettingView::automatic(),
            model_discovery: CapabilitySettingView::automatic(),
        }
    }
}

impl Default for ProviderCapabilities {
    fn default() -> (r: Self)
        ensures
            r@ == ProviderCapabilitiesView::automatic(),
    {
        ProviderCapabilities {
            tools: CapabilitySetting::automatic(),
            vision: CapabilitySetting::automatic(),
            structured_outputs: CapabilitySetting::automatic(),
            prompt_caching: CapabilitySetting::automatic(),
            reasoning_controls: CapabilitySetting::automatic(),
            model_discovery: CapabilitySetting::automatic(),
        }
    }
}

/// What a user allows a provider to do.
#[derive(Clone, Copy, Debug, PartialEq, Eq)]
pub struct ProviderPolicy {
    pub allow_fallback_to_warp_hosted: bool,
    pub allow_manual_model_ids: bool,
    pub redact_telemetry: bool,
    pub local_only: Option<bool>,
    pub allow_in_managed_teams: Option<bool>,
}

impl ProviderPolicy {
    /// The policy of a new provider of this kind.
    pub open spec fn spec_for_kind(kind: ProviderKind) -> Self {
        ProviderPolicy {
            allow_fallback_to_warp_hosted: false,
            allow_manual_model_ids: kind.spec_is_compatible(),
            redact_telemetry: true,
            local_only: None,
            allow_in_managed_teams: None,
        }
    }

    /// The policy of the provider that Warp hosts.
    pub open spec fn spec_warp_hosted() -> Self {
        ProviderPolicy {
            allow_fallback_to_warp_hosted: false,
            allow_manual_model_ids: false,
            redact_telemetry: true,
            local_only: Some(false),
            allow_in_managed_teams: Some(true),
        }
    }

    /// The policy of a new provider of this kind.
    pub fn for_kind(kind: &ProviderKind) -> (r: Self)
        ensures
            r == ProviderPolicy::spec_for_kind(*kind),
    {
        ProviderPolicy {
            allow_fallback_to_warp_hosted: false,
            allow_manual_model_ids: kind.is_compatible(),
            redact_telemetry: true,
            local_only: None,
            allow_in_managed_teams: None,
        }
    }

    /// The policy of the provider that Warp hosts.
    pub fn warp_hosted() -> (r: Self)
        ensures
            r == ProviderPolicy::spec_warp_hosted(),
    {
        ProviderPolicy {
            allow_fallback_to_warp_hosted: false,
            allow_manual_model_ids: false,
            redact_telemetry: true,
            local_only: Some(false),
            allow_in_managed_teams: Some(true),
        }
    }

    /// May a failed request go to the provider that Warp hosts? Only where the
    /// user has allowed it, and never for a local provider.
    pub fn allows_warp_hosted_fallback(&self) -> (r: bool)
        ensures
            r == (self.allow_fallback_to_warp_hosted && self.local_only != Some(true)),
    {
        let is_local = match self.local_only {
            Some(local) => local,
            None => false,
        };
        self.allow_fallback_to_warp_hosted && !is_local
    }
}

/// A single precision number, by its IEEE 754 bits.
#[derive(Clone, Copy, Debug)]
pub struct Single {
    pub bits: u32,
}

impl Single {
    /// Is this no number?
    pub open spec fn is_nan(self) -> bool {
        self.bits % 0x8000_0000 > 0x7f80_0000
    }

    /// Is this zero, of either sign?
    pub open spec fn is_zero(self) -> bool {
        self.bits % 0x8000_0000 == 0
    }
}

/// Numbers are equal by their value: both zeros are, and what is no number equals
/// nothing.
impl PartialEq for Single {
    fn eq(&self, other: &Self) -> (r: bool) {
        let is_nan = self.bits % 0x8000_0000 > 0x7f80_0000 || other.bits % 0x8000_0000 > 0x7f80_0000;
        let both_zero = self.bits % 0x8000_0000 == 0 && other.bits % 0x8000_0000 == 0;
        !is_nan && (self.bits == other.bits || both_zero)
    }
}

impl PartialEqSpecImpl for Single {
    open spec fn obeys_eq_spec() -> bool {
        true
    }

    open spec fn eq_spec(&self, other: &Self) -> bool {
        !self.is_nan() && !other.is_nan() && (self.bits == other.bits || self.is_zero() && other.is_zero())
    }
}

/// What a request holds where nothing else is asked for.
#[derive(Debug, PartialEq)]
pub struct ProviderDefaults {
    pub model: Option<String>,
    pub stream: Option<bool>,
    pub temperature: Option<Single>,
    pub top_p: Option<Single>,
    pub max_output_tokens: Option<u32>,
    pub timeout_ms: Option<u64>,
}

/// What a [`ProviderDefaults`] is.
pub struct ProviderDefaultsView {
    pub model: Option<Seq<char>>,
    pub stream: Option<bool>,
    pub temperature: Option<Single>,
    pub top_p: Option<Single>,
    pub max_output_tokens: Option<u32>,
    pub timeout_ms: Option<u64>,
}

impl View for ProviderDefaults {
    type V = ProviderDefaultsView;

    open spec fn view(&self) -> ProviderDefaultsView {
        ProviderDefaultsView {
            model: self.model.deep_view(),
            stream: self.stream,
            temperature: self.temperature,
            top_p: self.top_p,
            max_output_tokens: self.max_output_tokens,
            timeout_ms: self.timeout_ms,
        }
    }
}

impl Clone for ProviderDefaults {
    fn clone(&self) -> (r: Self)
        ensures
            r@ == self@,
    {
        ProviderDefaults {
            model: self.model.clone(),
            stream: self.stream,
            temperature: self.temperature,
            top_p: self.top_p,
            max_output_tokens: self.max_output_tokens,
            timeout_ms: self.timeout_ms,
        }
    }
}

impl ProviderDefaultsView {
    /// Nothing is set.
    pub open spec fn unset() -> Self {
        ProviderDefaultsView {
            model: None,
            stream: None,
            temperature: None,
            top_p: None,
            max_output_tokens: None,
            timeout_ms: None,
        }
    }
}

impl Default for ProviderDefaults {
    fn default() -> (r: Self)
        ensures
            r@ == ProviderDefaultsView::unset(),
    {
        ProviderDefaults {
            model: None,
            stream: None,
            temperature: None,
            top_p: None,
            max_output_tokens: None,
            timeout_ms: None,
        }
    }
}

/// How the models of a provider become known.
#[derive(Clone, Copy, Debug, PartialEq, Eq, Structural)]
pub enum DiscoveryStrategy {
    ModelsEndpoint,
    ManualOnly,
}

/// How the models of a provider become known, and those named by hand.
#[derive(Debug, PartialEq, Eq)]
pub struct ProviderDiscovery {
    pub strategy: DiscoveryStrategy,
    pub fallback_models: Vec<String>,
}

/// What a [`ProviderDiscovery`] is.
pub struct ProviderDiscoveryView {
    pub strategy: DiscoveryStrategy,
    pub fallback_models: Seq<Seq<char>>,
}

impl View for ProviderDiscovery {
    type V = ProviderDiscoveryView;

    open spec fn view(&self) -> ProviderDiscoveryView {
        ProviderDiscoveryView { strategy: self.strategy, fallback_models: self.fallback_models.deep_view() }
    }
}

impl Clone for ProviderDiscovery {
    fn clone(&self) -> (r: Self)
        ensures
            r@ == self@,
    {
        let fallback_models = self.fallback_models.clone();
        proof {
            assert(fallback_models.deep_view() =~= self.fallback_models.deep_view());
        }
        ProviderDiscovery { strategy: self.strategy, fallback_models }
    }
}

impl ProviderDiscovery {
    /// The provider lists its models.
    pub fn models_endpoint() -> (r: Self)
        ensures
            r@ == (ProviderDiscoveryView { strategy: DiscoveryStrategy::ModelsEndpoint, fallback_models: Seq::empty() }),
    {
        let r = ProviderDiscovery { strategy: DiscoveryStrategy::ModelsEndpoint, fallback_models: Vec::new() };
        proof {
            assert(r.fallback_models.deep_view() =~= Seq::<Seq<char>>::empty());
        }
        r
    }

    /// The user names the models.
    pub fn manual_only(models: Vec<String>) -> (r: Self)
        ensures
            r@ == (ProviderDiscoveryView {
                strategy: DiscoveryStrategy::ManualOnly,
                fallback_models: models.deep_view(),
            }),
    {
        ProviderDiscovery { strategy: DiscoveryStrategy::ManualOnly, fallback_models: models }
    }
}

/// How a model became known.
#[derive(Clone, Copy, Debug, PartialEq, Eq, Structural)]
pub enum DiscoveredModelSource {
    WarpHosted,
    Discovered,
    Manual,
    Legacy,
}

/// A model of a provider.
#[derive(Debug, PartialEq, Eq)]
pub struct DiscoveredModel {
    pub id: String,
    pub display_name: Option<String>,
    pub source: DiscoveredModelSource,
    pub capabilities: ProviderCapabilities,
}

/// What a [`DiscoveredModel`] is.
pub struct DiscoveredModelView {
    pub id: Seq<char>,
    pub display_name: Option<Seq<char>>,
    pub source: DiscoveredModelSource,
    pub capabilities: ProviderCapabilitiesView,
}

impl DeepView for DiscoveredModel {
    type V = DiscoveredModelView;

    open spec fn deep_view(&self) -> DiscoveredModelView {
        DiscoveredModelView {
            id: self.id@,
            display_name: self.display_name.deep_view(),
            source: self.source,
            capabilities: self.capabilities@,
        }
    }
}

impl View for DiscoveredModel {
    type V = DiscoveredModelView;

    open spec fn view(&self) -> DiscoveredModelView {
        self.deep_view()
    }
}

impl Clone for DiscoveredModel {
    fn clone(&self) -> (r: Self)
        ensures
            r@ == self@,
    {
        DiscoveredModel {
            id: self.id.clone(),
            display_name: self.display_name.clone(),
            source: self.source,
            capabilities: self.capabilities.clone(),
        }
    }
}

/// A provider as the user has configured it.
#[derive(Debug, PartialEq)]
pub struct ProviderProfile {
    pub id: String,
    pub kind: ProviderKind,
    pub enabled: bool,
    pub display_name: String,
    pub base_url: String,
    pub auth: AuthConfig,
    pub headers: StringMap<String>,
    pub defaults: ProviderDefaults,
    pub capabilities: ProviderCapabilities,
    pub policy: ProviderPolicy,
    pub discovery: ProviderDiscovery,
    pub discovered_models: Vec<DiscoveredModel>,
    pub validation_cache: Option<ValidationCacheEntry>,
}

/// What a [`ProviderProfile`] is.
pub struct ProviderProfileView {
    pub id: Seq<char>,
    pub kind: ProviderKind,
    pub enabled: bool,
    pub display_name: Seq<char>,
    pub base_url: Seq<char>,
    pub auth: AuthConfigView,
    pub headers: Map<Seq<char>, Seq<char>>,
    pub defaults: ProviderDefaultsView,
    pub capabilities: ProviderCapabilitiesView,
    pub policy: ProviderPolicy,
    pub discovery: ProviderDiscoveryView,
    pub discovered_models: Seq<DiscoveredModelView>,
    pub validation_cache: Option<ValidationCacheEntryView>,
}

/// The names and values of headers.
pub open spec fn header_views(headers: Map<Seq<char>, String>) -> Map<Seq<char>, Seq<char>> {
    headers.map_values(|value: String| value@)
}

impl View for ProviderProfile {
    type V = ProviderProfileView;

    open spec fn view(&self) -> ProviderProfileView {
        ProviderProfileView {
            id: self.id@,
            kind: self.kind,
            enabled: self.enabled,
            display_name: self.display_name@,
            base_url: self.base_url@,
            auth: self.auth@,
            headers: header_views(self.headers@),
            defaults: self.defaults@,
            capabilities: self.capabilities@,
            policy: self.policy,
            discovery: self.discovery@,
            discovered_models: self.discovered_models.deep_view(),
            validation_cache: self.validation_cache.deep_view(),
        }
    }
}

/// A copy of headers.
pub fn clone_headers(headers: &StringMap<String>) -> (r: StringMap<String>)
    ensures
        header_views(r@) == header_views(headers@),
{
    let r = headers.clone();
    proof {
        assert(r@ =~= headers@);
    }
    r
}

/// A copy of a list of models.
pub fn clone_models(models: &Vec<DiscoveredModel>) -> (r: Vec<DiscoveredModel>)
    ensures
        r.deep_view() == models.deep_view(),
{
    let r = models.clone();
    proof {
        assert(r.deep_view() =~= models.deep_view());
    }
    r
}

impl Clone for ProviderProfile {
    fn clone(&self) -> (r: Self)
        ensures
            r@ == self@,
    {
        ProviderProfile {
            id: self.id.clone(),
            kind: self.kind,
            enabled: self.enabled,
            display_name: self.display_name.clone(),
            base_url: self.base_url.clone(),
            auth: self.auth.clone(),
            headers: clone_headers(&self.headers),
            defaults: self.defaults.clone(),
            capabilities: self.capabilities.clone(),
            policy: self.policy,
            discovery: self.discovery.clone(),
            discovered_models: clone_models(&self.discovered_models),
            validation_cache: self.validation_cache.clone(),
        }
    }
}

impl ProviderProfileView {
    /// The provider that Warp hosts.
    pub open spec fn warp_hosted() -> Self {
        ProviderProfileView {
            id: WARP_HOSTED_PROVIDER_ID@,
            kind: ProviderKind::WarpHosted,
            enabled: true,
            display_name: "Warp-hosted"@,
            base_url: Seq::empty(),
            auth: AuthConfigView::NoAuth,
            headers: Map::empty(),
            defaults: ProviderDefaultsView {
                model: Some("auto"@),
                stream: Some(true),
                ..ProviderDefaultsView::unset()
            },
            capabilities: ProviderCapabilitiesView::automatic(),
            policy: ProviderPolicy::spec_warp_hosted(),
            discovery: ProviderDiscoveryView { strategy: DiscoveryStrategy::ModelsEndpoint, fallback_models: Seq::empty() },
            discovered_models: Seq::empty(),
            validation_cache: None,
        }
    }

    /// A new provider that the client talks to itself.
    pub open spec fn direct(
        id: Seq<char>,
        kind: ProviderKind,
        display_name: Seq<char>,
        base_url: Option<Seq<char>>,
        auth: AuthConfigView,
    ) -> Self {
        let endpoint = match base_url {
            Some(url) => url,
            None => kind.spec_default_base_url(),
        };
        ProviderProfileView {
            id,
            kind,
            enabled: true,
            display_name,
            base_url: endpoint,
            auth,
            headers: Map::empty(),
            defaults: ProviderDefaultsView { stream: Some(true), ..ProviderDefaultsView::unset() },
            capabilities: ProviderCapabilitiesView::automatic(),
            policy: ProviderPolicy {
                local_only: endpoint::local_only_of(endpoint),
                ..ProviderPolicy::spec_for_kind(kind)
            },
            discovery: ProviderDiscoveryView { strategy: DiscoveryStrategy::ModelsEndpoint, fallback_models: Seq::empty() },
            discovered_models: Seq::empty(),
            validation_cache: None,
        }
    }

    /// The same provider with these models named by hand.
    pub open spec fn with_fallback_models(self, models: Seq<Seq<char>>) -> Self {
        ProviderProfileView {
            discovery: ProviderDiscoveryView { fallback_models: models, ..self.discovery },
            ..self
        }
    }

    /// The profile for an OpenAI key that was stored before.
    pub open spec fn legacy_openai() -> Self {
        ProviderProfileView::direct(
            LEGACY_OPENAI_PROVIDER_ID@,
            ProviderKind::OpenAI,
            "OpenAI direct"@,
            None,
            AuthConfigView::keychain_api_key(LEGACY_OPENAI_SECRET_REF@),
        ).with_fallback_models(seq!["gpt-4.1"@])
    }

    /// The profile for an Anthropic key that was stored before, with this model.
    pub open spec fn legacy_anthropic(model: Seq<char>) -> Self {
        ProviderProfileView::direct(
            LEGACY_ANTHROPIC_PROVIDER_ID@,
            ProviderKind::Anthropic,
            "Anthropic direct"@,
            None,
            AuthConfigView::keychain_api_key(LEGACY_ANTHROPIC_SECRET_REF@),
        ).with_fallback_models(seq![model])
    }

    /// The ids of the models that the provider reported.
    pub open spec fn discovered_ids(self) -> Seq<Seq<char>> {
        Seq::new(self.discovered_models.len(), |i: int| self.discovered_models[i].id)
    }

    /// Every model id in the profile: the default, those reported, those named
    /// by hand.
    pub open spec fn all_ids(self) -> Seq<Seq<char>> {
        let default_id = match self.defaults.model {
            Some(model) => seq![model],
            None => Seq::empty(),
        };
        default_id + self.discovered_ids() + self.discovery.fallback_models
    }

    /// The model ids, each once, in ascending order.
    pub open spec fn model_ids(self) -> Seq<Seq<char>> {
        text::sorted_ids(self.all_ids())
    }

    /// Is the last validation more than a day old at the instant `now`?
    pub open spec fn is_stale_at(self, now: TimestampView) -> bool {
        match self.validation_cache {
            Some(entry) => entry.is_stale_at(now, (VALIDATION_MAX_AGE_SECS * crate::clock::NANOS_PER_SECOND) as nat),
            None => false,
        }
    }
}

impl ProviderProfile {
    /// The provider that Warp hosts.
    pub fn warp_hosted() -> (r: Self)
        ensures
            r@ == ProviderProfileView::warp_hosted(),
    {
        let r = ProviderProfile {
            id: WARP_HOSTED_PROVIDER_ID.to_string(),
            kind: ProviderKind::WarpHosted,
            enabled: true,
            display_name: "Warp-hosted".to_string(),
            base_url: String::new(),
            auth: AuthConfig::NoAuth,
            headers: StringMap::new(),
            defaults: ProviderDefaults {
                model: Some("auto".to_string()),
                stream: Some(true),
                temperature: None,
                top_p: None,
                max_output_tokens: None,
                timeout_ms: None,
            },
            capabilities: ProviderCapabilities::default(),
            policy: ProviderPolicy::warp_hosted(),
            discovery: ProviderDiscovery::models_endpoint(),
            discovered_models: Vec::new(),
            validation_cache: None,
        };
        proof {
            assert(r.discovered_models.deep_view() =~= Seq::<DiscoveredModelView>::empty());
            assert(header_views(r.headers@) =~= Map::<Seq<char>, Seq<char>>::empty());
        }
        r
    }

    /// A new provider that the client talks to itself. Without an endpoint, it
    /// has that of its kind.
    pub fn direct(
        id: &str,
        kind: ProviderKind,
        display_name: &str,
        base_url: Option<String>,
        auth: AuthConfig,
    ) -> (r: Self)
        ensures
            r@ == ProviderProfileView::direct(id@, kind, display_name@, base_url.deep_view(), auth@),
    {
        let base_url = match base_url {
            Some(url) => url,
            None => kind.default_base_url(),
        };
        let mut policy = ProviderPolicy::for_kind(&kind);
        policy.local_only = infer_local_only(base_url.as_str());
        let r = ProviderProfile {
            id: id.to_string(),
            kind,
            enabled: true,
            display_name: display_name.to_string(),
            base_url,
            auth,
            headers: StringMap::new(),
            defaults: ProviderDefaults {
                model: None,
                stream: Some(true),
                temperature: None,
                top_p: None,
                max_output_tokens: None,
                timeout_ms: None,
            },
            capabilities: ProviderCapabilities::default(),
            policy,
            discovery: ProviderDiscovery::models_endpoint(),
            discovered_models: Vec::new(),
            validation_cache: None,
        };
        proof {
            assert(r.discovered_models.deep_view() =~= Seq::<DiscoveredModelView>::empty());
            assert(header_views(r.headers@) =~= Map::<Seq<char>, Seq<char>>::empty());
        }
        r
    }

    /// The profile for an OpenAI key that was stored before.
    pub fn from_legacy_openai_key() -> (r: Self)
        ensures
            r@ == ProviderProfileView::legacy_openai(),
    {
        let mut profile = ProviderProfile::direct(
            LEGACY_OPENAI_PROVIDER_ID,
            ProviderKind::OpenAI,
            "OpenAI direct",
            None,
            AuthConfig::keychain_api_key(LEGACY_OPENAI_SECRET_REF),
        );
        profile.discovery.fallback_models = vec!["gpt-4.1".to_string()];
        proof {
            assert(profile.discovery.fallback_models.deep_view() =~= seq!["gpt-4.1"@]);
        }
        profile
    }

    /// The profile for an Anthropic key that was stored before, with the model
    /// that the caller takes from the vendor's list.
    pub fn from_legacy_anthropic_key(model: &str) -> (r: Self)
        ensures
            r@ == ProviderProfileView::legacy_anthropic(model@),
    {
        let mut profile = ProviderProfile::direct(
            LEGACY_ANTHROPIC_PROVIDER_ID,
            ProviderKind::Anthropic,
            "Anthropic direct",
            None,
            AuthConfig::keychain_api_key(LEGACY_ANTHROPIC_SECRET_REF),
        );
        profile.discovery.fallback_models = vec![model.to_string()];
        proof {
            assert(profile.discovery.fallback_models.deep_view() =~= seq![model@]);
        }
        profile
    }

    /// The ids of the models that the user can choose, each once, in ascending
    /// order.
    pub fn model_ids(&self) -> (r: Vec<String>)
        ensures
            r.deep_view() == self@.model_ids(),
            text::lists_once(r.deep_view(), self@.all_ids()),
    {
        let mut ids: Vec<String> = Vec::new();
        match &self.defaults.model {
            Some(model) => ids.push(model.clone()),
            None => {},
        }
        let ghost default_id = match self@.defaults.model {
            Some(model) => seq![model],
            None => Seq::empty(),
        };
        proof {
            assert(ids.deep_view() =~= default_id);
        }
        let mut i: usize = 0;
        while i < self.discovered_models.len()
            invariant
                i <= self.discovered_models@.len(),
                ids.deep_view() == default_id + self@.discovered_ids().take(i as int),
            decreases self.discovered_models@.len() - i,
        {
            let ghost before = ids.deep_view();
            ids.push(self.discovered_models[i].id.clone());
            proof {
                assert(ids.deep_view() =~= before.push(self.discovered_models@[i as int].id@));
                assert(self@.discovered_ids().take(i + 1) =~= self@.discovered_ids().take(i as int).push(
                    self.discovered_models@[i as int].id@,
                ));
                assert(ids.deep_view() =~= default_id + self@.discovered_ids().take(i + 1));
            }
            i = i + 1;
        }
        proof {
            assert(self@.discovered_ids().take(i as int) =~= self@.discovered_ids());
        }
        let ghost known = default_id + self@.discovered_ids();
        let ghost manual = self.discovery.fallback_models.deep_view();
        let mut j: usize = 0;
        while j < self.discovery.fallback_models.len()
            invariant
                j <= self.discovery.fallback_models@.len(),
                manual == self.discovery.fallback_models.deep_view(),
                ids.deep_view() == known + manual.take(j as int),
            decreases self.discovery.fallback_models@.len() - j,
        {
            let ghost before = ids.deep_view();
            ids.push(self.discovery.fallback_models[j].clone());
            proof {
                assert(ids.deep_view() =~= before.push(self.discovery.fallback_models@[j as int]@));
                assert(manual.take(j + 1) =~= manual.take(j as int).push(self.discovery.fallback_models@[j as int]@));
                assert(ids.deep_view() =~= known + manual.take(j + 1));
            }
            j = j + 1;
        }
        proof {
            assert(manual.take(j as int) =~= manual);
            assert(ids.deep_view() =~= self@.all_ids());
        }
        text::sort_unique(&ids)
    }

    /// Is the last validation more than a day old at the instant `now`?
    pub fn is_stale_at(&self, now: &Timestamp) -> (r: bool)
        ensures
            r == self@.is_stale_at(now@),
    {
        match &self.validation_cache {
            Some(entry) => entry.is_stale_at(now, Duration::from_secs(VALIDATION_MAX_AGE_SECS)),
            None => false,
        }
    }

    /// Is the last validation more than a day old?
    pub fn is_stale(&self) -> (r: bool)
        ensures
            exists|now: TimestampView| r == #[trigger] self@.is_stale_at(now),
    {
        match &self.validation_cache {
            Some(entry) => {
                let max_age = Duration::from_secs(VALIDATION_MAX_AGE_SECS);
                let r = entry.is_stale(max_age);
                proof {
                    let now = choose|now: TimestampView| r == #[trigger] entry@.is_stale_at(now, crate::clock::nanos_of(max_age));
                    assert(r == self@.is_stale_at(now));
                }
                r
            },
            None => {
                proof {
                    assert(!self@.is_stale_at(TimestampView { secs: 0, nanos: 0 }));
                }
                false
            },
        }
    }
}

/// What is no number has all bits of its exponent set and some of its fraction,
/// and a zero has none set but its sign. Numbers are equal where their bits are,
/// and both zeros are; what is no number equals nothing.
pub proof fn law_numbers_are_equal_by_value(a: Single, b: Single)
    ensures
        a.is_nan() <==> a.bits & 0x7f80_0000 == 0x7f80_0000 && a.bits & 0x007f_ffff != 0,
        a.is_zero() <==> a.bits & 0x7fff_ffff == 0,
        a.is_nan() ==> !vstd::std_specs::cmp::PartialEqSpec::eq_spec(&a, &b),
        b.is_nan() ==> !vstd::std_specs::cmp::PartialEqSpec::eq_spec(&a, &b),
        !a.is_nan() ==> vstd::std_specs::cmp::PartialEqSpec::eq_spec(&a, &a),
        a.is_zero() && b.is_zero() ==> vstd::std_specs::cmp::PartialEqSpec::eq_spec(&a, &b),
        !(a.is_zero() && b.is_zero()) && a.bits != b.bits ==> !vstd::std_specs::cmp::PartialEqSpec::eq_spec(&a, &b),
{
    let bits = a.bits;
    assert((bits % 0x8000_0000 > 0x7f80_0000) == (bits & 0x7f80_0000 == 0x7f80_0000 && bits & 0x007f_ffff != 0))
        by (bit_vector);
    assert((bits % 0x8000_0000 == 0) == (bits & 0x7fff_ffff == 0)) by (bit_vector);
}

} // verus!
