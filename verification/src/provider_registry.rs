//! The providers that a user has configured, and how one is picked for a
//! request.
use vstd::prelude::*;
use vstd::std_specs::convert::FromSpecImpl;
use vstd::string::{StrSliceExecFns, StringExecFns};

use crate::api_keys::ApiKeys;
use crate::clock::{utc_now, Timestamp, TimestampView};
use crate::endpoint;
use crate::profile;
use crate::profile::{
    clone_headers, AuthConfigView, DiscoveredModelView, ProviderCapabilitiesView, ProviderDefaultsView,
    ProviderDiscoveryView, ProviderProfileView,
};
use crate::provider_validator;
use crate::provider_validator::{
    models_from_infos, DiscoveredModelInfo, DiscoveredModelInfoView, ValidationCacheEntry, ValidationResult,
    ValidationResultView,
};
use crate::string_map;
use crate::string_map::StringMap;
use crate::text;
use crate::text::{contains_text, find_char, sort_unique, str_eq};

pub use crate::endpoint::infer_local_only;
pub use crate::profile::{
    AuthConfig, AuthSource, CapabilitySetting, DiscoveredModel, DiscoveredModelSource, DiscoveryStrategy,
    ProviderCapabilities, ProviderDefaults, ProviderDiscovery, ProviderKind, ProviderPolicy, ProviderProfile, Single,
    LEGACY_ANTHROPIC_PROVIDER_ID, LEGACY_OPENAI_PROVIDER_ID, WARP_HOSTED_PROVIDER_ID,
};

verus! {

// ---------------------------------------------------------------------------
// Qualified model ids
// ---------------------------------------------------------------------------

/// A model together with its provider.
#[derive(Debug, PartialEq, Eq)]
pub struct ProviderQualifiedModelId {
    pub provider_id: String,
    pub model_id: String,
}

/// What a [`ProviderQualifiedModelId`] is.
pub struct ProviderQualifiedModelIdView {
    pub provider_id: Seq<char>,
    pub model_id: Seq<char>,
}

impl DeepView for ProviderQualifiedModelId {
    type V = ProviderQualifiedModelIdView;

    open spec fn deep_view(&self) -> ProviderQualifiedModelIdView {
        ProviderQualifiedModelIdView { provider_id: self.provider_id@, model_id: self.model_id@ }
    }
}

impl View for ProviderQualifiedModelId {
    type V = ProviderQualifiedModelIdView;

    open spec fn view(&self) -> ProviderQualifiedModelIdView {
        self.deep_view()
    }
}

impl Clone for ProviderQualifiedModelId {
    fn clone(&self) -> (r: Self)
        ensures
            r@ == self@,
    {
        ProviderQualifiedModelId { provider_id: self.provider_id.clone(), model_id: self.model_id.clone() }
    }
}

impl ProviderQualifiedModelIdView {
    /// The provider, a colon, the model.
    pub open spec fn written(self) -> Seq<char> {
        self.provider_id + seq![':'] + self.model_id
    }

    /// What a text names: the provider before the first colon, the model after
    /// it. Nothing without a colon or where either is empty.
    pub open spec fn read(value: Seq<char>) -> Option<Self> {
        let colon = text::first_index_of(value, ':');
        if 0 < colon < value.len() - 1 {
            Some(
                ProviderQualifiedModelIdView {
                    provider_id: value.take(colon),
                    model_id: value.skip(colon + 1),
                },
            )
        } else {
            None
        }
    }
}

impl ProviderQualifiedModelId {
    pub fn new(provider_id: &str, model_id: &str) -> (r: Self)
        ensures
            r@ == (ProviderQualifiedModelIdView { provider_id: provider_id@, model_id: model_id@ }),
    {
        ProviderQualifiedModelId { provider_id: provider_id.to_string(), model_id: model_id.to_string() }
    }

    /// Reads `provider:model`. The model may hold more colons.
    pub fn parse(value: &str) -> (r: Option<Self>)
        ensures
            r.deep_view() == ProviderQualifiedModelIdView::read(value@),
    {
        let n = value.unicode_len();
        match find_char(value, ':') {
            Some(colon) => {
                if colon == 0 || colon + 1 == n {
                    return None;
                }
                let provider_id = value.substring_char(0, colon);
                let model_id = value.substring_char(colon + 1, n);
                proof {
                    assert(provider_id@ =~= value@.take(colon as int));
                    assert(model_id@ =~= value@.skip(colon + 1));
                }
                Some(ProviderQualifiedModelId::new(provider_id, model_id))
            },
            None => {
                proof {
                    text::lemma_first_index_of(value@, ':');
                    let colon = text::first_index_of(value@, ':');
                    if colon < value@.len() {
                        assert(value@.contains(value@[colon]));
                    }
                }
                None
            },
        }
    }

    /// The provider, a colon, the model.
    pub fn to_string(&self) -> (r: String)
        ensures
            r@ == self@.written(),
    {
        let mut r = self.provider_id.clone();
        r.push(':');
        r.append(self.model_id.as_str());
        proof {
            assert(r@ =~= self@.written());
        }
        r
    }
}

/// What is written for a model is read back as that model, where the provider
/// has a name without a colon and the model has a name.
pub proof fn law_written_id_reads_back(id: ProviderQualifiedModelIdView)
    requires
        id.provider_id.len() > 0,
        !id.provider_id.contains(':'),
        id.model_id.len() > 0,
    ensures
        ProviderQualifiedModelIdView::read(id.written()) == Some(id),
{
    let written = id.written();
    let colon = text::first_index_of(written, ':');
    let n = id.provider_id.len() as int;
    text::lemma_first_index_of(written, ':');
    assert(written[n] == ':');
    if colon < n {
        assert(written[colon] == id.provider_id[colon]);
        assert(id.provider_id.contains(id.provider_id[colon]));
    }
    assert(colon == n);
    assert(written.take(n) =~= id.provider_id);
    assert(written.skip(n + 1) =~= id.model_id);
}

/// A text that names a model is what is written for that model.
pub proof fn law_read_id_writes_back(value: Seq<char>)
    requires
        ProviderQualifiedModelIdView::read(value) is Some,
    ensures
        ProviderQualifiedModelIdView::read(value)->0.written() == value,
{
    text::lemma_first_index_of(value, ':');
    assert(ProviderQualifiedModelIdView::read(value)->0.written() =~= value);
}

// ---------------------------------------------------------------------------
// Model choices
// ---------------------------------------------------------------------------

/// A model that the user can choose, with where it comes from.
#[derive(Debug, PartialEq, Eq)]
pub struct ProviderModelChoice {
    pub qualified_id: ProviderQualifiedModelId,
    pub provider_display_name: String,
    pub model_id: String,
    pub provider_kind: ProviderKind,
    pub local_only: bool,
    pub manual: bool,
}

/// What a [`ProviderModelChoice`] is.
pub struct ProviderModelChoiceView {
    pub qualified_id: ProviderQualifiedModelIdView,
    pub provider_display_name: Seq<char>,
    pub model_id: Seq<char>,
    pub provider_kind: ProviderKind,
    pub local_only: bool,
    pub manual: bool,
}

impl DeepView for ProviderModelChoice {
    type V = ProviderModelChoiceView;

    open spec fn deep_view(&self) -> ProviderModelChoiceView {
        ProviderModelChoiceView {
            qualified_id: self.qualified_id@,
            provider_display_name: self.provider_display_name@,
            model_id: self.model_id@,
            provider_kind: self.provider_kind,
            local_only: self.local_only,
            manual: self.manual,
        }
    }
}

impl View for ProviderModelChoice {
    type V = ProviderModelChoiceView;

    open spec fn view(&self) -> ProviderModelChoiceView {
        self.deep_view()
    }
}

impl Clone for ProviderModelChoice {
    fn clone(&self) -> (r: Self)
        ensures
            r@ == self@,
    {
        ProviderModelChoice {
            qualified_id: self.qualified_id.clone(),
            provider_display_name: self.provider_display_name.clone(),
            model_id: self.model_id.clone(),
            provider_kind: self.provider_kind,
            local_only: self.local_only,
            manual: self.manual,
        }
    }
}

impl ProviderModelChoiceView {
    /// The choice of a model of a provider. It is manual where the user has
    /// named the model.
    pub open spec fn of(provider: ProviderProfileView, model_id: Seq<char>) -> Self {
        ProviderModelChoiceView {
            qualified_id: ProviderQualifiedModelIdView { provider_id: provider.id, model_id },
            provider_display_name: provider.display_name,
            model_id,
            provider_kind: provider.kind,
            local_only: provider.policy.local_only == Some(true),
            manual: provider.discovery.fallback_models.contains(model_id),
        }
    }
}

impl ProviderModelChoice {
    /// The choice of a model of a provider.
    pub fn new(provider: &ProviderProfile, model_id: String) -> (r: Self)
        ensures
            r@ == ProviderModelChoiceView::of(provider@, model_id@),
    {
        let manual = contains_text(&provider.discovery.fallback_models, model_id.as_str());
        let local_only = match provider.policy.local_only {
            Some(local) => local,
            None => false,
        };
        ProviderModelChoice {
            qualified_id: ProviderQualifiedModelId::new(provider.id.as_str(), model_id.as_str()),
            provider_display_name: provider.display_name.clone(),
            model_id,
            provider_kind: provider.kind,
            local_only,
            manual,
        }
    }
}

/// The choices among the models of one provider; none where it is disabled.
pub open spec fn provider_choices(provider: ProviderProfileView) -> Seq<ProviderModelChoiceView> {
    if provider.enabled {
        Seq::new(
            provider.model_ids().len(),
            |i: int| ProviderModelChoiceView::of(provider, provider.model_ids()[i]),
        )
    } else {
        Seq::empty()
    }
}

/// The choices among the models of providers, one provider after the other.
pub open spec fn listed_choices(listing: Seq<(Seq<char>, ProviderProfileView)>) -> Seq<ProviderModelChoiceView>
    decreases listing.len(),
{
    if listing.len() == 0 {
        Seq::empty()
    } else {
        listed_choices(listing.drop_last()) + provider_choices(listing.last().1)
    }
}

// ---------------------------------------------------------------------------
// Resolved providers
// ---------------------------------------------------------------------------

/// Where the secret of a resolved provider is found.
#[derive(Debug, PartialEq, Eq)]
#[allow(inconsistent_fields)]
pub enum ResolvedAuth {
    NoAuth,
    KeychainApiKey { secret_ref: Option<String> },
    EnvApiKey { env_var: Option<String> },
    KeychainBearerToken { secret_ref: String },
}

/// What a [`ResolvedAuth`] is.
#[allow(inconsistent_fields)]
pub enum ResolvedAuthView {
    NoAuth,
    KeychainApiKey { secret_ref: Option<Seq<char>> },
    EnvApiKey { env_var: Option<Seq<char>> },
    KeychainBearerToken { secret_ref: Seq<char> },
}

impl View for ResolvedAuth {
    type V = ResolvedAuthView;

    open spec fn view(&self) -> ResolvedAuthView {
        match self {
            ResolvedAuth::NoAuth => ResolvedAuthView::NoAuth,
            ResolvedAuth::KeychainApiKey { secret_ref } => ResolvedAuthView::KeychainApiKey {
                secret_ref: secret_ref.deep_view(),
            },
            ResolvedAuth::EnvApiKey { env_var } => ResolvedAuthView::EnvApiKey { env_var: env_var.deep_view() },
            ResolvedAuth::KeychainBearerToken { secret_ref } => ResolvedAuthView::KeychainBearerToken {
                secret_ref: secret_ref@,
            },
        }
    }
}

impl Clone for ResolvedAuth {
    fn clone(&self) -> (r: Self)
        ensures
            r@ == self@,
    {
        match self {
            ResolvedAuth::NoAuth => ResolvedAuth::NoAuth,
            ResolvedAuth::KeychainApiKey { secret_ref } => ResolvedAuth::KeychainApiKey {
                secret_ref: secret_ref.clone(),
            },
            ResolvedAuth::EnvApiKey { env_var } => ResolvedAuth::EnvApiKey { env_var: env_var.clone() },
            ResolvedAuth::KeychainBearerToken { secret_ref } => ResolvedAuth::KeychainBearerToken {
                secret_ref: secret_ref.clone(),
            },
        }
    }
}

impl ResolvedAuthView {
    /// Where the secret of an auth configuration is found. A bearer token comes
    /// from the keychain whatever its source says.
    pub open spec fn of(auth: AuthConfigView) -> Self {
        match auth {
            AuthConfigView::NoAuth => ResolvedAuthView::NoAuth,
            AuthConfigView::ApiKey { source: AuthSource::Keychain, secret_ref, .. } => {
                ResolvedAuthView::KeychainApiKey { secret_ref }
            },
            AuthConfigView::ApiKey { source: AuthSource::Env, env_var, .. } => {
                ResolvedAuthView::EnvApiKey { env_var }
            },
            AuthConfigView::BearerToken { secret_ref, .. } => ResolvedAuthView::KeychainBearerToken { secret_ref },
        }
    }
}

impl From<&AuthConfig> for ResolvedAuth {
    fn from(auth: &AuthConfig) -> (r: Self)
        ensures
            r@ == ResolvedAuthView::of(auth@),
    {
        match auth {
            AuthConfig::NoAuth => ResolvedAuth::NoAuth,
            AuthConfig::ApiKey { source: AuthSource::Keychain, secret_ref, .. } => ResolvedAuth::KeychainApiKey {
                secret_ref: secret_ref.clone(),
            },
            AuthConfig::ApiKey { source: AuthSource::Env, env_var, .. } => ResolvedAuth::EnvApiKey {
                env_var: env_var.clone(),
            },
            AuthConfig::BearerToken { secret_ref, .. } => ResolvedAuth::KeychainBearerToken {
                secret_ref: secret_ref.clone(),
            },
        }
    }
}

impl FromSpecImpl<&AuthConfig> for ResolvedAuth {
    open spec fn obeys_from_spec() -> bool {
        true
    }

    open spec fn from_spec(auth: &AuthConfig) -> Self {
        match auth {
            AuthConfig::NoAuth => ResolvedAuth::NoAuth,
            AuthConfig::ApiKey { source: AuthSource::Keychain, secret_ref, .. } => ResolvedAuth::KeychainApiKey {
                secret_ref: *secret_ref,
            },
            AuthConfig::ApiKey { source: AuthSource::Env, env_var, .. } => ResolvedAuth::EnvApiKey {
                env_var: *env_var,
            },
            AuthConfig::BearerToken { secret_ref, .. } => ResolvedAuth::KeychainBearerToken {
                secret_ref: *secret_ref,
            },
        }
    }
}

/// Why no provider is found for a request.
#[derive(Debug, PartialEq, Eq)]
pub enum ProviderResolutionError {
    UnknownProvider { provider_id: String },
    DisabledProvider { provider_id: String },
    UnknownModel { provider_id: String, model_id: String },
    TeamPolicyBlocked { provider_id: String, reason: String },
    StaleModel { provider_id: String, model_id: String },
}

/// What a [`ProviderResolutionError`] is.
pub enum ProviderResolutionErrorView {
    UnknownProvider { provider_id: Seq<char> },
    DisabledProvider { provider_id: Seq<char> },
    UnknownModel { provider_id: Seq<char>, model_id: Seq<char> },
    TeamPolicyBlocked { provider_id: Seq<char>, reason: Seq<char> },
    StaleModel { provider_id: Seq<char>, model_id: Seq<char> },
}

impl View for ProviderResolutionError {
    type V = ProviderResolutionErrorView;

    open spec fn view(&self) -> ProviderResolutionErrorView {
        match self {
            ProviderResolutionError::UnknownProvider { provider_id } => ProviderResolutionErrorView::UnknownProvider {
                provider_id: provider_id@,
            },
            ProviderResolutionError::DisabledProvider { provider_id } => {
                ProviderResolutionErrorView::DisabledProvider { provider_id: provider_id@ }
            },
            ProviderResolutionError::UnknownModel { provider_id, model_id } => {
                ProviderResolutionErrorView::UnknownModel { provider_id: provider_id@, model_id: model_id@ }
            },
            ProviderResolutionError::TeamPolicyBlocked { provider_id, reason } => {
                ProviderResolutionErrorView::TeamPolicyBlocked { provider_id: provider_id@, reason: reason@ }
            },
            ProviderResolutionError::StaleModel { provider_id, model_id } => ProviderResolutionErrorView::StaleModel {
                provider_id: provider_id@,
                model_id: model_id@,
            },
        }
    }
}

impl Clone for ProviderResolutionError {
    fn clone(&self) -> (r: Self)
        ensures
            r@ == self@,
    {
        match self {
            ProviderResolutionError::UnknownProvider { provider_id } => ProviderResolutionError::UnknownProvider {
                provider_id: provider_id.clone(),
            },
            ProviderResolutionError::DisabledProvider { provider_id } => ProviderResolutionError::DisabledProvider {
                provider_id: provider_id.clone(),
            },
            ProviderResolutionError::UnknownModel { provider_id, model_id } => ProviderResolutionError::UnknownModel {
                provider_id: provider_id.clone(),
                model_id: model_id.clone(),
            },
            ProviderResolutionError::TeamPolicyBlocked { provider_id, reason } => {
                ProviderResolutionError::TeamPolicyBlocked { provider_id: provider_id.clone(), reason: reason.clone() }
            },
            ProviderResolutionError::StaleModel { provider_id, model_id } => ProviderResolutionError::StaleModel {
                provider_id: provider_id.clone(),
                model_id: model_id.clone(),
            },
        }
    }
}

impl ProviderResolutionErrorView {
    /// The message for the user.
    pub open spec fn message(self) -> Seq<char> {
        match self {
            ProviderResolutionErrorView::UnknownProvider { provider_id } => "Unknown provider '"@ + provider_id + "'"@,
            ProviderResolutionErrorView::DisabledProvider { provider_id } => "Provider '"@ + provider_id
                + "' is disabled"@,
            ProviderResolutionErrorView::UnknownModel { provider_id, model_id } => "Provider '"@ + provider_id
                + "' does not know model '"@ + model_id + "'"@,
            ProviderResolutionErrorView::TeamPolicyBlocked { provider_id, reason } => "Provider '"@ + provider_id
                + "' is blocked by team policy: "@ + reason,
            ProviderResolutionErrorView::StaleModel { provider_id, model_id } => "Provider '"@ + provider_id
                + "' model '"@ + model_id + "' has stale discovery data"@,
        }
    }
}

impl ProviderResolutionError {
    /// The message for the user.
    pub fn to_string(&self) -> (r: String)
        ensures
            r@ == self@.message(),
    {
        match self {
            ProviderResolutionError::UnknownProvider { provider_id } => "Unknown provider '".to_string().concat(
                provider_id.as_str(),
            ).concat("'"),
            ProviderResolutionError::DisabledProvider { provider_id } => "Provider '".to_string().concat(
                provider_id.as_str(),
            ).concat("' is disabled"),
            ProviderResolutionError::UnknownModel { provider_id, model_id } => "Provider '".to_string().concat(
                provider_id.as_str(),
            ).concat("' does not know model '").concat(model_id.as_str()).concat("'"),
            ProviderResolutionError::TeamPolicyBlocked { provider_id, reason } => "Provider '".to_string().concat(
                provider_id.as_str(),
            ).concat("' is blocked by team policy: ").concat(reason.as_str()),
            ProviderResolutionError::StaleModel { provider_id, model_id } => "Provider '".to_string().concat(
                provider_id.as_str(),
            ).concat("' model '").concat(model_id.as_str()).concat("' has stale discovery data"),
        }
    }
}

/// A provider that was picked for a request, and the model to ask.
#[derive(Debug, PartialEq)]
pub struct ResolvedProvider {
    pub profile_id: String,
    pub kind: ProviderKind,
    pub model: String,
    pub base_url: String,
    pub auth: ResolvedAuth,
    pub headers: StringMap<String>,
    pub capabilities: ProviderCapabilities,
    pub policy: ProviderPolicy,
    pub defaults: ProviderDefaults,
}

/// What a [`ResolvedProvider`] is.
pub struct ResolvedProviderView {
    pub profile_id: Seq<char>,
    pub kind: ProviderKind,
    pub model: Seq<char>,
    pub base_url: Seq<char>,
    pub auth: ResolvedAuthView,
    pub headers: Map<Seq<char>, Seq<char>>,
    pub capabilities: ProviderCapabilitiesView,
    pub policy: ProviderPolicy,
    pub defaults: ProviderDefaultsView,
}

impl View for ResolvedProvider {
    type V = ResolvedProviderView;

    open spec fn view(&self) -> ResolvedProviderView {
        ResolvedProviderView {
            profile_id: self.profile_id@,
            kind: self.kind,
            model: self.model@,
            base_url: self.base_url@,
            auth: self.auth@,
            headers: profile::header_views(self.headers@),
            capabilities: self.capabilities@,
            policy: self.policy,
            defaults: self.defaults@,
        }
    }
}

impl Clone for ResolvedProvider {
    fn clone(&self) -> (r: Self)
        ensures
            r@ == self@,
    {
        ResolvedProvider {
            profile_id: self.profile_id.clone(),
            kind: self.kind,
            model: self.model.clone(),
            base_url: self.base_url.clone(),
            auth: self.auth.clone(),
            headers: clone_headers(&self.headers),
            capabilities: self.capabilities.clone(),
            policy: self.policy,
            defaults: self.defaults.clone(),
        }
    }
}

impl ResolvedProviderView {
    /// A provider with the model to ask.
    pub open spec fn of(provider: ProviderProfileView, model: Seq<char>) -> Self {
        ResolvedProviderView {
            profile_id: provider.id,
            kind: provider.kind,
            model,
            base_url: provider.base_url,
            auth: ResolvedAuthView::of(provider.auth),
            headers: provider.headers,
            capabilities: provider.capabilities,
            policy: provider.policy,
            defaults: provider.defaults,
        }
    }

    /// The reason for which a team does not let the provider be used, if there
    /// is one.
    pub open spec fn team_policy_objection(
        self,
        is_direct_allowed: bool,
        is_compatible_allowed: bool,
        is_endpoint_origin_allowed: bool,
        is_managed_team: bool,
    ) -> Option<Seq<char>> {
        if self.kind.spec_is_direct() && !is_direct_allowed {
            Some("Direct providers are disabled by team policy"@)
        } else if self.kind.spec_is_compatible() && !is_compatible_allowed {
            Some("Custom compatible endpoints are disabled by team policy"@)
        } else if self.kind.spec_is_compatible() && !is_endpoint_origin_allowed {
            Some("Provider endpoint origin is not allowed by team policy"@)
        } else if is_managed_team && self.policy.allow_in_managed_teams != Some(true) {
            Some("This provider is not allowed in managed teams"@)
        } else {
            None
        }
    }
}

impl ResolvedProvider {
    /// Holds the provider against the constraints of a team: whether it allows
    /// direct providers, custom compatible endpoints and the origin of this
    /// one, and whether it is managed.
    pub fn validate_team_policy(
        &self,
        is_direct_allowed: bool,
        is_compatible_allowed: bool,
        is_endpoint_origin_allowed: bool,
        is_managed_team: bool,
    ) -> (r: Result<(), ProviderResolutionError>)
        ensures
            match (
                r,
                self@.team_policy_objection(
                    is_direct_allowed,
                    is_compatible_allowed,
                    is_endpoint_origin_allowed,
                    is_managed_team,
                ),
            ) {
                (Ok(_), objection) => objection is None,
                (Err(error), objection) => objection matches Some(reason)
                    && error@ == (ProviderResolutionErrorView::TeamPolicyBlocked {
                    provider_id: self@.profile_id,
                    reason,
                }),
            },
    {
        if self.kind.is_direct() && !is_direct_allowed {
            return Err(
                ProviderResolutionError::TeamPolicyBlocked {
                    provider_id: self.profile_id.clone(),
                    reason: "Direct providers are disabled by team policy".to_string(),
                },
            );
        }
        if self.kind.is_compatible() && !is_compatible_allowed {
            return Err(
                ProviderResolutionError::TeamPolicyBlocked {
                    provider_id: self.profile_id.clone(),
                    reason: "Custom compatible endpoints are disabled by team policy".to_string(),
                },
            );
        }
        if self.kind.is_compatible() && !is_endpoint_origin_allowed {
            return Err(
                ProviderResolutionError::TeamPolicyBlocked {
                    provider_id: self.profile_id.clone(),
                    reason: "Provider endpoint origin is not allowed by team policy".to_string(),
                },
            );
        }
        let allowed_in_managed_teams = match self.policy.allow_in_managed_teams {
            Some(allowed) => allowed,
            None => false,
        };
        if is_managed_team && !allowed_in_managed_teams {
            return Err(
                ProviderResolutionError::TeamPolicyBlocked {
                    provider_id: self.profile_id.clone(),
                    reason: "This provider is not allowed in managed teams".to_string(),
                },
            );
        }
        Ok(())
    }
}

// ---------------------------------------------------------------------------
// The registry
// ---------------------------------------------------------------------------

/// The provider and model for requests that name none.
#[derive(Debug, PartialEq, Eq)]
pub struct ProviderRegistryDefaults {
    pub agent_provider: Option<String>,
    pub agent_model: Option<String>,
}

/// What a [`ProviderRegistryDefaults`] is.
pub struct ProviderRegistryDefaultsView {
    pub agent_provider: Option<Seq<char>>,
    pub agent_model: Option<Seq<char>>,
}

impl View for ProviderRegistryDefaults {
    type V = ProviderRegistryDefaultsView;

    open spec fn view(&self) -> ProviderRegistryDefaultsView {
        ProviderRegistryDefaultsView {
            agent_provider: self.agent_provider.deep_view(),
            agent_model: self.agent_model.deep_view(),
        }
    }
}

impl Clone for ProviderRegistryDefaults {
    fn clone(&self) -> (r: Self)
        ensures
            r@ == self@,
    {
        ProviderRegistryDefaults { agent_provider: self.agent_provider.clone(), agent_model: self.agent_model.clone() }
    }
}

impl Default for ProviderRegistryDefaults {
    fn default() -> (r: Self)
        ensures
            r@ == (ProviderRegistryDefaultsView { agent_provider: None, agent_model: None }),
    {
        ProviderRegistryDefaults { agent_provider: None, agent_model: None }
    }
}

/// The configured providers, each under its id.
#[derive(Debug, PartialEq)]
pub struct ProviderRegistry {
    pub defaults: ProviderRegistryDefaults,
    pub providers: StringMap<ProviderProfile>,
}

/// What a [`ProviderRegistry`] is.
pub struct ProviderRegistryView {
    pub defaults: ProviderRegistryDefaultsView,
    pub providers: Map<Seq<char>, ProviderProfileView>,
}

/// Profiles by id.
pub open spec fn profile_views(providers: Map<Seq<char>, ProviderProfile>) -> Map<Seq<char>, ProviderProfileView> {
    providers.map_values(|provider: ProviderProfile| provider@)
}

impl View for ProviderRegistry {
    type V = ProviderRegistryView;

    open spec fn view(&self) -> ProviderRegistryView {
        ProviderRegistryView { defaults: self.defaults@, providers: profile_views(self.providers@) }
    }
}

impl Clone for ProviderRegistry {
    fn clone(&self) -> (r: Self)
        ensures
            r@ == self@,
    {
        let providers = self.providers.clone();
        proof {
            assert(profile_views(providers@) =~= profile_views(self.providers@));
        }
        ProviderRegistry { defaults: self.defaults.clone(), providers }
    }
}

/// The models that a validation reports, as models of a profile.
pub open spec fn reported_models(infos: Seq<DiscoveredModelInfoView>) -> Seq<DiscoveredModelView> {
    provider_validator::models_with_source(infos, DiscoveredModelSource::Discovered)
}

/// The profile after a validation that ended at the instant `now`: the cache
/// holds the outcome, the reported models take the place of those known before,
/// and a model that answered joins those named by hand unless it is known.
pub open spec fn validated_profile(
    provider: ProviderProfileView,
    result: ValidationResultView,
    now: TimestampView,
) -> ProviderProfileView {
    let cached = ProviderProfileView { validation_cache: Some(result.cache_entry(now)), ..provider };
    let listed = match result.discovered_models {
        Some(infos) => ProviderProfileView { discovered_models: reported_models(infos), ..cached },
        None => cached,
    };
    match result.model {
        Some(model) => if listed.all_ids().contains(model) {
            listed
        } else {
            listed.with_fallback_models(text::sorted_ids(listed.discovery.fallback_models.push(model)))
        },
        None => listed,
    }
}

/// The profile with these models in place of those that it reported. Unless
/// there are none, the models come from the provider's list from now on.
pub open spec fn rediscovered_profile(
    provider: ProviderProfileView,
    models: Seq<DiscoveredModelView>,
) -> ProviderProfileView {
    ProviderProfileView {
        discovered_models: models,
        discovery: ProviderDiscoveryView {
            strategy: if models.len() > 0 {
                DiscoveryStrategy::ModelsEndpoint
            } else {
                provider.discovery.strategy
            },
            ..provider.discovery
        },
        ..provider
    }
}

impl ProviderRegistryView {
    /// Each profile is stored under its id.
    pub open spec fn keyed_by_id(self) -> bool {
        forall|id: Seq<char>| #[trigger] self.providers.contains_key(id) ==> self.providers[id].id == id
    }

    /// The registry with nothing but the provider that Warp hosts.
    pub open spec fn initial() -> Self {
        ProviderRegistryView {
            defaults: ProviderRegistryDefaultsView {
                agent_provider: Some(WARP_HOSTED_PROVIDER_ID@),
                agent_model: Some("auto"@),
            },
            providers: Map::empty().insert(WARP_HOSTED_PROVIDER_ID@, ProviderProfileView::warp_hosted()),
        }
    }

    /// The registry with a profile added under an id that is free.
    pub open spec fn with_missing(self, id: Seq<char>, provider: ProviderProfileView) -> Self {
        if self.providers.contains_key(id) {
            self
        } else {
            ProviderRegistryView { providers: self.providers.insert(id, provider), ..self }
        }
    }

    /// The registry with the provider that Warp hosts and with defaults, where
    /// these were missing.
    pub open spec fn with_warp_hosted(self) -> Self {
        ProviderRegistryView {
            defaults: ProviderRegistryDefaultsView {
                agent_provider: match self.defaults.agent_provider {
                    Some(id) => Some(id),
                    None => Some(WARP_HOSTED_PROVIDER_ID@),
                },
                agent_model: match self.defaults.agent_model {
                    Some(model) => Some(model),
                    None => Some("auto"@),
                },
            },
            providers: self.with_missing(WARP_HOSTED_PROVIDER_ID@, ProviderProfileView::warp_hosted()).providers,
        }
    }

    /// The registry at start: what was stored, completed, with a profile for
    /// each first-party key that was stored before. The one for an Anthropic key
    /// has the model `anthropic_model`.
    pub open spec fn from_existing(
        existing: Option<Self>,
        openai_key: bool,
        anthropic_key: bool,
        anthropic_model: Seq<char>,
    ) -> Self {
        let stored = match existing {
            Some(registry) => registry.with_warp_hosted(),
            None => ProviderRegistryView::initial(),
        };
        let with_openai = if openai_key {
            stored.with_missing(LEGACY_OPENAI_PROVIDER_ID@, ProviderProfileView::legacy_openai())
        } else {
            stored
        };
        if anthropic_key {
            with_openai.with_missing(
                LEGACY_ANTHROPIC_PROVIDER_ID@,
                ProviderProfileView::legacy_anthropic(anthropic_model),
            )
        } else {
            with_openai
        }
    }

    /// What is stored when a profile is added or replaced: the cache of the
    /// profile before it where it has none of its own, and whether it is local
    /// where it does not say.
    pub open spec fn completed(self, provider: ProviderProfileView) -> ProviderProfileView {
        ProviderProfileView {
            validation_cache: if provider.validation_cache is None && self.providers.contains_key(provider.id) {
                self.providers[provider.id].validation_cache
            } else {
                provider.validation_cache
            },
            policy: ProviderPolicy {
                local_only: match provider.policy.local_only {
                    Some(local) => Some(local),
                    None => endpoint::local_only_of(provider.base_url),
                },
                ..provider.policy
            },
            ..provider
        }
    }

    /// The registry with a profile added or replaced.
    pub open spec fn with_provider(self, provider: ProviderProfileView) -> Self {
        ProviderRegistryView { providers: self.providers.insert(provider.id, self.completed(provider)), ..self }
    }

    /// The registry with what a validation of a provider found at the instant
    /// `now`; unchanged where there is no such provider.
    pub open spec fn with_validation(self, id: Seq<char>, result: ValidationResultView, now: TimestampView) -> Self {
        if self.providers.contains_key(id) {
            ProviderRegistryView {
                providers: self.providers.insert(id, validated_profile(self.providers[id], result, now)),
                ..self
            }
        } else {
            self
        }
    }

    /// The registry with the models that a provider reported; unchanged where
    /// there is no such provider.
    pub open spec fn with_discovered(self, id: Seq<char>, models: Seq<DiscoveredModelView>) -> Self {
        if self.providers.contains_key(id) {
            ProviderRegistryView {
                providers: self.providers.insert(id, rediscovered_profile(self.providers[id], models)),
                ..self
            }
        } else {
            self
        }
    }

    /// The models that the user can choose, provider after provider in the order
    /// of the ids.
    pub open spec fn choices(self) -> Seq<ProviderModelChoiceView> {
        listed_choices(string_map::listing_of(self.providers))
    }

    /// The provider and model that a request asks for. A request without a model
    /// asks for the defaults; one whose model names no provider asks Warp.
    pub open spec fn selection(self, requested_model: Option<Seq<char>>) -> ProviderQualifiedModelIdView {
        match requested_model {
            Some(model) => match ProviderQualifiedModelIdView::read(model) {
                Some(id) => id,
                None => ProviderQualifiedModelIdView { provider_id: WARP_HOSTED_PROVIDER_ID@, model_id: model },
            },
            None => ProviderQualifiedModelIdView {
                provider_id: match self.defaults.agent_provider {
                    Some(id) => id,
                    None => WARP_HOSTED_PROVIDER_ID@,
                },
                model_id: match self.defaults.agent_model {
                    Some(model) => model,
                    None => "auto"@,
                },
            },
        }
    }

    /// The provider for a request at the instant `now`, or why there is none.
    pub open spec fn resolution(self, requested_model: Option<Seq<char>>, now: TimestampView) -> Result<
        ResolvedProviderView,
        ProviderResolutionErrorView,
    > {
        let selected = self.selection(requested_model);
        if !self.providers.contains_key(selected.provider_id) {
            Err(ProviderResolutionErrorView::UnknownProvider { provider_id: selected.provider_id })
        } else {
            let provider = self.providers[selected.provider_id];
            if !provider.enabled {
                Err(ProviderResolutionErrorView::DisabledProvider { provider_id: provider.id })
            } else if provider.discovered_ids().contains(selected.model_id) && provider.is_stale_at(now)
                && !provider.policy.allow_manual_model_ids {
                Err(
                    ProviderResolutionErrorView::StaleModel {
                        provider_id: provider.id,
                        model_id: selected.model_id,
                    },
                )
            } else if provider.kind.spec_is_direct() && !provider.all_ids().contains(selected.model_id)
                && !provider.policy.allow_manual_model_ids {
                Err(
                    ProviderResolutionErrorView::UnknownModel {
                        provider_id: provider.id,
                        model_id: selected.model_id,
                    },
                )
            } else {
                Ok(ResolvedProviderView::of(provider, selected.model_id))
            }
        }
    }
}

/// The outcome of a resolution.
pub open spec fn resolution_view(r: Result<ResolvedProvider, ProviderResolutionError>) -> Result<
    ResolvedProviderView,
    ProviderResolutionErrorView,
> {
    match r {
        Ok(resolved) => Ok(resolved@),
        Err(error) => Err(error@),
    }
}

/// The value of an optional registry.
pub open spec fn opt_registry(existing: Option<ProviderRegistry>) -> Option<ProviderRegistryView> {
    match existing {
        Some(registry) => Some(registry@),
        None => None,
    }
}

impl ProviderRegistry {
    /// The registry with nothing but the provider that Warp hosts.
    pub fn new() -> (r: Self)
        ensures
            r@ == ProviderRegistryView::initial(),
    {
        let mut providers: StringMap<ProviderProfile> = StringMap::new();
        providers.insert(WARP_HOSTED_PROVIDER_ID.to_string(), ProviderProfile::warp_hosted());
        let r = ProviderRegistry {
            defaults: ProviderRegistryDefaults {
                agent_provider: Some(WARP_HOSTED_PROVIDER_ID.to_string()),
                agent_model: Some("auto".to_string()),
            },
            providers,
        };
        proof {
            assert(r@.providers =~= ProviderRegistryView::initial().providers);
        }
        r
    }

    /// Adds a profile under an id that is free.
    fn insert_missing(&mut self, id: &str, provider: ProviderProfile)
        ensures
            final(self)@ == old(self)@.with_missing(id@, provider@),
    {
        if !self.providers.contains_key(id) {
            let ghost before = self.providers@;
            self.providers.insert(id.to_string(), provider);
            proof {
                assert(profile_views(self.providers@) =~= profile_views(before).insert(id@, provider@));
            }
        }
    }

    /// The registry at start: what was stored, completed, with a profile for
    /// each first-party key that was stored before. Keys of others make none.
    /// The profile for an Anthropic key has the model `anthropic_model`.
    pub fn from_existing(existing: Option<Self>, legacy_keys: &ApiKeys, anthropic_model: &str) -> (r: Self)
        ensures
            r@ == ProviderRegistryView::from_existing(
                opt_registry(existing),
                legacy_keys.openai is Some,
                legacy_keys.anthropic is Some,
                anthropic_model@,
            ),
    {
        let mut registry = match existing {
            Some(registry) => registry,
            None => ProviderRegistry::new(),
        };
        registry.ensure_warp_hosted();
        if legacy_keys.openai.is_some() {
            registry.insert_missing(LEGACY_OPENAI_PROVIDER_ID, ProviderProfile::from_legacy_openai_key());
        }
        if legacy_keys.anthropic.is_some() {
            registry.insert_missing(
                LEGACY_ANTHROPIC_PROVIDER_ID,
                ProviderProfile::from_legacy_anthropic_key(anthropic_model),
            );
        }
        registry
    }

    /// Adds the provider that Warp hosts and defaults, where these are missing.
    pub fn ensure_warp_hosted(&mut self)
        ensures
            final(self)@ == old(self)@.with_warp_hosted(),
    {
        self.insert_missing(WARP_HOSTED_PROVIDER_ID, ProviderProfile::warp_hosted());
        if self.defaults.agent_provider.is_none() {
            self.defaults.agent_provider = Some(WARP_HOSTED_PROVIDER_ID.to_string());
        }
        if self.defaults.agent_model.is_none() {
            self.defaults.agent_model = Some("auto".to_string());
        }
    }

    /// Adds a profile, or replaces the one with its id. An update without a
    /// validation cache keeps the one that is there.
    pub fn upsert_provider(&mut self, profile: ProviderProfile)
        ensures
            final(self)@ == old(self)@.with_provider(profile@),
    {
        let mut profile = profile;
        let ghost given = profile@;
        if profile.validation_cache.is_none() {
            match self.providers.get(profile.id.as_str()) {
                Some(existing) => {
                    profile.validation_cache = existing.validation_cache.clone();
                },
                None => {},
            }
        }
        if profile.policy.local_only.is_none() {
            profile.policy.local_only = infer_local_only(profile.base_url.as_str());
        }
        let ghost before = self.providers@;
        let ghost stored = profile@;
        self.providers.insert(profile.id.clone(), profile);
        proof {
            assert(stored == old(self)@.completed(given));
            assert(profile_views(self.providers@) =~= profile_views(before).insert(given.id, stored));
        }
    }

    /// Stores what a validation of a provider found.
    pub fn apply_validation_result(&mut self, provider_id: &str, result: &ValidationResult)
        ensures
            exists|now: TimestampView| final(self)@ == #[trigger] old(self)@.with_validation(provider_id@, result@, now),
    {
        let now = utc_now();
        self.apply_validation_result_at(provider_id, result, &now);
        proof {
            assert(self@ == old(self)@.with_validation(provider_id@, result@, now@));
        }
    }

    /// Stores what a validation of a provider found at the instant `now`.
    pub fn apply_validation_result_at(&mut self, provider_id: &str, result: &ValidationResult, now: &Timestamp)
        ensures
            final(self)@ == old(self)@.with_validation(provider_id@, result@, now@),
    {
        let ghost before = self.providers@;
        match self.providers.remove(provider_id) {
            Some(mut provider) => {
                apply_validation(&mut provider, result, now);
                let ghost stored = provider@;
                self.providers.insert(provider_id.to_string(), provider);
                proof {
                    assert(profile_views(self.providers@) =~= profile_views(before).insert(provider_id@, stored));
                }
            },
            None => {
                proof {
                    assert(self.providers@ =~= before);
                }
            },
        }
    }

    /// Stores the models that a provider reported.
    pub fn apply_discovered_models(&mut self, provider_id: &str, models: Vec<DiscoveredModel>)
        ensures
            final(self)@ == old(self)@.with_discovered(provider_id@, models.deep_view()),
    {
        let ghost before = self.providers@;
        match self.providers.remove(provider_id) {
            Some(mut provider) => {
                provider.discovered_models = models;
                if provider.discovered_models.len() > 0 {
                    provider.discovery.strategy = DiscoveryStrategy::ModelsEndpoint;
                }
                let ghost stored = provider@;
                self.providers.insert(provider_id.to_string(), provider);
                proof {
                    assert(profile_views(self.providers@) =~= profile_views(before).insert(provider_id@, stored));
                }
            },
            None => {
                proof {
                    assert(self.providers@ =~= before);
                }
            },
        }
    }
}

impl Default for ProviderRegistry {
    fn default() -> (r: Self)
        ensures
            r@ == ProviderRegistryView::initial(),
    {
        ProviderRegistry::new()
    }
}

/// The models that a validation reports, as models of a profile.
pub fn discovered_model_infos_to_models(models: &Vec<DiscoveredModelInfo>) -> (r: Vec<DiscoveredModel>)
    ensures
        r.deep_view() == reported_models(models.deep_view()),
{
    models_from_infos(models, DiscoveredModelSource::Discovered)
}

/// Stores in a profile what a validation found at the instant `now`.
fn apply_validation(provider: &mut ProviderProfile, result: &ValidationResult, now: &Timestamp)
    ensures
        final(provider)@ == validated_profile(old(provider)@, result@, now@),
{
    provider.validation_cache = Some(ValidationCacheEntry::from_validation_result_at(result, now));
    match &result.discovered_models {
        Some(models) => {
            provider.discovered_models = discovered_model_infos_to_models(models);
            if provider.discovered_models.len() > 0 && provider.discovery.strategy != DiscoveryStrategy::ManualOnly {
                provider.discovery.strategy = DiscoveryStrategy::ModelsEndpoint;
            }
        },
        None => {},
    }
    match &result.model {
        Some(model) => {
            let ids = provider.model_ids();
            let model_known = contains_text(&ids, model.as_str());
            if !model_known {
                let ghost before = provider.discovery.fallback_models.deep_view();
                provider.discovery.fallback_models.push(model.clone());
                proof {
                    assert(provider.discovery.fallback_models.deep_view() =~= before.push(model@));
                }
                let sorted = sort_unique(&provider.discovery.fallback_models);
                provider.discovery.fallback_models = sorted;
            }
        },
        None => {},
    }
}

/// A list of profiles, with what each profile is.
pub open spec fn profile_listing(listing: Seq<(Seq<char>, ProviderProfile)>) -> Seq<(Seq<char>, ProviderProfileView)> {
    listing.map_values(|entry: (Seq<char>, ProviderProfile)| (entry.0, entry.1@))
}

/// A list of the profiles in a map lists what they are.
proof fn lemma_profile_listing(
    listing: Seq<(Seq<char>, ProviderProfile)>,
    providers: Map<Seq<char>, ProviderProfile>,
)
    requires
        string_map::lists_map(listing, providers),
    ensures
        profile_listing(listing) == string_map::listing_of(profile_views(providers)),
{
    let views = profile_listing(listing);
    let map = profile_views(providers);
    assert(string_map::keys_of(views) =~= string_map::keys_of(listing));
    assert forall|k: Seq<char>| #[trigger] map.contains_key(k) <==> string_map::keys_of(views).contains(k) by {
        assert(providers.contains_key(k) <==> string_map::keys_of(listing).contains(k));
    }
    assert forall|i: int| 0 <= i < views.len() implies map.contains_key((#[trigger] views[i]).0) && map[views[i].0]
        == views[i].1 by {
        assert(providers.contains_key(listing[i].0) && providers[listing[i].0] == listing[i].1);
    }
    assert(string_map::lists_map(views, map));
    string_map::lemma_listing_unique(views, string_map::listing_of(map), map);
}

/// Adds the choices among the models of a provider.
fn push_choices(choices: &mut Vec<ProviderModelChoice>, provider: &ProviderProfile)
    ensures
        final(choices).deep_view() == old(choices).deep_view() + provider_choices(provider@),
{
    let ghost before = choices.deep_view();
    if provider.enabled {
        let ids = provider.model_ids();
        let ghost added = provider_choices(provider@);
        let mut i: usize = 0;
        while i < ids.len()
            invariant
                i <= ids@.len(),
                provider.enabled,
                ids.deep_view() == provider@.model_ids(),
                added == provider_choices(provider@),
                choices.deep_view() == before + added.take(i as int),
            decreases ids@.len() - i,
        {
            let ghost so_far = choices.deep_view();
            let choice = ProviderModelChoice::new(provider, ids[i].clone());
            let ghost pushed = choice@;
            choices.push(choice);
            proof {
                assert(ids.deep_view()[i as int] == ids@[i as int]@);
                assert(choices.deep_view() =~= so_far.push(pushed));
                assert(added.take(i + 1) =~= added.take(i as int).push(pushed));
                assert(choices.deep_view() =~= before + added.take(i + 1));
            }
            i = i + 1;
        }
        proof {
            assert(added.take(i as int) =~= added);
        }
    } else {
        proof {
            assert(choices.deep_view() =~= before + provider_choices(provider@));
        }
    }
}

impl ProviderRegistry {
    /// The models of enabled providers, provider after provider in the order of
    /// the ids.
    pub fn enabled_model_choices(&self) -> (r: Vec<ProviderModelChoice>)
        ensures
            r.deep_view() == self@.choices(),
    {
        let mut choices: Vec<ProviderModelChoice> = Vec::new();
        let n = self.providers.len();
        let ghost listing = profile_listing(self.providers.listing());
        proof {
            lemma_profile_listing(self.providers.listing(), self.providers@);
            assert(choices.deep_view() =~= listed_choices(listing.take(0)));
        }
        let mut i: usize = 0;
        while i < n
            invariant
                i <= n,
                n == self.providers.listing().len(),
                listing == profile_listing(self.providers.listing()),
                choices.deep_view() == listed_choices(listing.take(i as int)),
            decreases n - i,
        {
            push_choices(&mut choices, self.providers.value_at(i));
            proof {
                let next = listing.take(i + 1);
                assert(next.drop_last() =~= listing.take(i as int));
                assert(next.last() == listing[i as int]);
            }
            i = i + 1;
        }
        proof {
            assert(listing.take(i as int) =~= listing);
        }
        choices
    }

    /// The provider and model that a request asks for.
    pub fn select(&self, requested_model: Option<&str>) -> (r: ProviderQualifiedModelId)
        ensures
            r@ == self@.selection(opt_text(requested_model)),
    {
        match requested_model {
            Some(model) => match ProviderQualifiedModelId::parse(model) {
                Some(id) => id,
                None => ProviderQualifiedModelId::new(WARP_HOSTED_PROVIDER_ID, model),
            },
            None => {
                let provider_id = match &self.defaults.agent_provider {
                    Some(id) => id.clone(),
                    None => WARP_HOSTED_PROVIDER_ID.to_string(),
                };
                let model_id = match &self.defaults.agent_model {
                    Some(model) => model.clone(),
                    None => "auto".to_string(),
                };
                ProviderQualifiedModelId { provider_id, model_id }
            },
        }
    }

    /// Picks the provider for a request.
    pub fn resolve_agent_provider(&self, requested_model: Option<&str>) -> (r: Result<
        ResolvedProvider,
        ProviderResolutionError,
    >)
        ensures
            exists|now: TimestampView| resolution_view(r) == #[trigger] self@.resolution(opt_text(requested_model), now),
    {
        let now = utc_now();
        let r = self.resolve_agent_provider_at(requested_model, &now);
        proof {
            assert(resolution_view(r) == self@.resolution(opt_text(requested_model), now@));
        }
        r
    }

    /// Picks the provider for a request at the instant `now`.
    pub fn resolve_agent_provider_at(&self, requested_model: Option<&str>, now: &Timestamp) -> (r: Result<
        ResolvedProvider,
        ProviderResolutionError,
    >)
        ensures
            resolution_view(r) == self@.resolution(opt_text(requested_model), now@),
    {
        let selection = self.select(requested_model);
        let provider = match self.providers.get(selection.provider_id.as_str()) {
            Some(provider) => provider,
            None => {
                return Err(ProviderResolutionError::UnknownProvider { provider_id: selection.provider_id });
            },
        };
        if !provider.enabled {
            return Err(ProviderResolutionError::DisabledProvider { provider_id: provider.id.clone() });
        }
        let ids = provider.model_ids();
        let model_known = contains_text(&ids, selection.model_id.as_str());
        let model_from_discovery = lists_model(&provider.discovered_models, selection.model_id.as_str());
        let discovery_is_stale = provider.is_stale_at(now);
        proof {
            assert(provider@.discovered_ids() =~= model_id_views(provider.discovered_models.deep_view()));
        }
        if model_from_discovery && discovery_is_stale && !provider.policy.allow_manual_model_ids {
            return Err(
                ProviderResolutionError::StaleModel { provider_id: provider.id.clone(), model_id: selection.model_id },
            );
        }
        if provider.kind.is_direct() && !model_known && !provider.policy.allow_manual_model_ids {
            return Err(
                ProviderResolutionError::UnknownModel {
                    provider_id: provider.id.clone(),
                    model_id: selection.model_id,
                },
            );
        }
        Ok(
            ResolvedProvider {
                profile_id: provider.id.clone(),
                kind: provider.kind,
                model: selection.model_id,
                base_url: provider.base_url.clone(),
                auth: ResolvedAuth::from(&provider.auth),
                headers: clone_headers(&provider.headers),
                capabilities: provider.capabilities.clone(),
                policy: provider.policy,
                defaults: provider.defaults.clone(),
            },
        )
    }
}

/// The value of an optional text.
pub open spec fn opt_text(s: Option<&str>) -> Option<Seq<char>> {
    match s {
        Some(s) => Some(s@),
        None => None,
    }
}

/// The ids of models.
pub open spec fn model_id_views(models: Seq<DiscoveredModelView>) -> Seq<Seq<char>> {
    Seq::new(models.len(), |i: int| models[i].id)
}

/// Is there a model with this id?
fn lists_model(models: &Vec<DiscoveredModel>, id: &str) -> (r: bool)
    ensures
        r == model_id_views(models.deep_view()).contains(id@),
{
    let ghost ids = model_id_views(models.deep_view());
    let mut i: usize = 0;
    while i < models.len()
        invariant
            i <= models@.len(),
            ids == model_id_views(models.deep_view()),
            forall|j: int| 0 <= j < i ==> ids[j] != id@,
        decreases models@.len() - i,
    {
        proof {
            assert(ids[i as int] == models@[i as int].id@);
        }
        if str_eq(models[i].id.as_str(), id) {
            proof {
                assert(ids.contains(ids[i as int]));
            }
            return true;
        }
        i = i + 1;
    }
    false
}

} // verus!
