//! Import and export of provider profiles.
//!
//! An exported profile can be shared: it names secrets, by their place in the
//! keychain or by an environment variable, and never holds one. An imported
//! profile tells whether its secret has still to be given.
use vstd::prelude::*;
use vstd::std_specs::convert::FromSpecImpl;
use vstd::string::StringExecFns;

use crate::profile;
use crate::profile::{
    clone_headers, clone_models, AuthConfigView, DiscoveredModelView, ProviderCapabilitiesView, ProviderDefaultsView,
    ProviderDiscoveryView, ProviderProfileView,
};
use crate::provider_registry::{
    AuthConfig, AuthSource, DiscoveredModel, DiscoveredModelSource, ProviderCapabilities, ProviderDefaults,
    ProviderDiscovery, ProviderKind, ProviderPolicy, ProviderProfile, ProviderRegistry, ProviderRegistryView,
};
use crate::string_map::StringMap;

verus! {

/// The version of the export format.
pub const EXPORT_VERSION: u32 = 1;

/// Auth configuration of an exported profile. It never holds a secret.
#[derive(Debug, PartialEq)]
pub enum ExportedAuthConfig {
    NoAuth,
    ApiKey { source: AuthSource, secret_ref: Option<String>, env_var: Option<String> },
    BearerToken { source: AuthSource, secret_ref: Option<String> },
}

/// What an [`ExportedAuthConfig`] is.
pub enum ExportedAuthConfigView {
    NoAuth,
    ApiKey { source: AuthSource, secret_ref: Option<Seq<char>>, env_var: Option<Seq<char>> },
    BearerToken { source: AuthSource, secret_ref: Option<Seq<char>> },
}

impl View for ExportedAuthConfig {
    type V = ExportedAuthConfigView;

    open spec fn view(&self) -> ExportedAuthConfigView {
        match self {
            ExportedAuthConfig::NoAuth => ExportedAuthConfigView::NoAuth,
            ExportedAuthConfig::ApiKey { source, secret_ref, env_var } => ExportedAuthConfigView::ApiKey {
                source: *source,
                secret_ref: secret_ref.deep_view(),
                env_var: env_var.deep_view(),
            },
            ExportedAuthConfig::BearerToken { source, secret_ref } => ExportedAuthConfigView::BearerToken {
                source: *source,
                secret_ref: secret_ref.deep_view(),
            },
        }
    }
}

impl Clone for ExportedAuthConfig {
    fn clone(&self) -> (r: Self)
        ensures
            r@ == self@,
    {
        match self {
            ExportedAuthConfig::NoAuth => ExportedAuthConfig::NoAuth,
            ExportedAuthConfig::ApiKey { source, secret_ref, env_var } => ExportedAuthConfig::ApiKey {
                source: *source,
                secret_ref: secret_ref.clone(),
                env_var: env_var.clone(),
            },
            ExportedAuthConfig::BearerToken { source, secret_ref } => ExportedAuthConfig::BearerToken {
                source: *source,
                secret_ref: secret_ref.clone(),
            },
        }
    }
}

impl ExportedAuthConfigView {
    /// The references of an auth configuration.
    pub open spec fn of(auth: AuthConfigView) -> Self {
        match auth {
            AuthConfigView::NoAuth => ExportedAuthConfigView::NoAuth,
            AuthConfigView::ApiKey { source, secret_ref, env_var } => ExportedAuthConfigView::ApiKey {
                source,
                secret_ref,
                env_var,
            },
            AuthConfigView::BearerToken { source, secret_ref } => ExportedAuthConfigView::BearerToken {
                source,
                secret_ref: Some(secret_ref),
            },
        }
    }

    /// The auth configuration with these references.
    pub open spec fn imported(self) -> AuthConfigView {
        match self {
            ExportedAuthConfigView::NoAuth => AuthConfigView::NoAuth,
            ExportedAuthConfigView::ApiKey { source, secret_ref, env_var } => AuthConfigView::ApiKey {
                source,
                secret_ref,
                env_var,
            },
            ExportedAuthConfigView::BearerToken { source, secret_ref } => AuthConfigView::BearerToken {
                source,
                secret_ref: match secret_ref {
                    Some(place) => place,
                    None => Seq::empty(),
                },
            },
        }
    }

    /// The environment variable that the secret comes from, if it comes from
    /// one. A variable without a name counts as one with an empty name.
    pub open spec fn required_env_var(self) -> Option<Seq<char>> {
        match self {
            ExportedAuthConfigView::ApiKey { source: AuthSource::Env, env_var, .. } => match env_var {
                Some(name) => Some(name),
                None => Some(Seq::empty()),
            },
            _ => None,
        }
    }

    /// Has the secret still to be given, if `env_var_set` says whether the
    /// environment variable is set?
    pub open spec fn needs_secret(self, env_var_set: bool) -> bool {
        match self {
            ExportedAuthConfigView::NoAuth => false,
            ExportedAuthConfigView::ApiKey { source: AuthSource::Env, .. } => !env_var_set,
            _ => true,
        }
    }

    /// How the secret can be given, where it is needed.
    pub open spec fn secret_hint(self, env_var_set: bool) -> Option<Seq<char>> {
        if !self.needs_secret(env_var_set) {
            None
        } else {
            match self {
                ExportedAuthConfigView::ApiKey { source: AuthSource::Env, .. } => Some(
                    "Set the `"@ + self.required_env_var()->0 + "` environment variable"@,
                ),
                ExportedAuthConfigView::BearerToken { .. } => Some(
                    "Enter the bearer token to store in your keychain"@,
                ),
                _ => Some("Enter the API key to store in your keychain"@),
            }
        }
    }
}

impl From<&AuthConfig> for ExportedAuthConfig {
    fn from(auth: &AuthConfig) -> (r: Self)
        ensures
            r@ == ExportedAuthConfigView::of(auth@),
    {
        match auth {
            AuthConfig::NoAuth => ExportedAuthConfig::NoAuth,
            AuthConfig::ApiKey { source, secret_ref, env_var } => ExportedAuthConfig::ApiKey {
                source: *source,
                secret_ref: secret_ref.clone(),
                env_var: env_var.clone(),
            },
            AuthConfig::BearerToken { source, secret_ref } => ExportedAuthConfig::BearerToken {
                source: *source,
                secret_ref: Some(secret_ref.clone()),
            },
        }
    }
}

impl FromSpecImpl<&AuthConfig> for ExportedAuthConfig {
    open spec fn obeys_from_spec() -> bool {
        true
    }

    open spec fn from_spec(auth: &AuthConfig) -> Self {
        match auth {
            AuthConfig::NoAuth => ExportedAuthConfig::NoAuth,
            AuthConfig::ApiKey { source, secret_ref, env_var } => ExportedAuthConfig::ApiKey {
                source: *source,
                secret_ref: *secret_ref,
                env_var: *env_var,
            },
            AuthConfig::BearerToken { source, secret_ref } => ExportedAuthConfig::BearerToken {
                source: *source,
                secret_ref: Some(*secret_ref),
            },
        }
    }
}

/// A provider profile that can be shared.
#[derive(Debug, PartialEq)]
pub struct ExportedProviderProfile {
    pub id: String,
    pub kind: ProviderKind,
    pub display_name: String,
    pub base_url: String,
    pub auth: ExportedAuthConfig,
    pub headers: StringMap<String>,
    pub defaults: ProviderDefaults,
    pub capabilities: ProviderCapabilities,
    pub policy: ProviderPolicy,
    pub discovery: ProviderDiscovery,
    pub discovered_models: Vec<DiscoveredModel>,
}

/// What an [`ExportedProviderProfile`] is.
pub struct ExportedProviderProfileView {
    pub id: Seq<char>,
    pub kind: ProviderKind,
    pub display_name: Seq<char>,
    pub base_url: Seq<char>,
    pub auth: ExportedAuthConfigView,
    pub headers: Map<Seq<char>, Seq<char>>,
    pub defaults: ProviderDefaultsView,
    pub capabilities: ProviderCapabilitiesView,
    pub policy: ProviderPolicy,
    pub discovery: ProviderDiscoveryView,
    pub discovered_models: Seq<DiscoveredModelView>,
}

impl DeepView for ExportedProviderProfile {
    type V = ExportedProviderProfileView;

    open spec fn deep_view(&self) -> ExportedProviderProfileView {
        ExportedProviderProfileView {
            id: self.id@,
            kind: self.kind,
            display_name: self.display_name@,
            base_url: self.base_url@,
            auth: self.auth@,
            headers: profile::header_views(self.headers@),
            defaults: self.defaults@,
            capabilities: self.capabilities@,
            policy: self.policy,
            discovery: self.discovery@,
            discovered_models: self.discovered_models.deep_view(),
        }
    }
}

impl View for ExportedProviderProfile {
    type V = ExportedProviderProfileView;

    open spec fn view(&self) -> ExportedProviderProfileView {
        self.deep_view()
    }
}

impl Clone for ExportedProviderProfile {
    fn clone(&self) -> (r: Self)
        ensures
            r@ == self@,
    {
        ExportedProviderProfile {
            id: self.id.clone(),
            kind: self.kind,
            display_name: self.display_name.clone(),
            base_url: self.base_url.clone(),
            auth: self.auth.clone(),
            headers: clone_headers(&self.headers),
            defaults: self.defaults.clone(),
            capabilities: self.capabilities.clone(),
            policy: self.policy,
            discovery: self.discovery.clone(),
            discovered_models: clone_models(&self.discovered_models),
        }
    }
}

/// The models that do not come from Warp, in their order.
pub open spec fn own_models(models: Seq<DiscoveredModelView>) -> Seq<DiscoveredModelView>
    decreases models.len(),
{
    if models.len() == 0 {
        Seq::empty()
    } else if models.last().source == DiscoveredModelSource::WarpHosted {
        own_models(models.drop_last())
    } else {
        own_models(models.drop_last()).push(models.last())
    }
}

impl ExportedProviderProfileView {
    /// What is shared of a profile: all but whether it is enabled, its cache,
    /// and the models that come from Warp.
    pub open spec fn of(provider: ProviderProfileView) -> Self {
        ExportedProviderProfileView {
            id: provider.id,
            kind: provider.kind,
            display_name: provider.display_name,
            base_url: provider.base_url,
            auth: ExportedAuthConfigView::of(provider.auth),
            headers: provider.headers,
            defaults: provider.defaults,
            capabilities: provider.capabilities,
            policy: provider.policy,
            discovery: provider.discovery,
            discovered_models: own_models(provider.discovered_models),
        }
    }

    /// The profile that is imported: enabled, not validated yet.
    pub open spec fn imported(self) -> ProviderProfileView {
        ProviderProfileView {
            id: self.id,
            kind: self.kind,
            enabled: true,
            display_name: self.display_name,
            base_url: self.base_url,
            auth: self.auth.imported(),
            headers: self.headers,
            defaults: self.defaults,
            capabilities: self.capabilities,
            policy: self.policy,
            discovery: self.discovery,
            discovered_models: self.discovered_models,
            validation_cache: None,
        }
    }
}

/// The models that do not come from Warp, in their order.
fn clone_own_models(models: &Vec<DiscoveredModel>) -> (r: Vec<DiscoveredModel>)
    ensures
        r.deep_view() == own_models(models.deep_view()),
{
    let mut r: Vec<DiscoveredModel> = Vec::new();
    let ghost all = models.deep_view();
    proof {
        assert(r.deep_view() =~= own_models(all.take(0)));
    }
    let mut i: usize = 0;
    while i < models.len()
        invariant
            i <= models@.len(),
            all == models.deep_view(),
            r.deep_view() == own_models(all.take(i as int)),
        decreases models@.len() - i,
    {
        let ghost before = r.deep_view();
        proof {
            assert(all.take(i + 1).drop_last() =~= all.take(i as int));
            assert(all.take(i + 1).last() == models@[i as int]@);
        }
        if models[i].source != DiscoveredModelSource::WarpHosted {
            let model = models[i].clone();
            let ghost pushed = model@;
            r.push(model);
            proof {
                assert(r.deep_view() =~= before.push(pushed));
            }
        }
        i = i + 1;
    }
    proof {
        assert(all.take(i as int) =~= all);
    }
    r
}

impl From<&ProviderProfile> for ExportedProviderProfile {
    fn from(profile: &ProviderProfile) -> (r: Self)
        ensures
            r@ == ExportedProviderProfileView::of(profile@),
    {
        ExportedProviderProfile {
            id: profile.id.clone(),
            kind: profile.kind,
            display_name: profile.display_name.clone(),
            base_url: profile.base_url.clone(),
            auth: ExportedAuthConfig::from(&profile.auth),
            headers: clone_headers(&profile.headers),
            defaults: profile.defaults.clone(),
            capabilities: profile.capabilities.clone(),
            policy: profile.policy,
            discovery: profile.discovery.clone(),
            discovered_models: clone_own_models(&profile.discovered_models),
        }
    }
}

impl FromSpecImpl<&ProviderProfile> for ExportedProviderProfile {
    /// What `from` gives is stated by its own contract, over views.
    open spec fn obeys_from_spec() -> bool {
        false
    }

    open spec fn from_spec(profile: &ProviderProfile) -> Self {
        arbitrary()
    }
}

/// Exported provider profiles.
#[derive(Debug, PartialEq)]
pub struct ProviderExportTemplate {
    pub version: u32,
    pub providers: Vec<ExportedProviderProfile>,
}

impl Clone for ProviderExportTemplate {
    fn clone(&self) -> (r: Self)
        ensures
            r.version == self.version,
            r.providers.deep_view() == self.providers.deep_view(),
    {
        let providers = self.providers.clone();
        proof {
            assert(providers.deep_view() =~= self.providers.deep_view());
        }
        ProviderExportTemplate { version: self.version, providers }
    }
}

impl ProviderExportTemplate {
    /// A template in the current version of the format.
    pub fn new(providers: Vec<ExportedProviderProfile>) -> (r: Self)
        ensures
            r == (ProviderExportTemplate { version: EXPORT_VERSION, providers }),
    {
        ProviderExportTemplate { version: EXPORT_VERSION, providers }
    }
}

/// An imported profile, and whether the user has to give a secret before the
/// provider can be used.
#[derive(Debug)]
pub struct ImportResult {
    pub profile: ProviderProfile,
    pub needs_secret: bool,
    pub secret_hint: Option<String>,
}

/// Why a profile is not imported.
#[derive(Debug, PartialEq, Eq)]
pub enum ImportError {
    IdCollision(String),
}

impl ImportError {
    /// The message for the user.
    pub fn to_string(&self) -> (r: String)
        ensures
            r@ == "Provider ID '"@ + self->0@ + "' already exists in the registry"@,
    {
        match self {
            ImportError::IdCollision(id) => "Provider ID '".to_string().concat(id.as_str()).concat(
                "' already exists in the registry",
            ),
        }
    }
}

/// The environment variable that the secret of an exported profile comes from,
/// if it comes from one.
pub fn required_env_var(exported: &ExportedProviderProfile) -> (r: Option<String>)
    ensures
        r.deep_view() == exported@.auth.required_env_var(),
{
    match &exported.auth {
        ExportedAuthConfig::ApiKey { source: AuthSource::Env, env_var, .. } => match env_var {
            Some(name) => Some(name.clone()),
            None => {
                let name = String::new();
                proof {
                    assert(name@ =~= Seq::<char>::empty());
                }
                Some(name)
            },
        },
        _ => None,
    }
}

/// The auth configuration with the references of an exported one.
fn import_auth(auth: &ExportedAuthConfig) -> (r: AuthConfig)
    ensures
        r@ == auth@.imported(),
{
    match auth {
        ExportedAuthConfig::NoAuth => AuthConfig::NoAuth,
        ExportedAuthConfig::ApiKey { source, secret_ref, env_var } => AuthConfig::ApiKey {
            source: *source,
            secret_ref: secret_ref.clone(),
            env_var: env_var.clone(),
        },
        ExportedAuthConfig::BearerToken { source, secret_ref } => AuthConfig::BearerToken {
            source: *source,
            secret_ref: match secret_ref {
                Some(place) => place.clone(),
                None => String::new(),
            },
        },
    }
}

/// Whether the secret of an exported profile has still to be given, and how.
fn import_secret(exported: &ExportedProviderProfile, env_var_set: bool) -> (r: (bool, Option<String>))
    ensures
        r.0 == exported@.auth.needs_secret(env_var_set),
        r.1.deep_view() == exported@.auth.secret_hint(env_var_set),
{
    match &exported.auth {
        ExportedAuthConfig::NoAuth => (false, None),
        ExportedAuthConfig::ApiKey { source: AuthSource::Env, .. } => {
            if env_var_set {
                (false, None)
            } else {
                match required_env_var(exported) {
                    Some(name) => {
                        (true, Some("Set the `".to_string().concat(name.as_str()).concat("` environment variable")))
                    },
                    None => (true, None),
                }
            }
        },
        ExportedAuthConfig::ApiKey { source: AuthSource::Keychain, .. } => {
            (true, Some("Enter the API key to store in your keychain".to_string()))
        },
        ExportedAuthConfig::BearerToken { .. } => {
            (true, Some("Enter the bearer token to store in your keychain".to_string()))
        },
    }
}

/// Imports an exported profile whose id is free in the registry. `env_var_set`
/// tells whether the variable of [`required_env_var`] is set; it plays no part
/// where there is none.
pub fn import_provider(
    exported: &ExportedProviderProfile,
    registry: &ProviderRegistry,
    env_var_set: bool,
) -> (r: Result<ImportResult, ImportError>)
    ensures
        match r {
            Ok(result) => {
                &&& !registry@.providers.contains_key(exported@.id)
                &&& result.profile@ == exported@.imported()
                &&& result.needs_secret == exported@.auth.needs_secret(env_var_set)
                &&& result.secret_hint.deep_view() == exported@.auth.secret_hint(env_var_set)
            },
            Err(ImportError::IdCollision(id)) => {
                &&& registry@.providers.contains_key(exported@.id)
                &&& id@ == exported@.id
            },
        },
{
    if registry.providers.contains_key(exported.id.as_str()) {
        return Err(ImportError::IdCollision(exported.id.clone()));
    }
    let (needs_secret, secret_hint) = import_secret(exported, env_var_set);
    let mut profile = ProviderProfile::direct(
        exported.id.as_str(),
        exported.kind,
        exported.display_name.as_str(),
        Some(exported.base_url.clone()),
        import_auth(&exported.auth),
    );
    profile.headers = clone_headers(&exported.headers);
    profile.defaults = exported.defaults.clone();
    profile.capabilities = exported.capabilities.clone();
    profile.policy = exported.policy;
    profile.discovery = exported.discovery.clone();
    profile.discovered_models = clone_models(&exported.discovered_models);
    Ok(ImportResult { profile, needs_secret, secret_hint })
}

/// The auth configuration of a profile survives export and import.
pub proof fn law_auth_survives_export_and_import(auth: AuthConfigView)
    ensures
        ExportedAuthConfigView::of(auth).imported() == auth,
{
}

/// A profile survives export and import, except that it comes back enabled, not
/// validated, and without the models that come from Warp.
pub proof fn law_profile_survives_export_and_import(provider: ProviderProfileView)
    ensures
        ExportedProviderProfileView::of(provider).imported() == (ProviderProfileView {
            enabled: true,
            validation_cache: None,
            discovered_models: own_models(provider.discovered_models),
            ..provider
        }),
{
}

/// To export what was imported gives what was exported before, where a bearer
/// token has a reference.
pub proof fn law_import_survives_export(exported: ExportedProviderProfileView)
    requires
        exported.auth matches ExportedAuthConfigView::BearerToken { secret_ref, .. } ==> secret_ref is Some,
        own_models(exported.discovered_models) == exported.discovered_models,
    ensures
        ExportedProviderProfileView::of(exported.imported()) == exported,
{
}

/// An exported profile has no model that comes from Warp, and has every other.
pub proof fn law_export_drops_warp_models_only(models: Seq<DiscoveredModelView>, model: DiscoveredModelView)
    ensures
        own_models(models).contains(model) <==> models.contains(model) && model.source
            != DiscoveredModelSource::WarpHosted,
    decreases models.len(),
{
    if models.len() > 0 {
        let front = models.drop_last();
        let kept = own_models(front);
        law_export_drops_warp_models_only(front, model);
        assert(models =~= front.push(models.last()));
        assert(models[models.len() - 1] == models.last());
        if front.contains(model) {
            let n = choose|n: int| 0 <= n < front.len() && front[n] == model;
            assert(models[n] == model);
        }
        if models.contains(model) && model != models.last() {
            let n = choose|n: int| 0 <= n < models.len() && models[n] == model;
            assert(front[n] == model);
        }
        if models.last().source != DiscoveredModelSource::WarpHosted {
            let all = kept.push(models.last());
            assert(all[kept.len() as int] == models.last());
            if kept.contains(model) {
                let n = choose|n: int| 0 <= n < kept.len() && kept[n] == model;
                assert(all[n] == model);
            }
            if all.contains(model) && model != models.last() {
                let n = choose|n: int| 0 <= n < all.len() && all[n] == model;
                assert(kept[n] == model);
            }
        }
    }
}

/// To drop the models that come from Warp twice is to drop them once.
pub proof fn law_export_drops_warp_models_once(models: Seq<DiscoveredModelView>)
    ensures
        own_models(own_models(models)) == own_models(models),
    decreases models.len(),
{
    if models.len() > 0 {
        law_export_drops_warp_models_once(models.drop_last());
        let kept = own_models(models.drop_last());
        if models.last().source != DiscoveredModelSource::WarpHosted {
            assert(kept.push(models.last()).drop_last() =~= kept);
        }
    }
}

/// A hint comes if and only if a secret is needed.
pub proof fn law_hint_when_secret_needed(auth: ExportedAuthConfigView, env_var_set: bool)
    ensures
        auth.secret_hint(env_var_set) is Some <==> auth.needs_secret(env_var_set),
{
}

/// An imported profile can be added to the registry without touching another.
pub proof fn law_import_replaces_nothing(registry: ProviderRegistryView, exported: ExportedProviderProfileView, other: Seq<char>)
    requires
        !registry.providers.contains_key(exported.id),
        registry.providers.contains_key(other),
    ensures
        ({
            let after = registry.with_provider(exported.imported());
            &&& after.providers.contains_key(exported.id)
            &&& after.providers.contains_key(other)
            &&& after.providers[other] == registry.providers[other]
        }),
{
}

/// A secret has to be given again unless none is needed or its environment
/// variable is set, and the hint names that variable, or where a key or a token
/// is to be kept.
pub proof fn law_secrets_are_asked_for_where_they_are_missing(auth: ExportedAuthConfigView, env_var_set: bool)
    ensures
        match auth {
            ExportedAuthConfigView::NoAuth => !auth.needs_secret(env_var_set) && auth.required_env_var() is None,
            ExportedAuthConfigView::ApiKey { source, env_var, .. } => if source == AuthSource::Env {
                &&& auth.needs_secret(env_var_set) <==> !env_var_set
                &&& env_var is Some ==> auth.required_env_var() == env_var
                &&& env_var is None ==> auth.required_env_var() == Some(Seq::<char>::empty())
                &&& !env_var_set && env_var is Some ==> auth.secret_hint(env_var_set) == Some(
                    "Set the `"@ + env_var->0 + "` environment variable"@,
                )
            } else {
                &&& auth.needs_secret(env_var_set)
                &&& auth.required_env_var() is None
                &&& auth.secret_hint(env_var_set) == Some("Enter the API key to store in your keychain"@)
            },
            ExportedAuthConfigView::BearerToken { .. } => {
                &&& auth.needs_secret(env_var_set)
                &&& auth.required_env_var() is None
                &&& auth.secret_hint(env_var_set) == Some("Enter the bearer token to store in your keychain"@)
            },
        },
{
}

/// The models of an exported profile keep their order.
pub proof fn law_export_keeps_the_order_of_models(models: Seq<DiscoveredModelView>)
    ensures
        own_models(models) == models.filter(
            |model: DiscoveredModelView| model.source != DiscoveredModelSource::WarpHosted,
        ),
    decreases models.len(),
{
    reveal(Seq::filter);
    if models.len() > 0 {
        law_export_keeps_the_order_of_models(models.drop_last());
    }
}

} // verus!
