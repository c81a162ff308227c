//! How a provider that the client talks to itself is told who asks.
use vstd::prelude::*;
use vstd::string::StringExecFns;

use crate::api_keys::ApiKeys;
use crate::direct_error::{DirectProviderError, DirectProviderErrorClass, DirectProviderErrorView};
use crate::direct_request::DirectProviderRequest;
use crate::http_message::{push_header, HttpMethod, HttpRequest, HttpRequestView};
use crate::profile;
use crate::profile::{ProviderKind, ProviderProfileView, LEGACY_ANTHROPIC_SECRET_REF, LEGACY_OPENAI_SECRET_REF};
use crate::provider_registry::{ResolvedAuth, ResolvedAuthView, ResolvedProvider, ResolvedProviderView};
use crate::provider_validator;
use crate::provider_validator::{has_anthropic_api, ANTHROPIC_VERSION};
use crate::serde_values;
use crate::string_map;
use crate::string_map::StringMap;
use crate::text::{cat, str_eq};

verus! {

/// A secret that is presented with a request.
#[derive(Debug, PartialEq, Eq)]
pub enum AuthMaterial {
    NoAuth,
    ApiKey(String),
    BearerToken(String),
}

/// What an [`AuthMaterial`] is.
pub enum AuthMaterialView {
    NoAuth,
    ApiKey(Seq<char>),
    BearerToken(Seq<char>),
}

impl View for AuthMaterial {
    type V = AuthMaterialView;

    open spec fn view(&self) -> AuthMaterialView {
        match self {
            AuthMaterial::NoAuth => AuthMaterialView::NoAuth,
            AuthMaterial::ApiKey(key) => AuthMaterialView::ApiKey(key@),
            AuthMaterial::BearerToken(token) => AuthMaterialView::BearerToken(token@),
        }
    }
}

impl Clone for AuthMaterial {
    fn clone(&self) -> (r: Self)
        ensures
            r@ == self@,
    {
        match self {
            AuthMaterial::NoAuth => AuthMaterial::NoAuth,
            AuthMaterial::ApiKey(key) => AuthMaterial::ApiKey(key.clone()),
            AuthMaterial::BearerToken(token) => AuthMaterial::BearerToken(token.clone()),
        }
    }
}

/// Where the secret of a provider is looked up.
pub enum SecretLookup {
    /// Nowhere: it is known, or there is none.
    Nowhere,
    /// In this environment variable.
    Environment(String),
    /// In secure storage, under this reference.
    Storage(String),
}

/// What a [`SecretLookup`] is.
pub enum SecretLookupView {
    Nowhere,
    Environment(Seq<char>),
    Storage(Seq<char>),
}

impl View for SecretLookup {
    type V = SecretLookupView;

    open spec fn view(&self) -> SecretLookupView {
        match self {
            SecretLookup::Nowhere => SecretLookupView::Nowhere,
            SecretLookup::Environment(name) => SecretLookupView::Environment(name@),
            SecretLookup::Storage(reference) => SecretLookupView::Storage(reference@),
        }
    }
}

/// The stored key that a reference stands for, where it is one from before there
/// were profiles.
pub open spec fn legacy_key_of(
    kind: ProviderKind,
    secret_ref: Option<Seq<char>>,
    openai: Option<Seq<char>>,
    anthropic: Option<Seq<char>>,
) -> Option<Seq<char>> {
    if kind == ProviderKind::OpenAI && secret_ref == Some(LEGACY_OPENAI_SECRET_REF@) {
        openai
    } else if kind == ProviderKind::Anthropic && secret_ref == Some(LEGACY_ANTHROPIC_SECRET_REF@) {
        anthropic
    } else {
        None
    }
}

/// Where the secret of a provider is looked up. A stored key from before there
/// were profiles is not looked up.
pub open spec fn lookup_of(
    provider: ResolvedProviderView,
    openai: Option<Seq<char>>,
    anthropic: Option<Seq<char>>,
) -> SecretLookupView {
    match provider.auth {
        ResolvedAuthView::NoAuth => SecretLookupView::Nowhere,
        ResolvedAuthView::EnvApiKey { env_var } => match env_var {
            Some(name) => SecretLookupView::Environment(name),
            None => SecretLookupView::Nowhere,
        },
        ResolvedAuthView::KeychainApiKey { secret_ref } => {
            if legacy_key_of(provider.kind, secret_ref, openai, anthropic) is Some {
                SecretLookupView::Nowhere
            } else {
                match secret_ref {
                    Some(reference) => SecretLookupView::Storage(reference),
                    None => SecretLookupView::Nowhere,
                }
            }
        },
        ResolvedAuthView::KeychainBearerToken { secret_ref } => SecretLookupView::Storage(secret_ref),
    }
}

/// The error of a provider whose secret is not to be had.
pub open spec fn missing_secret(message: Seq<char>) -> DirectProviderErrorView {
    DirectProviderErrorView::plain(DirectProviderErrorClass::MissingSecret, message)
}

/// The secret of a provider when the lookup gave `found`, or why there is none.
pub open spec fn auth_of(
    provider: ResolvedProviderView,
    openai: Option<Seq<char>>,
    anthropic: Option<Seq<char>>,
    found: Option<Seq<char>>,
) -> Result<AuthMaterialView, DirectProviderErrorView> {
    match provider.auth {
        ResolvedAuthView::NoAuth => Ok(AuthMaterialView::NoAuth),
        ResolvedAuthView::EnvApiKey { env_var } => match (env_var, found) {
            (None, _) => Err(missing_secret("provider is missing an API key environment variable"@)),
            (Some(_), Some(value)) => Ok(AuthMaterialView::ApiKey(value)),
            (Some(name), None) => Err(missing_secret("environment variable "@ + name + " is not set"@)),
        },
        ResolvedAuthView::KeychainApiKey { secret_ref } => match legacy_key_of(
            provider.kind,
            secret_ref,
            openai,
            anthropic,
        ) {
            Some(key) => Ok(AuthMaterialView::ApiKey(key)),
            None => match (secret_ref, found) {
                (Some(_), Some(value)) => Ok(AuthMaterialView::ApiKey(value)),
                (_, _) => Err(missing_secret("provider API key secret is unavailable"@)),
            },
        },
        ResolvedAuthView::KeychainBearerToken { .. } => match found {
            Some(value) => Ok(AuthMaterialView::BearerToken(value)),
            None => Err(missing_secret("bearer token is not available in secure storage"@)),
        },
    }
}

/// What a secret, or the error in its place, is.
pub open spec fn auth_view(r: Result<AuthMaterial, DirectProviderError>) -> Result<
    AuthMaterialView,
    DirectProviderErrorView,
> {
    match r {
        Ok(auth) => Ok(auth@),
        Err(error) => Err(error@),
    }
}

/// The stored key that a reference stands for.
fn legacy_key(kind: ProviderKind, secret_ref: &Option<String>, legacy_api_keys: &ApiKeys) -> (r: Option<String>)
    ensures
        r.deep_view() == legacy_key_of(
            kind,
            secret_ref.deep_view(),
            legacy_api_keys.openai.deep_view(),
            legacy_api_keys.anthropic.deep_view(),
        ),
{
    match secret_ref {
        Some(reference) => match kind {
            ProviderKind::OpenAI => {
                if str_eq(reference.as_str(), LEGACY_OPENAI_SECRET_REF) {
                    legacy_api_keys.openai.clone()
                } else {
                    None
                }
            },
            ProviderKind::Anthropic => {
                if str_eq(reference.as_str(), LEGACY_ANTHROPIC_SECRET_REF) {
                    legacy_api_keys.anthropic.clone()
                } else {
                    None
                }
            },
            _ => None,
        },
        None => None,
    }
}

/// Where the secret of a provider is looked up.
pub fn secret_lookup(provider: &ResolvedProvider, legacy_api_keys: &ApiKeys) -> (r: SecretLookup)
    ensures
        r@ == lookup_of(
            provider@,
            legacy_api_keys.openai.deep_view(),
            legacy_api_keys.anthropic.deep_view(),
        ),
{
    match &provider.auth {
        ResolvedAuth::NoAuth => SecretLookup::Nowhere,
        ResolvedAuth::EnvApiKey { env_var } => match env_var {
            Some(name) => SecretLookup::Environment(name.clone()),
            None => SecretLookup::Nowhere,
        },
        ResolvedAuth::KeychainApiKey { secret_ref } => {
            if legacy_key(provider.kind, secret_ref, legacy_api_keys).is_some() {
                SecretLookup::Nowhere
            } else {
                match secret_ref {
                    Some(reference) => SecretLookup::Storage(reference.clone()),
                    None => SecretLookup::Nowhere,
                }
            }
        },
        ResolvedAuth::KeychainBearerToken { secret_ref } => SecretLookup::Storage(secret_ref.clone()),
    }
}

/// The secret of a provider when the lookup of [`secret_lookup`] gave `found`.
pub fn finish_auth(
    provider: &ResolvedProvider,
    legacy_api_keys: &ApiKeys,
    found: Option<String>,
) -> (r: Result<AuthMaterial, DirectProviderError>)
    ensures
        auth_view(r) == auth_of(
            provider@,
            legacy_api_keys.openai.deep_view(),
            legacy_api_keys.anthropic.deep_view(),
            found.deep_view(),
        ),
{
    match &provider.auth {
        ResolvedAuth::NoAuth => Ok(AuthMaterial::NoAuth),
        ResolvedAuth::EnvApiKey { env_var } => match env_var {
            None => Err(
                DirectProviderError::new(
                    DirectProviderErrorClass::MissingSecret,
                    "provider is missing an API key environment variable",
                ),
            ),
            Some(name) => match found {
                Some(value) => Ok(AuthMaterial::ApiKey(value)),
                None => {
                    let message = "environment variable ".to_string().concat(name.as_str()).concat(" is not set");
                    Err(DirectProviderError::new(DirectProviderErrorClass::MissingSecret, message.as_str()))
                },
            },
        },
        ResolvedAuth::KeychainApiKey { secret_ref } => {
            match legacy_key(provider.kind, secret_ref, legacy_api_keys) {
                Some(key) => {
                    return Ok(AuthMaterial::ApiKey(key));
                },
                None => {},
            }
            if secret_ref.is_some() {
                match found {
                    Some(value) => {
                        return Ok(AuthMaterial::ApiKey(value));
                    },
                    None => {},
                }
            }
            Err(
                DirectProviderError::new(
                    DirectProviderErrorClass::MissingSecret,
                    "provider API key secret is unavailable",
                ),
            )
        },
        ResolvedAuth::KeychainBearerToken { .. } => match found {
            Some(value) => Ok(AuthMaterial::BearerToken(value)),
            None => Err(
                DirectProviderError::new(
                    DirectProviderErrorClass::MissingSecret,
                    "bearer token is not available in secure storage",
                ),
            ),
        },
    }
}

/// The secret of a provider. `read_env` reads an environment variable and
/// `resolve_secret` secure storage; at most one of them is asked, and only where
/// the secret is not known.
pub fn resolve_auth(
    provider: &ResolvedProvider,
    legacy_api_keys: &ApiKeys,
    read_env: impl Fn(&str) -> Option<String>,
    resolve_secret: impl Fn(&str) -> Option<String>,
) -> (r: Result<AuthMaterial, DirectProviderError>)
    requires
        forall|name: &str| call_requires(read_env, (name,)),
        forall|reference: &str| call_requires(resolve_secret, (reference,)),
    ensures
        ({
            let openai = legacy_api_keys.openai.deep_view();
            let anthropic = legacy_api_keys.anthropic.deep_view();
            match lookup_of(provider@, openai, anthropic) {
                SecretLookupView::Nowhere => auth_view(r) == auth_of(provider@, openai, anthropic, None),
                SecretLookupView::Environment(wanted) => exists|name: &str, found: Option<String>|
                    name@ == wanted && #[trigger] call_ensures(read_env, (name,), found) && auth_view(r) == auth_of(
                        provider@,
                        openai,
                        anthropic,
                        found.deep_view(),
                    ),
                SecretLookupView::Storage(wanted) => exists|reference: &str, found: Option<String>|
                    reference@ == wanted && #[trigger] call_ensures(resolve_secret, (reference,), found) && auth_view(
                        r,
                    ) == auth_of(provider@, openai, anthropic, found.deep_view()),
            }
        }),
{
    match secret_lookup(provider, legacy_api_keys) {
        SecretLookup::Nowhere => finish_auth(provider, legacy_api_keys, None),
        SecretLookup::Environment(name) => {
            let found = read_env(name.as_str());
            finish_auth(provider, legacy_api_keys, found)
        },
        SecretLookup::Storage(reference) => {
            let found = resolve_secret(reference.as_str());
            finish_auth(provider, legacy_api_keys, found)
        },
    }
}

/// The headers that present a secret to a provider of this kind.
pub open spec fn auth_headers_of(kind: ProviderKind, auth: AuthMaterialView) -> Seq<(Seq<char>, Seq<char>)> {
    match auth {
        AuthMaterialView::NoAuth => Seq::empty(),
        AuthMaterialView::ApiKey(key) => if provider_validator::speaks_anthropic(kind) {
            seq![("x-api-key"@, key), ("anthropic-version"@, ANTHROPIC_VERSION@)]
        } else {
            seq![("Authorization"@, "Bearer "@ + key)]
        },
        AuthMaterialView::BearerToken(token) => seq![("Authorization"@, "Bearer "@ + token)],
    }
}

/// Adds the headers that present a secret to a provider of this kind.
pub fn apply_auth(headers: &mut Vec<(String, String)>, provider_kind: ProviderKind, auth: &AuthMaterial)
    ensures
        serde_values::pair_views(final(headers)@) == serde_values::pair_views(old(headers)@) + auth_headers_of(
            provider_kind,
            auth@,
        ),
{
    let ghost before = serde_values::pair_views(headers@);
    match auth {
        AuthMaterial::NoAuth => {},
        AuthMaterial::ApiKey(key) => {
            if has_anthropic_api(provider_kind) {
                push_header(headers, "x-api-key", key.as_str());
                push_header(headers, "anthropic-version", ANTHROPIC_VERSION);
            } else {
                push_header(headers, "Authorization", cat("Bearer ", key.as_str()).as_str());
            }
        },
        AuthMaterial::BearerToken(token) => {
            push_header(headers, "Authorization", cat("Bearer ", token.as_str()).as_str());
        },
    }
    proof {
        assert(serde_values::pair_views(headers@) =~= before + auth_headers_of(provider_kind, auth@));
    }
}

/// Headers in the order of their names.
pub open spec fn listed_headers(headers: Map<Seq<char>, Seq<char>>) -> Seq<(Seq<char>, Seq<char>)> {
    string_map::listing_of(headers)
}

/// A list of headers, by their texts.
proof fn lemma_header_listing(listing: Seq<(Seq<char>, String)>, headers: Map<Seq<char>, String>)
    requires
        string_map::lists_map(listing, headers),
    ensures
        Seq::new(listing.len(), |i: int| (listing[i].0, listing[i].1@)) == listed_headers(
            profile::header_views(headers),
        ),
{
    let views = Seq::new(listing.len(), |i: int| (listing[i].0, listing[i].1@));
    let map = profile::header_views(headers);
    assert(string_map::keys_of(views) =~= string_map::keys_of(listing));
    assert forall|k: Seq<char>| #[trigger] map.contains_key(k) <==> string_map::keys_of(views).contains(k) by {
        assert(headers.contains_key(k) <==> string_map::keys_of(listing).contains(k));
    }
    assert forall|i: int| 0 <= i < views.len() implies map.contains_key((#[trigger] views[i]).0) && map[views[i].0]
        == views[i].1 by {
        assert(headers.contains_key(listing[i].0) && headers[listing[i].0] == listing[i].1);
    }
    assert(string_map::lists_map(views, map));
    string_map::lemma_listing_unique(views, string_map::listing_of(map), map);
}

/// The request as it is sent: with the headers of the provider, and those that
/// present the secret.
pub fn http_request(
    request: &DirectProviderRequest,
    headers: &StringMap<String>,
    auth: &AuthMaterial,
) -> (r: HttpRequest)
    ensures
        r@ == (HttpRequestView {
            method: HttpMethod::Post,
            url: request@.url,
            headers: listed_headers(profile::header_views(headers@)) + auth_headers_of(request@.kind, auth@),
            body: Some(request@.body),
        }),
{
    let mut list: Vec<(String, String)> = Vec::new();
    let n = headers.len();
    let ghost listing = headers.listing();
    let ghost all = Seq::new(listing.len(), |i: int| (listing[i].0, listing[i].1@));
    proof {
        lemma_header_listing(listing, headers@);
    }
    let mut i: usize = 0;
    while i < n
        invariant
            i <= n,
            n == listing.len(),
            listing == headers.listing(),
            all == Seq::new(listing.len(), |i: int| (listing[i].0, listing[i].1@)),
            serde_values::pair_views(list@) == all.take(i as int),
        decreases n - i,
    {
        push_header(&mut list, headers.key_at(i).as_str(), headers.value_at(i).as_str());
        proof {
            assert(all.take(i + 1) =~= all.take(i as int).push(all[i as int]));
        }
        i = i + 1;
    }
    proof {
        assert(all.take(i as int) =~= all);
    }
    apply_auth(&mut list, request.kind, auth);
    HttpRequest { method: HttpMethod::Post, url: request.url.clone(), headers: list, body: Some(request.body.clone()) }
}

/// A provider that needs a secret is never asked without one.
pub proof fn law_missing_secret_stops_the_request(
    provider: ResolvedProviderView,
    openai: Option<Seq<char>>,
    anthropic: Option<Seq<char>>,
    found: Option<Seq<char>>,
)
    ensures
        auth_of(provider, openai, anthropic, found) == Ok::<AuthMaterialView, DirectProviderErrorView>(
            AuthMaterialView::NoAuth,
        ) <==> provider.auth == ResolvedAuthView::NoAuth,
        auth_of(provider, openai, anthropic, found) matches Err(error) ==> error.class
            == DirectProviderErrorClass::MissingSecret,
{
}

/// A key that was stored before is used by the profile that was made for it: the
/// user does not give it again, and nothing is looked up.
pub proof fn law_stored_keys_are_used(
    openai: Seq<char>,
    anthropic: Seq<char>,
    other: Option<Seq<char>>,
    found: Option<Seq<char>>,
    model: Seq<char>,
    anthropic_model: Seq<char>,
)
    ensures
        ({
            let provider = ResolvedProviderView::of(ProviderProfileView::legacy_openai(), model);
            &&& lookup_of(provider, Some(openai), other) == SecretLookupView::Nowhere
            &&& auth_of(provider, Some(openai), other, found) == Ok::<AuthMaterialView, DirectProviderErrorView>(
                AuthMaterialView::ApiKey(openai),
            )
        }),
        ({
            let provider = ResolvedProviderView::of(ProviderProfileView::legacy_anthropic(anthropic_model), model);
            &&& lookup_of(provider, other, Some(anthropic)) == SecretLookupView::Nowhere
            &&& auth_of(provider, other, Some(anthropic), found) == Ok::<AuthMaterialView, DirectProviderErrorView>(
                AuthMaterialView::ApiKey(anthropic),
            )
        }),
{
}

/// A secret is looked up where the profile says, under the name that it gives,
/// and what is found there is presented as it stands; where nothing is found,
/// the request is not made. A key from the environment or secure storage is a
/// key, and a bearer token is a bearer token.
pub proof fn law_secrets_are_presented_as_found(
    provider: ResolvedProviderView,
    name: Seq<char>,
    secret: Seq<char>,
)
    ensures
        provider.auth == (ResolvedAuthView::EnvApiKey { env_var: Some(name) }) ==> {
            &&& lookup_of(provider, None, None) == SecretLookupView::Environment(name)
            &&& auth_of(provider, None, None, Some(secret)) == Ok::<_, DirectProviderErrorView>(
                AuthMaterialView::ApiKey(secret),
            )
            &&& auth_of(provider, None, None, None) is Err
        },
        provider.auth == (ResolvedAuthView::KeychainApiKey { secret_ref: Some(name) }) ==> {
            &&& lookup_of(provider, None, None) == SecretLookupView::Storage(name)
            &&& auth_of(provider, None, None, Some(secret)) == Ok::<_, DirectProviderErrorView>(
                AuthMaterialView::ApiKey(secret),
            )
            &&& auth_of(provider, None, None, None) is Err
        },
        provider.auth == (ResolvedAuthView::KeychainBearerToken { secret_ref: name }) ==> {
            &&& lookup_of(provider, None, None) == SecretLookupView::Storage(name)
            &&& auth_of(provider, None, None, Some(secret)) == Ok::<_, DirectProviderErrorView>(
                AuthMaterialView::BearerToken(secret),
            )
            &&& auth_of(provider, None, None, None) is Err
        },
        provider.auth == (ResolvedAuthView::EnvApiKey { env_var: None }) || provider.auth == (
        ResolvedAuthView::KeychainApiKey { secret_ref: None }) ==> {
            &&& lookup_of(provider, None, None) == SecretLookupView::Nowhere
            &&& auth_of(provider, None, None, Some(secret)) is Err
        },
{
}

/// A key that was stored before goes to the provider that it is for, under the
/// reference that was made for it, and to no other: for any other kind or
/// reference it makes no difference.
pub proof fn law_stored_keys_go_nowhere_else(
    provider: ResolvedProviderView,
    openai: Option<Seq<char>>,
    anthropic: Option<Seq<char>>,
    found: Option<Seq<char>>,
)
    requires
        !(provider.kind == ProviderKind::OpenAI && provider.auth == (ResolvedAuthView::KeychainApiKey {
            secret_ref: Some(LEGACY_OPENAI_SECRET_REF@),
        })),
        !(provider.kind == ProviderKind::Anthropic && provider.auth == (ResolvedAuthView::KeychainApiKey {
            secret_ref: Some(LEGACY_ANTHROPIC_SECRET_REF@),
        })),
    ensures
        lookup_of(provider, openai, anthropic) == lookup_of(provider, None, None),
        auth_of(provider, openai, anthropic, found) == auth_of(provider, None, None, found),
{
}

/// The user is told which secret is missing.
pub proof fn law_missing_secrets_are_told(provider: ResolvedProviderView, name: Seq<char>)
    ensures
        provider.auth == (ResolvedAuthView::EnvApiKey { env_var: Some(name) }) ==> (auth_of(provider, None, None, None)
            matches Err(error) && error.message == "environment variable "@ + name + " is not set"@),
        provider.auth == (ResolvedAuthView::EnvApiKey { env_var: None }) ==> (auth_of(provider, None, None, None)
            matches Err(error) && error.message == "provider is missing an API key environment variable"@),
        provider.auth is KeychainApiKey ==> (auth_of(provider, None, None, None) matches Err(error) && error.message
            == "provider API key secret is unavailable"@),
        provider.auth is KeychainBearerToken ==> (auth_of(provider, None, None, None) matches Err(error)
            && error.message == "bearer token is not available in secure storage"@),
{
}

} // verus!
