//! Checking a provider: what to ask its endpoint, and what the answers mean.
use std::time::Duration;

use vstd::prelude::*;
use vstd::string::StringExecFns;

use crate::clock;
use crate::clock::{utc_now, Timestamp, TimestampView, LONGEST_NANOS};
use crate::http_message::{push_header, HttpMethod, HttpReply, HttpReplyView, HttpRequest, HttpRequestView};
use crate::json;
use crate::json::{object2, object3, Json, JsonNumber, JsonNumberView, JsonView};
use crate::profile::{
    clone_models, AuthConfig, AuthConfigView, AuthSource, DiscoveredModel, DiscoveredModelSource, DiscoveredModelView,
    DiscoveryStrategy, ProviderCapabilities, ProviderCapabilitiesView, ProviderKind, ProviderProfile,
    ProviderProfileView,
};
use crate::serde_values;
use crate::serde_values::parse_json;
use crate::text;
use crate::text::{can_cut_at, cat, cut_at, is_longer_than, trim_trailing_slashes};

verus! {

/// Validation error classified by failure mode.
#[derive(Debug, PartialEq, Eq)]
pub enum ValidationError {
    AuthFailure { detail: String, http_status: u16 },
    EndpointUnreachable { detail: String },
    Timeout,
    InvalidSchema { detail: String },
    UnsupportedCapability { detail: String },
    RateLimit { detail: String, retry_after_secs: Option<u64> },
    StreamInterrupted { detail: String },
    UnknownProviderError { detail: String, http_status: u16 },
}

/// What a [`ValidationError`] is.
pub enum ValidationErrorView {
    AuthFailure { detail: Seq<char>, http_status: u16 },
    EndpointUnreachable { detail: Seq<char> },
    Timeout,
    InvalidSchema { detail: Seq<char> },
    UnsupportedCapability { detail: Seq<char> },
    RateLimit { detail: Seq<char>, retry_after_secs: Option<u64> },
    StreamInterrupted { detail: Seq<char> },
    UnknownProviderError { detail: Seq<char>, http_status: u16 },
}

impl DeepView for ValidationError {
    type V = ValidationErrorView;

    open spec fn deep_view(&self) -> ValidationErrorView {
        match self {
            ValidationError::AuthFailure { detail, http_status } => ValidationErrorView::AuthFailure {
                detail: detail@,
                http_status: *http_status,
            },
            ValidationError::EndpointUnreachable { detail } => ValidationErrorView::EndpointUnreachable {
                detail: detail@,
            },
            ValidationError::Timeout => ValidationErrorView::Timeout,
            ValidationError::InvalidSchema { detail } => ValidationErrorView::InvalidSchema { detail: detail@ },
            ValidationError::UnsupportedCapability { detail } => ValidationErrorView::UnsupportedCapability {
                detail: detail@,
            },
            ValidationError::RateLimit { detail, retry_after_secs } => ValidationErrorView::RateLimit {
                detail: detail@,
                retry_after_secs: *retry_after_secs,
            },
            ValidationError::StreamInterrupted { detail } => ValidationErrorView::StreamInterrupted { detail: detail@ },
            ValidationError::UnknownProviderError { detail, http_status } => ValidationErrorView::UnknownProviderError {
                detail: detail@,
                http_status: *http_status,
            },
        }
    }
}

impl View for ValidationError {
    type V = ValidationErrorView;

    open spec fn view(&self) -> ValidationErrorView {
        self.deep_view()
    }
}

impl Clone for ValidationError {
    fn clone(&self) -> (r: Self)
        ensures
            r@ == self@,
    {
        match self {
            ValidationError::AuthFailure { detail, http_status } => ValidationError::AuthFailure {
                detail: detail.clone(),
                http_status: *http_status,
            },
            ValidationError::EndpointUnreachable { detail } => ValidationError::EndpointUnreachable {
                detail: detail.clone(),
            },
            ValidationError::Timeout => ValidationError::Timeout,
            ValidationError::InvalidSchema { detail } => ValidationError::InvalidSchema { detail: detail.clone() },
            ValidationError::UnsupportedCapability { detail } => ValidationError::UnsupportedCapability {
                detail: detail.clone(),
            },
            ValidationError::RateLimit { detail, retry_after_secs } => ValidationError::RateLimit {
                detail: detail.clone(),
                retry_after_secs: *retry_after_secs,
            },
            ValidationError::StreamInterrupted { detail } => ValidationError::StreamInterrupted {
                detail: detail.clone(),
            },
            ValidationError::UnknownProviderError { detail, http_status } => ValidationError::UnknownProviderError {
                detail: detail.clone(),
                http_status: *http_status,
            },
        }
    }
}

impl ValidationErrorView {
    /// May the same check succeed when it is made again?
    pub open spec fn is_retryable(self) -> bool {
        ||| self is EndpointUnreachable
        ||| self is Timeout
        ||| self is StreamInterrupted
        ||| self is RateLimit
    }

    /// Is this the same failure mode?
    pub open spec fn same_mode(self, other: Self) -> bool {
        &&& self is AuthFailure <==> other is AuthFailure
        &&& self is EndpointUnreachable <==> other is EndpointUnreachable
        &&& self is Timeout <==> other is Timeout
        &&& self is InvalidSchema <==> other is InvalidSchema
        &&& self is UnsupportedCapability <==> other is UnsupportedCapability
        &&& self is RateLimit <==> other is RateLimit
        &&& self is StreamInterrupted <==> other is StreamInterrupted
        &&& self is UnknownProviderError <==> other is UnknownProviderError
    }

    /// The message for the user.
    pub open spec fn message(self) -> Seq<char> {
        match self {
            ValidationErrorView::AuthFailure { detail, .. } => "Authentication failed — "@ + detail,
            ValidationErrorView::EndpointUnreachable { detail } => "Provider endpoint unreachable — "@ + detail,
            ValidationErrorView::Timeout => "Request timed out"@,
            ValidationErrorView::InvalidSchema { detail } => "Invalid response schema — "@ + detail,
            ValidationErrorView::UnsupportedCapability { detail } => "Unsupported capability — "@ + detail,
            ValidationErrorView::RateLimit { detail, .. } => "Rate limited by provider — "@ + detail,
            ValidationErrorView::StreamInterrupted { detail } => "Stream interrupted — "@ + detail,
            ValidationErrorView::UnknownProviderError { detail, .. } => "Unknown provider error — "@ + detail,
        }
    }
}

impl ValidationError {
    /// May the same check succeed when it is made again?
    pub fn is_retryable(&self) -> (r: bool)
        ensures
            r == self@.is_retryable(),
    {
        match self {
            ValidationError::EndpointUnreachable { .. } => true,
            ValidationError::Timeout => true,
            ValidationError::StreamInterrupted { .. } => true,
            ValidationError::RateLimit { .. } => true,
            _ => false,
        }
    }

    /// The message for the user.
    pub fn to_string(&self) -> (r: String)
        ensures
            r@ == self@.message(),
    {
        match self {
            ValidationError::AuthFailure { detail, .. } => "Authentication failed — ".to_string().concat(
                detail.as_str(),
            ),
            ValidationError::EndpointUnreachable { detail } => "Provider endpoint unreachable — ".to_string().concat(
                detail.as_str(),
            ),
            ValidationError::Timeout => "Request timed out".to_string(),
            ValidationError::InvalidSchema { detail } => "Invalid response schema — ".to_string().concat(
                detail.as_str(),
            ),
            ValidationError::UnsupportedCapability { detail } => "Unsupported capability — ".to_string().concat(
                detail.as_str(),
            ),
            ValidationError::RateLimit { detail, .. } => "Rate limited by provider — ".to_string().concat(
                detail.as_str(),
            ),
            ValidationError::StreamInterrupted { detail } => "Stream interrupted — ".to_string().concat(
                detail.as_str(),
            ),
            ValidationError::UnknownProviderError { detail, .. } => "Unknown provider error — ".to_string().concat(
                detail.as_str(),
            ),
        }
    }
}

/// How a validation ended.
#[derive(Clone, Copy, Debug, PartialEq, Eq, Structural)]
pub enum ValidationStatus {
    Success,
    Failed,
    Partial,
}

/// Minimal model info returned from discovery.
#[derive(Debug, PartialEq, Eq)]
pub struct DiscoveredModelInfo {
    pub id: String,
    pub display_name: Option<String>,
}

/// What a [`DiscoveredModelInfo`] is.
pub struct DiscoveredModelInfoView {
    pub id: Seq<char>,
    pub display_name: Option<Seq<char>>,
}

impl DeepView for DiscoveredModelInfo {
    type V = DiscoveredModelInfoView;

    open spec fn deep_view(&self) -> DiscoveredModelInfoView {
        DiscoveredModelInfoView { id: self.id@, display_name: self.display_name.deep_view() }
    }
}

impl View for DiscoveredModelInfo {
    type V = DiscoveredModelInfoView;

    open spec fn view(&self) -> DiscoveredModelInfoView {
        self.deep_view()
    }
}

impl Clone for DiscoveredModelInfo {
    fn clone(&self) -> (r: Self)
        ensures
            r@ == self@,
    {
        DiscoveredModelInfo { id: self.id.clone(), display_name: self.display_name.clone() }
    }
}

/// The level of validation to perform.
#[derive(Clone, Copy, Debug, PartialEq, Eq, Structural)]
pub enum ValidationLevel {
    /// Quick check: ask for the list of models to verify connectivity and auth.
    Cheap,
    /// Deep check: send a minimal inference request to verify the model works end-to-end.
    Deep,
}

/// Result of a validation attempt.
#[derive(Debug, PartialEq)]
pub struct ValidationResult {
    pub status: ValidationStatus,
    pub error: Option<ValidationError>,
    pub discovered_models: Option<Vec<DiscoveredModelInfo>>,
    pub response_time_ms: Option<u64>,
    pub model: Option<String>,
}

/// What a [`ValidationResult`] is.
pub struct ValidationResultView {
    pub status: ValidationStatus,
    pub error: Option<ValidationErrorView>,
    pub discovered_models: Option<Seq<DiscoveredModelInfoView>>,
    pub response_time_ms: Option<u64>,
    pub model: Option<Seq<char>>,
}

impl View for ValidationResult {
    type V = ValidationResultView;

    open spec fn view(&self) -> ValidationResultView {
        ValidationResultView {
            status: self.status,
            error: self.error.deep_view(),
            discovered_models: self.discovered_models.deep_view(),
            response_time_ms: self.response_time_ms,
            model: self.model.deep_view(),
        }
    }
}

impl Clone for ValidationResult {
    fn clone(&self) -> (r: Self)
        ensures
            r@ == self@,
    {
        let discovered_models = match &self.discovered_models {
            Some(models) => {
                let copy = models.clone();
                proof {
                    assert(copy.deep_view() =~= models.deep_view());
                }
                Some(copy)
            },
            None => None,
        };
        ValidationResult {
            status: self.status,
            error: self.error.clone(),
            discovered_models,
            response_time_ms: self.response_time_ms,
            model: self.model.clone(),
        }
    }
}

// ---------------------------------------------------------------------------
// Validation cache
// ---------------------------------------------------------------------------

/// Validation status cached on a provider profile.
#[derive(Debug, PartialEq, Eq)]
pub struct ValidationCacheEntry {
    pub last_validated: Timestamp,
    pub status: ValidationStatus,
    pub error: Option<ValidationError>,
    pub retry_count: u32,
}

/// What a [`ValidationCacheEntry`] is.
pub struct ValidationCacheEntryView {
    pub last_validated: TimestampView,
    pub status: ValidationStatus,
    pub error: Option<ValidationErrorView>,
    pub retry_count: u32,
}

impl DeepView for ValidationCacheEntry {
    type V = ValidationCacheEntryView;

    open spec fn deep_view(&self) -> ValidationCacheEntryView {
        ValidationCacheEntryView {
            last_validated: self.last_validated@,
            status: self.status,
            error: self.error.deep_view(),
            retry_count: self.retry_count,
        }
    }
}

impl View for ValidationCacheEntry {
    type V = ValidationCacheEntryView;

    open spec fn view(&self) -> ValidationCacheEntryView {
        self.deep_view()
    }
}

impl Clone for ValidationCacheEntry {
    fn clone(&self) -> (r: Self)
        ensures
            r@ == self@,
    {
        ValidationCacheEntry {
            last_validated: self.last_validated,
            status: self.status,
            error: self.error.clone(),
            retry_count: self.retry_count,
        }
    }
}

impl ValidationCacheEntryView {
    /// Is the entry older than `max_age` nanoseconds at the instant `now`? One
    /// from the future is as old as can be.
    pub open spec fn is_stale_at(self, now: TimestampView, max_age: nat) -> bool {
        let elapsed = now.nanos_after(self.last_validated);
        if elapsed >= 0 {
            elapsed > max_age
        } else {
            LONGEST_NANOS > max_age
        }
    }
}

impl ValidationResultView {
    /// The cache entry for this result when it is stored at the instant `now`.
    pub open spec fn cache_entry(self, now: TimestampView) -> ValidationCacheEntryView {
        ValidationCacheEntryView { last_validated: now, status: self.status, error: self.error, retry_count: 0 }
    }
}

impl ValidationCacheEntry {
    /// Is the entry older than `max_age`?
    pub fn is_stale(&self, max_age: Duration) -> (r: bool)
        ensures
            exists|now: TimestampView| r == #[trigger] self@.is_stale_at(now, clock::nanos_of(max_age)),
    {
        let now = utc_now();
        self.is_stale_at(&now, max_age)
    }

    /// Is the entry older than `max_age` at the instant `now`?
    pub fn is_stale_at(&self, now: &Timestamp, max_age: Duration) -> (r: bool)
        ensures
            r == self@.is_stale_at(now@, clock::nanos_of(max_age)),
    {
        let elapsed: u128 = match now.nanos_since(&self.last_validated) {
            Some(nanos) => nanos,
            None => LONGEST_NANOS,
        };
        elapsed > max_age.as_nanos()
    }

    /// The entry for a result that has just come in.
    pub fn from_validation_result(result: &ValidationResult) -> (r: Self)
        ensures
            exists|now: TimestampView| r@ == #[trigger] result@.cache_entry(now),
    {
        let now = utc_now();
        let r = ValidationCacheEntry::from_validation_result_at(result, &now);
        proof {
            assert(r@ == result@.cache_entry(now@));
        }
        r
    }

    /// The entry for a result that came in at the instant `now`.
    pub fn from_validation_result_at(result: &ValidationResult, now: &Timestamp) -> (r: Self)
        ensures
            r@ == result@.cache_entry(now@),
    {
        ValidationCacheEntry {
            last_validated: *now,
            status: result.status,
            error: result.error.clone(),
            retry_count: 0,
        }
    }
}

// ---------------------------------------------------------------------------
// Auth
// ---------------------------------------------------------------------------

/// How a secret is presented.
#[derive(Clone, Copy, Debug, PartialEq, Eq, Structural)]
pub enum AuthValueKind {
    NoAuth,
    ApiKey,
    BearerToken,
}

/// A secret, where it was found.
#[derive(Debug, PartialEq, Eq)]
pub struct ResolvedAuthValue {
    pub kind: AuthValueKind,
    pub value: Option<String>,
}

/// What a [`ResolvedAuthValue`] is.
pub struct ResolvedAuthValueView {
    pub kind: AuthValueKind,
    pub value: Option<Seq<char>>,
}

impl View for ResolvedAuthValue {
    type V = ResolvedAuthValueView;

    open spec fn view(&self) -> ResolvedAuthValueView {
        ResolvedAuthValueView { kind: self.kind, value: self.value.deep_view() }
    }
}

/// How the secret of an auth configuration is presented.
pub open spec fn auth_value_kind(auth: AuthConfigView) -> AuthValueKind {
    match auth {
        AuthConfigView::NoAuth => AuthValueKind::NoAuth,
        AuthConfigView::ApiKey { .. } => AuthValueKind::ApiKey,
        AuthConfigView::BearerToken { .. } => AuthValueKind::BearerToken,
    }
}

/// The reference under which the secret of an auth configuration is looked up.
pub open spec fn secret_reference(auth: AuthConfigView) -> Option<Seq<char>> {
    match auth {
        AuthConfigView::NoAuth => None,
        AuthConfigView::ApiKey { source: AuthSource::Keychain, secret_ref, .. } => secret_ref,
        AuthConfigView::ApiKey { source: AuthSource::Env, env_var, .. } => env_var,
        AuthConfigView::BearerToken { secret_ref, .. } => Some(secret_ref),
    }
}

/// Looks the secret of an auth configuration up. `resolve` gets the reference of
/// the configuration, and its answer is the value; without a reference nothing
/// is asked.
pub fn resolve_auth(auth: &AuthConfig, resolve: impl Fn(&str) -> Option<String>) -> (r: ResolvedAuthValue)
    requires
        forall|reference: &str| call_requires(resolve, (reference,)),
    ensures
        r.kind == auth_value_kind(auth@),
        match secret_reference(auth@) {
            Some(wanted) => exists|reference: &str|
                reference@ == wanted && #[trigger] call_ensures(resolve, (reference,), r.value),
            None => r.value is None,
        },
{
    match auth {
        AuthConfig::NoAuth => ResolvedAuthValue { kind: AuthValueKind::NoAuth, value: None },
        AuthConfig::ApiKey { source: AuthSource::Keychain, secret_ref, .. } => {
            let value = match secret_ref {
                Some(reference) => resolve(reference.as_str()),
                None => None,
            };
            ResolvedAuthValue { kind: AuthValueKind::ApiKey, value }
        },
        AuthConfig::ApiKey { source: AuthSource::Env, env_var, .. } => {
            let value = match env_var {
                Some(name) => resolve(name.as_str()),
                None => None,
            };
            ResolvedAuthValue { kind: AuthValueKind::ApiKey, value }
        },
        AuthConfig::BearerToken { secret_ref, .. } => {
            let value = resolve(secret_ref.as_str());
            ResolvedAuthValue { kind: AuthValueKind::BearerToken, value }
        },
    }
}

/// The header that presents a secret to an OpenAI endpoint.
pub open spec fn bearer_auth_headers(auth: ResolvedAuthValueView) -> Seq<(Seq<char>, Seq<char>)> {
    match (auth.kind, auth.value) {
        (AuthValueKind::NoAuth, _) => Seq::empty(),
        (_, Some(secret)) => seq![("Authorization"@, "Bearer "@ + secret)],
        (_, None) => Seq::empty(),
    }
}

/// The header that presents a secret to an Anthropic endpoint.
pub open spec fn anthropic_auth_headers(auth: ResolvedAuthValueView) -> Seq<(Seq<char>, Seq<char>)> {
    match (auth.kind, auth.value) {
        (AuthValueKind::NoAuth, _) => Seq::empty(),
        (_, Some(secret)) => seq![("x-api-key"@, secret)],
        (_, None) => Seq::empty(),
    }
}

/// Adds the header that presents a secret to an OpenAI endpoint.
pub fn apply_bearer_auth(headers: &mut Vec<(String, String)>, auth: &ResolvedAuthValue)
    ensures
        serde_values::pair_views(final(headers)@) == serde_values::pair_views(old(headers)@)
            + bearer_auth_headers(auth@),
{
    let ghost before = serde_values::pair_views(headers@);
    match (&auth.kind, &auth.value) {
        (AuthValueKind::ApiKey, Some(secret)) => {
            push_header(headers, "Authorization", cat("Bearer ", secret.as_str()).as_str());
        },
        (AuthValueKind::BearerToken, Some(secret)) => {
            push_header(headers, "Authorization", cat("Bearer ", secret.as_str()).as_str());
        },
        _ => {},
    }
    proof {
        assert(serde_values::pair_views(headers@) =~= before + bearer_auth_headers(auth@));
    }
}

/// Adds the header that presents a secret to an Anthropic endpoint.
pub fn apply_anthropic_auth(headers: &mut Vec<(String, String)>, auth: &ResolvedAuthValue)
    ensures
        serde_values::pair_views(final(headers)@) == serde_values::pair_views(old(headers)@)
            + anthropic_auth_headers(auth@),
{
    let ghost before = serde_values::pair_views(headers@);
    match (&auth.kind, &auth.value) {
        (AuthValueKind::BearerToken, Some(token)) => {
            push_header(headers, "x-api-key", token.as_str());
        },
        (AuthValueKind::ApiKey, Some(key)) => {
            push_header(headers, "x-api-key", key.as_str());
        },
        _ => {},
    }
    proof {
        assert(serde_values::pair_views(headers@) =~= before + anthropic_auth_headers(auth@));
    }
}

// ---------------------------------------------------------------------------
// Error classification
// ---------------------------------------------------------------------------

/// The bytes of an answer that an error quotes at most.
pub const QUOTED_BYTES: usize = 500;

/// What an endpoint says of an error, in one of the shapes in use.
pub open spec fn error_message(answer: JsonView) -> Option<Seq<char>> {
    match answer.str_in("error"@, "message"@) {
        Some(message) => Some(message),
        None => match answer.str_at("message"@) {
            Some(message) => Some(message),
            None => answer.str_at("error"@),
        },
    }
}

/// What an endpoint says of an error, where its answer is a JSON value.
pub open spec fn answered_message(answer: Option<JsonView>) -> Option<Seq<char>> {
    match answer {
        Some(value) => error_message(value),
        None => None,
    }
}

/// The beginning of an answer that is quoted.
pub open spec fn quoted(body: Seq<char>) -> Seq<char> {
    if text::utf8_len(body) > QUOTED_BYTES {
        text::cut(body, QUOTED_BYTES as int) + "... (truncated)"@
    } else {
        body
    }
}

/// Can the beginning of an answer be quoted? Not where the limit falls inside a
/// character.
pub open spec fn quotable(body: Seq<char>) -> bool {
    text::utf8_len(body) > QUOTED_BYTES ==> text::can_cut(body, QUOTED_BYTES as int)
}

/// The detail of an error whose answer `body` reads as `answer`: what the
/// endpoint says, else the answer itself.
pub open spec fn detail_of(body: Seq<char>, answer: Option<JsonView>) -> Seq<char> {
    match answered_message(answer) {
        Some(message) => message,
        None => quoted(body),
    }
}

/// Has an error with the answer `body`, which reads as `answer`, a detail?
pub open spec fn has_detail(body: Seq<char>, answer: Option<JsonView>) -> bool {
    answered_message(answer) is Some || quotable(body)
}

/// The kind of error that a status reports, with this detail.
pub open spec fn error_of_status(status: u16, detail: Seq<char>) -> ValidationErrorView {
    if status == 401 || status == 403 {
        ValidationErrorView::AuthFailure { detail, http_status: status }
    } else if status == 429 {
        ValidationErrorView::RateLimit { detail, retry_after_secs: None }
    } else {
        ValidationErrorView::UnknownProviderError { detail, http_status: status }
    }
}

/// The error of a request that got no answer.
pub open spec fn error_of_transport(is_timeout: bool, detail: Seq<char>) -> ValidationErrorView {
    if is_timeout {
        ValidationErrorView::Timeout
    } else {
        ValidationErrorView::EndpointUnreachable { detail }
    }
}

/// The error of a request that got no answer.
pub fn classify_reqwest_error(is_timeout: bool, detail: &str) -> (r: ValidationError)
    ensures
        r@ == error_of_transport(is_timeout, detail@),
{
    if is_timeout {
        ValidationError::Timeout
    } else {
        ValidationError::EndpointUnreachable { detail: detail.to_string() }
    }
}

/// What an endpoint says of an error, where its answer is a JSON value.
fn message_in(answer: &Option<Json>) -> (r: Option<String>)
    ensures
        r.deep_view() == answered_message(answer.deep_view()),
{
    match answer {
        Some(value) => {
            match value.str_in("error", "message") {
                Some(message) => {
                    return Some(message.to_string());
                },
                None => {},
            }
            match value.str_at("message") {
                Some(message) => {
                    return Some(message.to_string());
                },
                None => {},
            }
            match value.str_at("error") {
                Some(message) => Some(message.to_string()),
                None => None,
            }
        },
        None => None,
    }
}

/// The detail of an error whose answer `body` was read as `answer`.
pub fn detail_of_answer(body: &str, answer: &Option<Json>) -> (r: String)
    requires
        has_detail(body@, answer.deep_view()),
    ensures
        r@ == detail_of(body@, answer.deep_view()),
{
    match message_in(answer) {
        Some(message) => message,
        None => {
            if is_longer_than(body, QUOTED_BYTES) {
                cat(cut_at(body, QUOTED_BYTES), "... (truncated)")
            } else {
                body.to_string()
            }
        },
    }
}

/// Has an error whose answer `body` was read as `answer` a detail?
fn answer_has_detail(body: &str, answer: &Option<Json>) -> (r: bool)
    ensures
        r == has_detail(body@, answer.deep_view()),
{
    message_in(answer).is_some() || !is_longer_than(body, QUOTED_BYTES) || can_cut_at(body, QUOTED_BYTES)
}

/// The detail of an error with this answer: what the endpoint says in one of the
/// shapes in use, else the answer itself, at most its first 500 bytes.
pub fn extract_error_detail(body: &str) -> (r: String)
    requires
        has_detail(body@, serde_values::parsed_json(body@)),
    ensures
        r@ == detail_of(body@, serde_values::parsed_json(body@)),
{
    let answer = parse_json(body);
    detail_of_answer(body, &answer)
}

/// The error that an answer with a status other than success reports.
pub fn classify_http_error(status: u16, body: &str) -> (r: ValidationError)
    requires
        has_detail(body@, serde_values::parsed_json(body@)),
    ensures
        r@ == error_of_status(status, detail_of(body@, serde_values::parsed_json(body@))),
{
    let detail = extract_error_detail(body);
    status_error(status, detail)
}

/// The kind of error that a status reports, with this detail.
pub fn status_error(status: u16, detail: String) -> (r: ValidationError)
    ensures
        r@ == error_of_status(status, detail@),
{
    if status == 401 || status == 403 {
        ValidationError::AuthFailure { detail, http_status: status }
    } else if status == 429 {
        ValidationError::RateLimit { detail, retry_after_secs: None }
    } else {
        ValidationError::UnknownProviderError { detail, http_status: status }
    }
}

/// The error that an answer with a status other than success reports, unless the
/// limit of what is quoted falls inside a character.
pub fn try_classify_http_error(status: u16, body: &str) -> (r: Option<ValidationError>)
    ensures
        r is Some <==> has_detail(body@, serde_values::parsed_json(body@)),
        r matches Some(error) ==> error@ == error_of_status(
            status,
            detail_of(body@, serde_values::parsed_json(body@)),
        ),
{
    let answer = parse_json(body);
    if answer_has_detail(body, &answer) {
        Some(classify_http_error(status, body))
    } else {
        None
    }
}

// ---------------------------------------------------------------------------
// Requests
// ---------------------------------------------------------------------------

/// The model that is asked for an answer where an OpenAI key is checked.
pub const OPENAI_PROBE_MODEL: &'static str = "gpt-4o-mini";

/// The model that is asked for an answer where a compatible endpoint is checked.
pub const COMPATIBLE_PROBE_MODEL: &'static str = "gpt-3.5-turbo";

/// The version of the Anthropic API.
pub const ANTHROPIC_VERSION: &'static str = "2023-06-01";

/// Does a provider of this kind have the API of Anthropic?
pub open spec fn speaks_anthropic(kind: ProviderKind) -> bool {
    kind == ProviderKind::Anthropic || kind == ProviderKind::AnthropicCompatible
}

/// Does a provider of this kind have the API of Anthropic?
pub fn has_anthropic_api(kind: ProviderKind) -> (r: bool)
    ensures
        r == speaks_anthropic(kind),
{
    match kind {
        ProviderKind::Anthropic => true,
        ProviderKind::AnthropicCompatible => true,
        _ => false,
    }
}

/// The headers that present a secret to a provider of this kind.
pub open spec fn auth_headers(kind: ProviderKind, auth: ResolvedAuthValueView) -> Seq<(Seq<char>, Seq<char>)> {
    if speaks_anthropic(kind) {
        anthropic_auth_headers(auth)
    } else {
        bearer_auth_headers(auth)
    }
}

/// The request for the list of models.
pub open spec fn models_request_of(
    kind: ProviderKind,
    base_url: Seq<char>,
    auth: ResolvedAuthValueView,
) -> HttpRequestView {
    HttpRequestView {
        method: HttpMethod::Get,
        url: text::without_trailing_slashes(base_url) + "/models"@,
        headers: auth_headers(kind, auth),
        body: None,
    }
}

/// The request for the list of models.
pub fn models_request(kind: ProviderKind, base_url: &str, auth: &ResolvedAuthValue) -> (r: HttpRequest)
    ensures
        r@ == models_request_of(kind, base_url@, auth@),
{
    let url = cat(trim_trailing_slashes(base_url), "/models");
    let mut headers: Vec<(String, String)> = Vec::new();
    if has_anthropic_api(kind) {
        apply_anthropic_auth(&mut headers, auth);
    } else {
        apply_bearer_auth(&mut headers, auth);
    }
    proof {
        assert(serde_values::pair_views(headers@) =~= auth_headers(kind, auth@));
    }
    HttpRequest { method: HttpMethod::Get, url, headers, body: None }
}

/// The model that is asked for an answer. A compatible endpoint is asked for the
/// first of its models, where these are known; otherwise an endpoint with the
/// API of Anthropic is asked for `anthropic_model`.
pub open spec fn probe_model_of(
    kind: ProviderKind,
    known_models: Option<Seq<DiscoveredModelInfoView>>,
    anthropic_model: Seq<char>,
) -> Seq<char> {
    match (kind, known_models) {
        (ProviderKind::OpenAICompatible, Some(models)) if models.len() > 0 => models[0].id,
        (ProviderKind::AnthropicCompatible, Some(models)) if models.len() > 0 => models[0].id,
        (ProviderKind::OpenAICompatible, _) => COMPATIBLE_PROBE_MODEL@,
        (ProviderKind::Anthropic, _) => anthropic_model,
        (ProviderKind::AnthropicCompatible, _) => anthropic_model,
        (_, _) => OPENAI_PROBE_MODEL@,
    }
}

/// The model that is asked for an answer.
pub fn probe_model(
    kind: ProviderKind,
    known_models: &Option<Vec<DiscoveredModelInfo>>,
    anthropic_model: &str,
) -> (r: String)
    ensures
        r@ == probe_model_of(kind, known_models.deep_view(), anthropic_model@),
{
    match known_models {
        Some(models) => {
            if kind.is_compatible() && models.len() > 0 {
                return models[0].id.clone();
            }
        },
        None => {},
    }
    match kind {
        ProviderKind::OpenAICompatible => COMPATIBLE_PROBE_MODEL.to_string(),
        ProviderKind::Anthropic => anthropic_model.to_string(),
        ProviderKind::AnthropicCompatible => anthropic_model.to_string(),
        _ => OPENAI_PROBE_MODEL.to_string(),
    }
}

/// A conversation of one word.
pub open spec fn probe_messages() -> JsonView {
    JsonView::Array(
        seq![JsonView::Object(seq![("role"@, JsonView::Text("user"@)), ("content"@, JsonView::Text("OK"@))])],
    )
}

/// The whole number `n`.
pub open spec fn unsigned(n: u64) -> JsonView {
    JsonView::Number(JsonNumberView::Unsigned(n))
}

/// The body of the request for an answer of one token.
pub open spec fn probe_body_of(kind: ProviderKind, model: Seq<char>) -> JsonView {
    if speaks_anthropic(kind) {
        JsonView::Object(
            seq![("model"@, JsonView::Text(model)), ("max_tokens"@, unsigned(1)), ("messages"@, probe_messages())],
        )
    } else if kind == ProviderKind::OpenAICompatible {
        JsonView::Object(
            seq![("model"@, JsonView::Text(model)), ("messages"@, probe_messages()), ("max_tokens"@, unsigned(1))],
        )
    } else {
        JsonView::Object(
            seq![
                ("model"@, JsonView::Text(model)),
                ("input"@, JsonView::Text("Say OK"@)),
                ("max_output_tokens"@, unsigned(1)),
            ],
        )
    }
}

/// The path of the request for an answer.
pub open spec fn probe_path_of(kind: ProviderKind) -> Seq<char> {
    if speaks_anthropic(kind) {
        "/messages"@
    } else if kind == ProviderKind::OpenAICompatible {
        "/chat/completions"@
    } else {
        "/responses"@
    }
}

/// The request for an answer of one token.
pub open spec fn probe_request_of(
    kind: ProviderKind,
    base_url: Seq<char>,
    auth: ResolvedAuthValueView,
    model: Seq<char>,
) -> HttpRequestView {
    HttpRequestView {
        method: HttpMethod::Post,
        url: text::without_trailing_slashes(base_url) + probe_path_of(kind),
        headers: if speaks_anthropic(kind) {
            auth_headers(kind, auth).push(("anthropic-version"@, ANTHROPIC_VERSION@))
        } else {
            auth_headers(kind, auth)
        },
        body: Some(probe_body_of(kind, model)),
    }
}

/// The body of the request for an answer of one token.
fn probe_body(kind: ProviderKind, model: &str) -> (r: Json)
    ensures
        r@ == probe_body_of(kind, model@),
{
    broadcast use json::lemma_array_view;

    let message = object2("role", Json::text("user"), "content", Json::text("OK"));
    let ghost said = message@;
    let items = vec![message];
    proof {
        assert(json::views(items@) =~= seq![said]);
    }
    let messages = Json::Array(items);
    proof {
        assert(messages@ == probe_messages());
    }
    let one = Json::Number(JsonNumber::Unsigned(1));
    if has_anthropic_api(kind) {
        object3("model", Json::text(model), "max_tokens", one, "messages", messages)
    } else {
        match kind {
            ProviderKind::OpenAICompatible => {
                object3("model", Json::text(model), "messages", messages, "max_tokens", one)
            },
            _ => object3("model", Json::text(model), "input", Json::text("Say OK"), "max_output_tokens", one),
        }
    }
}

/// The request for an answer of one token.
pub fn probe_request(kind: ProviderKind, base_url: &str, auth: &ResolvedAuthValue, model: &str) -> (r: HttpRequest)
    ensures
        r@ == probe_request_of(kind, base_url@, auth@, model@),
{
    let path = if has_anthropic_api(kind) {
        "/messages"
    } else {
        match kind {
            ProviderKind::OpenAICompatible => "/chat/completions",
            _ => "/responses",
        }
    };
    let url = cat(trim_trailing_slashes(base_url), path);
    let mut headers: Vec<(String, String)> = Vec::new();
    proof {
        assert(serde_values::pair_views(headers@) =~= Seq::<(Seq<char>, Seq<char>)>::empty());
    }
    if has_anthropic_api(kind) {
        apply_anthropic_auth(&mut headers, auth);
        proof {
            assert(serde_values::pair_views(headers@) =~= auth_headers(kind, auth@));
        }
        push_header(&mut headers, "anthropic-version", ANTHROPIC_VERSION);
    } else {
        apply_bearer_auth(&mut headers, auth);
        proof {
            assert(serde_values::pair_views(headers@) =~= auth_headers(kind, auth@));
        }
    }
    HttpRequest { method: HttpMethod::Post, url, headers, body: Some(probe_body(kind, model)) }
}

// ---------------------------------------------------------------------------
// Replies
// ---------------------------------------------------------------------------

/// Can a reply be read? Not where it is an error whose answer has no detail.
pub open spec fn readable(reply: HttpReplyView) -> bool {
    reply matches HttpReplyView::ErrorStatus { body, .. } ==> has_detail(body, serde_values::parsed_json(body))
}

/// The body of a reply, or the error that it stands for. `subject` names what
/// was asked for.
pub open spec fn answer_of(reply: HttpReplyView, subject: Seq<char>) -> Result<JsonView, ValidationErrorView> {
    match reply {
        HttpReplyView::TransportFailure { is_timeout, detail } => Err(error_of_transport(is_timeout, detail)),
        HttpReplyView::ErrorStatus { status, body } => Err(
            error_of_status(status, detail_of(body, serde_values::parsed_json(body))),
        ),
        HttpReplyView::Undecodable { detail } => Err(
            ValidationErrorView::InvalidSchema {
                detail: "Failed to parse "@ + subject + " response: "@ + detail,
            },
        ),
        HttpReplyView::Body(value) => Ok(value),
    }
}

/// What an answer is.
pub open spec fn answer_view(answer: Result<Json, ValidationError>) -> Result<JsonView, ValidationErrorView> {
    match answer {
        Ok(value) => Ok(value@),
        Err(error) => Err(error@),
    }
}

/// The body of a reply, or the error that it stands for; nothing where it cannot
/// be read.
pub fn read_reply(reply: HttpReply, subject: &str) -> (r: Option<Result<Json, ValidationError>>)
    ensures
        r is Some <==> readable(reply@),
        r matches Some(answer) ==> answer_view(answer) == answer_of(reply@, subject@),
{
    match reply {
        HttpReply::TransportFailure { is_timeout, detail } => Some(
            Err(classify_reqwest_error(is_timeout, detail.as_str())),
        ),
        HttpReply::ErrorStatus { status, body } => match try_classify_http_error(status, body.as_str()) {
            Some(error) => Some(Err(error)),
            None => None,
        },
        HttpReply::Undecodable { detail } => {
            let detail = "Failed to parse ".to_string().concat(subject).concat(" response: ").concat(detail.as_str());
            Some(Err(ValidationError::InvalidSchema { detail }))
        },
        HttpReply::Body(value) => Some(Ok(value)),
    }
}

/// The member of a listed model that holds its display name.
pub open spec fn display_member_of(kind: ProviderKind) -> Seq<char> {
    if speaks_anthropic(kind) {
        "display_name"@
    } else {
        "object"@
    }
}

/// The models in a list: the entries that have an id.
pub open spec fn model_infos(entries: Seq<JsonView>, display_member: Seq<char>) -> Seq<DiscoveredModelInfoView>
    decreases entries.len(),
{
    if entries.len() == 0 {
        Seq::empty()
    } else {
        let earlier = model_infos(entries.drop_last(), display_member);
        match entries.last().str_at("id"@) {
            Some(id) => earlier.push(
                DiscoveredModelInfoView { id, display_name: entries.last().str_at(display_member) },
            ),
            None => earlier,
        }
    }
}

/// The models that a list of models holds, or why there are none.
pub open spec fn listed_models(
    kind: ProviderKind,
    answer: Result<JsonView, ValidationErrorView>,
) -> Result<Seq<DiscoveredModelInfoView>, ValidationErrorView> {
    match answer {
        Err(error) => Err(error),
        Ok(value) => {
            let models = match value.array_at("data"@) {
                Some(entries) => model_infos(entries, display_member_of(kind)),
                None => Seq::empty(),
            };
            if models.len() == 0 {
                Err(ValidationErrorView::InvalidSchema { detail: "No models found in response"@ })
            } else {
                Ok(models)
            }
        },
    }
}

/// What a list of models, or an error, is.
pub open spec fn models_view(models: Result<Vec<DiscoveredModelInfo>, ValidationError>) -> Result<
    Seq<DiscoveredModelInfoView>,
    ValidationErrorView,
> {
    match models {
        Ok(models) => Ok(models.deep_view()),
        Err(error) => Err(error@),
    }
}

/// The models in a list: the entries that have an id.
fn read_model_infos(entries: &Vec<Json>, display_member: &str) -> (r: Vec<DiscoveredModelInfo>)
    ensures
        r.deep_view() == model_infos(json::views(entries@), display_member@),
{
    let mut models: Vec<DiscoveredModelInfo> = Vec::new();
    let ghost all = json::views(entries@);
    proof {
        assert(models.deep_view() =~= model_infos(all.take(0), display_member@));
    }
    let mut i: usize = 0;
    while i < entries.len()
        invariant
            i <= entries@.len(),
            all == json::views(entries@),
            models.deep_view() == model_infos(all.take(i as int), display_member@),
        decreases entries@.len() - i,
    {
        let ghost before = models.deep_view();
        proof {
            assert(all.take(i + 1).drop_last() =~= all.take(i as int));
            assert(all.take(i + 1).last() == entries@[i as int]@);
        }
        match entries[i].str_at("id") {
            Some(id) => {
                let display_name = match entries[i].str_at(display_member) {
                    Some(name) => Some(name.to_string()),
                    None => None,
                };
                let model = DiscoveredModelInfo { id: id.to_string(), display_name };
                let ghost pushed = model@;
                models.push(model);
                proof {
                    assert(models.deep_view() =~= before.push(pushed));
                }
            },
            None => {},
        }
        i = i + 1;
    }
    proof {
        assert(all.take(i as int) =~= all);
    }
    models
}

/// The models that the answer to [`models_request`] lists.
pub fn read_models(kind: ProviderKind, answer: Result<Json, ValidationError>) -> (r: Result<
    Vec<DiscoveredModelInfo>,
    ValidationError,
>)
    ensures
        models_view(r) == listed_models(kind, answer_view(answer)),
{
    match answer {
        Err(error) => Err(error),
        Ok(value) => {
            let display_member = if has_anthropic_api(kind) {
                "display_name"
            } else {
                "object"
            };
            let models = match value.array_at("data") {
                Some(entries) => read_model_infos(entries, display_member),
                None => Vec::new(),
            };
            if models.len() == 0 {
                Err(ValidationError::InvalidSchema { detail: "No models found in response".to_string() })
            } else {
                Ok(models)
            }
        },
    }
}

/// The model that answered, or why none did. An answer that does not name the
/// model came from the one that was asked.
pub open spec fn probed_model(
    answer: Result<JsonView, ValidationErrorView>,
    asked: Seq<char>,
) -> Result<Seq<char>, ValidationErrorView> {
    match answer {
        Err(error) => Err(error),
        Ok(value) => match value.str_at("model"@) {
            Some(model) => Ok(model),
            None => Ok(asked),
        },
    }
}

/// What the outcome of a probe is.
pub open spec fn probe_view(outcome: Result<String, ValidationError>) -> Result<Seq<char>, ValidationErrorView> {
    match outcome {
        Ok(model) => Ok(model@),
        Err(error) => Err(error@),
    }
}

/// The model that answered [`probe_request`].
pub fn read_probe(answer: Result<Json, ValidationError>, asked: &str) -> (r: Result<String, ValidationError>)
    ensures
        probe_view(r) == probed_model(answer_view(answer), asked@),
{
    match answer {
        Err(error) => Err(error),
        Ok(value) => match value.str_at("model") {
            Some(model) => Ok(model.to_string()),
            None => Ok(asked.to_string()),
        },
    }
}

/// What the answer to [`probe_request`] is called in an error.
pub open spec fn probe_subject_of(kind: ProviderKind) -> Seq<char> {
    if speaks_anthropic(kind) {
        "messages"@
    } else if kind == ProviderKind::OpenAICompatible {
        "chat completions"@
    } else {
        "responses"@
    }
}

/// What the answer to [`probe_request`] is called in an error.
pub fn probe_subject(kind: ProviderKind) -> (r: String)
    ensures
        r@ == probe_subject_of(kind),
{
    if has_anthropic_api(kind) {
        "messages".to_string()
    } else {
        match kind {
            ProviderKind::OpenAICompatible => "chat completions".to_string(),
            _ => "responses".to_string(),
        }
    }
}

// ---------------------------------------------------------------------------
// Validation
// ---------------------------------------------------------------------------

impl ValidationResultView {
    /// A provider that works, with what is known of its models.
    pub open spec fn success(models: Option<Seq<DiscoveredModelInfoView>>, model: Option<Seq<char>>) -> Self {
        ValidationResultView {
            status: ValidationStatus::Success,
            error: None,
            discovered_models: models,
            response_time_ms: None,
            model,
        }
    }

    /// A provider that does not work, or not all of it.
    pub open spec fn failure(
        status: ValidationStatus,
        error: ValidationErrorView,
        models: Option<Seq<DiscoveredModelInfoView>>,
    ) -> Self {
        ValidationResultView {
            status,
            error: Some(error),
            discovered_models: models,
            response_time_ms: None,
            model: None,
        }
    }

    /// The result with the time that it took.
    pub open spec fn timed(self, elapsed_ms: u64) -> Self {
        ValidationResultView { response_time_ms: Some(elapsed_ms), ..self }
    }
}

impl ValidationResult {
    fn success(models: Option<Vec<DiscoveredModelInfo>>, model: Option<String>) -> (r: Self)
        ensures
            r@ == ValidationResultView::success(models.deep_view(), model.deep_view()),
    {
        ValidationResult {
            status: ValidationStatus::Success,
            error: None,
            discovered_models: models,
            response_time_ms: None,
            model,
        }
    }

    fn failure(
        status: ValidationStatus,
        error: ValidationError,
        models: Option<Vec<DiscoveredModelInfo>>,
    ) -> (r: Self)
        ensures
            r@ == ValidationResultView::failure(status, error@, models.deep_view()),
    {
        ValidationResult {
            status,
            error: Some(error),
            discovered_models: models,
            response_time_ms: None,
            model: None,
        }
    }

    /// The result with the time that it took.
    pub fn timed(self, elapsed_ms: u64) -> (r: Self)
        ensures
            r@ == self@.timed(elapsed_ms),
    {
        ValidationResult {
            status: self.status,
            error: self.error,
            discovered_models: self.discovered_models,
            response_time_ms: Some(elapsed_ms),
            model: self.model,
        }
    }
}

/// The first step of a validation.
#[derive(Debug, PartialEq)]
pub enum FirstStep {
    /// There is nothing to ask.
    Finished(ValidationResult),
    /// The list of models is asked for.
    AskModels(HttpRequest),
}

/// What a [`FirstStep`] is.
pub enum FirstStepView {
    Finished(ValidationResultView),
    AskModels(HttpRequestView),
}

impl View for FirstStep {
    type V = FirstStepView;

    open spec fn view(&self) -> FirstStepView {
        match self {
            FirstStep::Finished(result) => FirstStepView::Finished(result@),
            FirstStep::AskModels(request) => FirstStepView::AskModels(request@),
        }
    }
}

/// The step of a validation after the list of models has come, or has not.
#[derive(Debug, PartialEq)]
pub enum NextStep {
    /// There is nothing more to ask.
    Finished(ValidationResult),
    /// The model `model` is asked for an answer.
    AskProbe { request: HttpRequest, models: Option<Vec<DiscoveredModelInfo>>, model: String },
}

/// What a [`NextStep`] is.
pub enum NextStepView {
    Finished(ValidationResultView),
    AskProbe { request: HttpRequestView, models: Option<Seq<DiscoveredModelInfoView>>, model: Seq<char> },
}

impl View for NextStep {
    type V = NextStepView;

    open spec fn view(&self) -> NextStepView {
        match self {
            NextStep::Finished(result) => NextStepView::Finished(result@),
            NextStep::AskProbe { request, models, model } => NextStepView::AskProbe {
                request: request@,
                models: models.deep_view(),
                model: model@,
            },
        }
    }
}

/// How a validation starts. The provider that Warp hosts is not asked.
pub open spec fn first_step_of(provider: ProviderProfileView, auth: ResolvedAuthValueView) -> FirstStepView {
    if provider.kind == ProviderKind::WarpHosted {
        FirstStepView::Finished(ValidationResultView::success(None, None))
    } else {
        FirstStepView::AskModels(models_request_of(provider.kind, provider.base_url, auth))
    }
}

/// What is known of the models of a provider.
pub open spec fn known_models(models: Result<Seq<DiscoveredModelInfoView>, ValidationErrorView>) -> Option<
    Seq<DiscoveredModelInfoView>,
> {
    match models {
        Ok(models) => Some(models),
        Err(_) => None,
    }
}

/// How a validation goes on when the list of models has come, or has not. A
/// cheap validation ends here. So does one of a first-party provider without a
/// list; a compatible one need not have a list and is asked nevertheless.
pub open spec fn next_step_of(
    provider: ProviderProfileView,
    auth: ResolvedAuthValueView,
    level: ValidationLevel,
    models: Result<Seq<DiscoveredModelInfoView>, ValidationErrorView>,
    anthropic_model: Seq<char>,
) -> NextStepView {
    let kind = provider.kind;
    match (level, models) {
        (ValidationLevel::Cheap, Ok(models)) => NextStepView::Finished(
            ValidationResultView::success(Some(models), None),
        ),
        (ValidationLevel::Cheap, Err(error)) if kind.spec_is_compatible() => NextStepView::Finished(
            ValidationResultView::failure(ValidationStatus::Partial, error, None),
        ),
        (_, Err(error)) if !kind.spec_is_compatible() => NextStepView::Finished(
            ValidationResultView::failure(ValidationStatus::Failed, error, None),
        ),
        (_, _) => {
            let model = probe_model_of(kind, known_models(models), anthropic_model);
            NextStepView::AskProbe {
                request: probe_request_of(kind, provider.base_url, auth, model),
                models: known_models(models),
                model,
            }
        },
    }
}

/// How a validation ends when a model was asked for an answer. Without an
/// answer, a provider that listed its models works in part.
pub open spec fn result_of_probe(
    models: Option<Seq<DiscoveredModelInfoView>>,
    outcome: Result<Seq<char>, ValidationErrorView>,
) -> ValidationResultView {
    match outcome {
        Ok(model) => ValidationResultView::success(models, Some(model)),
        Err(error) => ValidationResultView::failure(
            if models is Some {
                ValidationStatus::Partial
            } else {
                ValidationStatus::Failed
            },
            error,
            models,
        ),
    }
}

/// The result of the validation of a provider whose endpoint gives these replies
/// to the request for its models and to that for an answer.
pub open spec fn validation_of(
    provider: ProviderProfileView,
    auth: ResolvedAuthValueView,
    level: ValidationLevel,
    models_reply: HttpReplyView,
    probe_reply: HttpReplyView,
    anthropic_model: Seq<char>,
) -> ValidationResultView {
    match first_step_of(provider, auth) {
        FirstStepView::Finished(result) => result,
        FirstStepView::AskModels(_) => match next_step_of(
            provider,
            auth,
            level,
            listed_models(provider.kind, answer_of(models_reply, "models"@)),
            anthropic_model,
        ) {
            NextStepView::Finished(result) => result,
            NextStepView::AskProbe { models, model, .. } => result_of_probe(
                models,
                probed_model(answer_of(probe_reply, probe_subject_of(provider.kind)), model),
            ),
        },
    }
}

/// Starts a validation.
pub fn start_validation(profile: &ProviderProfile, auth: &ResolvedAuthValue) -> (r: FirstStep)
    ensures
        r@ == first_step_of(profile@, auth@),
{
    match profile.kind {
        ProviderKind::WarpHosted => FirstStep::Finished(ValidationResult::success(None, None)),
        _ => FirstStep::AskModels(models_request(profile.kind, profile.base_url.as_str(), auth)),
    }
}

/// Asks a model for an answer.
fn ask_probe(
    profile: &ProviderProfile,
    auth: &ResolvedAuthValue,
    models: Option<Vec<DiscoveredModelInfo>>,
    anthropic_model: &str,
) -> (r: NextStep)
    ensures
        ({
            let model = probe_model_of(profile@.kind, models.deep_view(), anthropic_model@);
            r@ == (NextStepView::AskProbe {
                request: probe_request_of(profile@.kind, profile@.base_url, auth@, model),
                models: models.deep_view(),
                model,
            })
        }),
{
    let model = probe_model(profile.kind, &models, anthropic_model);
    let request = probe_request(profile.kind, profile.base_url.as_str(), auth, model.as_str());
    NextStep::AskProbe { request, models, model }
}

/// The step of the validation of a first-party provider when the list of models
/// has come, or has not.
pub fn validate_first_party(
    profile: &ProviderProfile,
    auth: &ResolvedAuthValue,
    level: ValidationLevel,
    models: Result<Vec<DiscoveredModelInfo>, ValidationError>,
    anthropic_model: &str,
) -> (r: NextStep)
    requires
        !profile@.kind.spec_is_compatible(),
    ensures
        r@ == next_step_of(profile@, auth@, level, models_view(models), anthropic_model@),
{
    match models {
        Ok(models) => match level {
            ValidationLevel::Deep => ask_probe(profile, auth, Some(models), anthropic_model),
            ValidationLevel::Cheap => NextStep::Finished(ValidationResult::success(Some(models), None)),
        },
        Err(error) => NextStep::Finished(ValidationResult::failure(ValidationStatus::Failed, error, None)),
    }
}

/// The step of the validation of a compatible provider when the list of models
/// has come, or has not.
pub fn validate_compatible(
    profile: &ProviderProfile,
    auth: &ResolvedAuthValue,
    level: ValidationLevel,
    models: Result<Vec<DiscoveredModelInfo>, ValidationError>,
    anthropic_model: &str,
) -> (r: NextStep)
    requires
        profile@.kind.spec_is_compatible(),
    ensures
        r@ == next_step_of(profile@, auth@, level, models_view(models), anthropic_model@),
{
    match level {
        ValidationLevel::Cheap => match models {
            Ok(models) => NextStep::Finished(ValidationResult::success(Some(models), None)),
            Err(error) => NextStep::Finished(ValidationResult::failure(ValidationStatus::Partial, error, None)),
        },
        ValidationLevel::Deep => match models {
            Ok(models) => ask_probe(profile, auth, Some(models), anthropic_model),
            Err(_) => ask_probe(profile, auth, None, anthropic_model),
        },
    }
}

/// Goes on with a validation after the reply to the request for the models;
/// nothing where the reply cannot be read.
pub fn continue_validation(
    profile: &ProviderProfile,
    auth: &ResolvedAuthValue,
    level: ValidationLevel,
    reply: HttpReply,
    anthropic_model: &str,
) -> (r: Option<NextStep>)
    ensures
        r is Some <==> readable(reply@),
        r matches Some(step) ==> step@ == next_step_of(
            profile@,
            auth@,
            level,
            listed_models(profile@.kind, answer_of(reply@, "models"@)),
            anthropic_model@,
        ),
{
    match read_reply(reply, "models") {
        Some(answer) => {
            let models = read_models(profile.kind, answer);
            if profile.kind.is_compatible() {
                Some(validate_compatible(profile, auth, level, models, anthropic_model))
            } else {
                Some(validate_first_party(profile, auth, level, models, anthropic_model))
            }
        },
        None => None,
    }
}

/// The result of a validation in which a model was asked for an answer.
pub fn probe_result(
    models: Option<Vec<DiscoveredModelInfo>>,
    outcome: Result<String, ValidationError>,
) -> (r: ValidationResult)
    ensures
        r@ == result_of_probe(models.deep_view(), probe_view(outcome)),
{
    match outcome {
        Ok(model) => ValidationResult::success(models, Some(model)),
        Err(error) => {
            let status = if models.is_some() {
                ValidationStatus::Partial
            } else {
                ValidationStatus::Failed
            };
            ValidationResult::failure(status, error, models)
        },
    }
}

/// Ends a validation after the reply of the model `model`; nothing where the
/// reply cannot be read.
pub fn finish_validation(
    kind: ProviderKind,
    models: Option<Vec<DiscoveredModelInfo>>,
    model: &str,
    reply: HttpReply,
) -> (r: Option<ValidationResult>)
    ensures
        r is Some <==> readable(reply@),
        r matches Some(result) ==> result@ == result_of_probe(
            models.deep_view(),
            probed_model(answer_of(reply@, probe_subject_of(kind)), model@),
        ),
{
    match read_reply(reply, probe_subject(kind).as_str()) {
        Some(answer) => Some(probe_result(models, read_probe(answer, model))),
        None => None,
    }
}

// ---------------------------------------------------------------------------
// Model discovery
// ---------------------------------------------------------------------------

/// How the models of a profile come to be known when they are asked for.
pub open spec fn discovery_source(strategy: DiscoveryStrategy) -> DiscoveredModelSource {
    if strategy == DiscoveryStrategy::ManualOnly {
        DiscoveredModelSource::Manual
    } else {
        DiscoveredModelSource::Discovered
    }
}

/// Listed models, as models of a profile.
pub open spec fn models_with_source(
    infos: Seq<DiscoveredModelInfoView>,
    source: DiscoveredModelSource,
) -> Seq<DiscoveredModelView> {
    Seq::new(
        infos.len(),
        |i: int|
            DiscoveredModelView {
                id: infos[i].id,
                display_name: infos[i].display_name,
                source,
                capabilities: ProviderCapabilitiesView::automatic(),
            },
    )
}

/// The models of a provider, from the answer to the request for them.
pub open spec fn discovery_of(
    provider: ProviderProfileView,
    answer: Result<JsonView, ValidationErrorView>,
) -> Result<Seq<DiscoveredModelView>, ValidationErrorView> {
    match listed_models(provider.kind, answer) {
        Ok(infos) => Ok(models_with_source(infos, discovery_source(provider.discovery.strategy))),
        Err(error) => Err(error),
    }
}

/// What discovered models, or an error, are.
pub open spec fn discovery_view(models: Result<Vec<DiscoveredModel>, ValidationError>) -> Result<
    Seq<DiscoveredModelView>,
    ValidationErrorView,
> {
    match models {
        Ok(models) => Ok(models.deep_view()),
        Err(error) => Err(error@),
    }
}

/// The first step of a discovery.
#[derive(Debug, PartialEq)]
pub enum DiscoveryStep {
    /// The models are known.
    Finished(Vec<DiscoveredModel>),
    /// The list of models is asked for.
    AskModels(HttpRequest),
}

/// Starts a discovery. The models of the provider that Warp hosts are known.
pub fn start_discovery(profile: &ProviderProfile, auth: &ResolvedAuthValue) -> (r: DiscoveryStep)
    ensures
        match r {
            DiscoveryStep::Finished(models) => profile@.kind == ProviderKind::WarpHosted && models.deep_view()
                == profile@.discovered_models,
            DiscoveryStep::AskModels(request) => profile@.kind != ProviderKind::WarpHosted && request@
                == models_request_of(profile@.kind, profile@.base_url, auth@),
        },
{
    match profile.kind {
        ProviderKind::WarpHosted => DiscoveryStep::Finished(clone_models(&profile.discovered_models)),
        _ => DiscoveryStep::AskModels(models_request(profile.kind, profile.base_url.as_str(), auth)),
    }
}

/// Listed models, as models of a profile.
pub(crate) fn models_from_infos(infos: &Vec<DiscoveredModelInfo>, source: DiscoveredModelSource) -> (r: Vec<
    DiscoveredModel,
>)
    ensures
        r.deep_view() == models_with_source(infos.deep_view(), source),
{
    let mut r: Vec<DiscoveredModel> = Vec::new();
    let ghost given = infos.deep_view();
    let ghost all = models_with_source(given, source);
    let mut i: usize = 0;
    while i < infos.len()
        invariant
            i <= infos@.len(),
            given == infos.deep_view(),
            all == models_with_source(given, source),
            r.deep_view() == all.take(i as int),
        decreases infos@.len() - i,
    {
        let ghost before = r.deep_view();
        let model = DiscoveredModel {
            id: infos[i].id.clone(),
            display_name: infos[i].display_name.clone(),
            source,
            capabilities: ProviderCapabilities::default(),
        };
        let ghost pushed = model@;
        r.push(model);
        proof {
            assert(given[i as int] == infos@[i as int]@);
            assert(r.deep_view() =~= before.push(pushed));
            assert(all.take(i + 1) =~= all.take(i as int).push(all[i as int]));
        }
        i = i + 1;
    }
    proof {
        assert(all.take(i as int) =~= all);
    }
    r
}

/// Ends a discovery after the reply to the request for the models; nothing where
/// the reply cannot be read.
pub fn finish_discovery(profile: &ProviderProfile, reply: HttpReply) -> (r: Option<
    Result<Vec<DiscoveredModel>, ValidationError>,
>)
    ensures
        r is Some <==> readable(reply@),
        r matches Some(models) ==> discovery_view(models) == discovery_of(profile@, answer_of(reply@, "models"@)),
{
    match read_reply(reply, "models") {
        Some(answer) => match read_models(profile.kind, answer) {
            Ok(infos) => {
                let source = match profile.discovery.strategy {
                    DiscoveryStrategy::ManualOnly => DiscoveredModelSource::Manual,
                    DiscoveryStrategy::ModelsEndpoint => DiscoveredModelSource::Discovered,
                };
                Some(Ok(models_from_infos(&infos, source)))
            },
            Err(error) => Some(Err(error)),
        },
        None => None,
    }
}

// ---------------------------------------------------------------------------
// Laws
// ---------------------------------------------------------------------------

/// The user can tell failure modes apart, whatever the details say.
pub proof fn law_failure_modes_are_told_apart(a: ValidationErrorView, b: ValidationErrorView)
    requires
        !a.same_mode(b),
    ensures
        a.message() != b.message(),
{
    reveal_strlit("Authentication failed — ");
    reveal_strlit("Provider endpoint unreachable — ");
    reveal_strlit("Request timed out");
    reveal_strlit("Invalid response schema — ");
    reveal_strlit("Unsupported capability — ");
    reveal_strlit("Rate limited by provider — ");
    reveal_strlit("Stream interrupted — ");
    reveal_strlit("Unknown provider error — ");
    if a.message() == b.message() {
        assert(a.message()[0] == b.message()[0]);
        assert(a.message()[1] == b.message()[1]);
        assert(a.message()[2] == b.message()[2]);
    }
}

/// The provider that Warp hosts is taken to work without being asked, at either
/// level.
pub proof fn law_warp_hosted_is_not_asked(
    provider: ProviderProfileView,
    auth: ResolvedAuthValueView,
    level: ValidationLevel,
    models_reply: HttpReplyView,
    probe_reply: HttpReplyView,
    anthropic_model: Seq<char>,
)
    requires
        provider.kind == ProviderKind::WarpHosted,
    ensures
        first_step_of(provider, auth) == FirstStepView::Finished(ValidationResultView::success(None, None)),
        validation_of(provider, auth, level, models_reply, probe_reply, anthropic_model)
            == ValidationResultView::success(None, None),
{
}

/// A validation reports success if and only if it reports no error, and names a
/// model only with success.
pub proof fn law_success_means_no_error(
    provider: ProviderProfileView,
    auth: ResolvedAuthValueView,
    level: ValidationLevel,
    models_reply: HttpReplyView,
    probe_reply: HttpReplyView,
    anthropic_model: Seq<char>,
)
    ensures
        ({
            let result = validation_of(provider, auth, level, models_reply, probe_reply, anthropic_model);
            &&& result.status == ValidationStatus::Success <==> result.error is None
            &&& result.model is Some ==> result.status == ValidationStatus::Success
            &&& result.discovered_models matches Some(models) ==> models.len() > 0
        }),
{
}

/// A cheap validation never asks a model for an answer.
pub proof fn law_cheap_validation_asks_no_model(
    provider: ProviderProfileView,
    auth: ResolvedAuthValueView,
    models: Result<Seq<DiscoveredModelInfoView>, ValidationErrorView>,
    anthropic_model: Seq<char>,
)
    ensures
        next_step_of(provider, auth, ValidationLevel::Cheap, models, anthropic_model) is Finished,
{
}

/// A compatible provider works if a model answers, though it may list none; a
/// first-party provider that lists no models fails.
pub proof fn law_compatible_providers_need_no_list(
    provider: ProviderProfileView,
    auth: ResolvedAuthValueView,
    models_reply: HttpReplyView,
    probe_reply: HttpReplyView,
    anthropic_model: Seq<char>,
)
    requires
        provider.kind != ProviderKind::WarpHosted,
        listed_models(provider.kind, answer_of(models_reply, "models"@)) is Err,
    ensures
        ({
            let result = validation_of(
                provider,
                auth,
                ValidationLevel::Deep,
                models_reply,
                probe_reply,
                anthropic_model,
            );
            let answered = answer_of(probe_reply, probe_subject_of(provider.kind)) is Ok;
            result.status == if provider.kind.spec_is_compatible() && answered {
                ValidationStatus::Success
            } else {
                ValidationStatus::Failed
            }
        }),
{
}

/// The models that a list holds are the entries with an id, in their order: none
/// is made up, and none with an id is left out.
pub proof fn law_listed_models_are_the_entries_with_ids(
    entries: Seq<JsonView>,
    display_member: Seq<char>,
    id: Seq<char>,
)
    ensures
        (exists|i: int| 0 <= i < entries.len() && (#[trigger] entries[i]).str_at("id"@) == Some(id)) <==> (exists|k: int|
            0 <= k < model_infos(entries, display_member).len() && (#[trigger] model_infos(
                entries,
                display_member,
            )[k]).id == id),
    decreases entries.len(),
{
    if entries.len() > 0 {
        let front = entries.drop_last();
        let earlier = model_infos(front, display_member);
        let all = model_infos(entries, display_member);
        law_listed_models_are_the_entries_with_ids(front, display_member, id);
        if exists|i: int| 0 <= i < entries.len() && (#[trigger] entries[i]).str_at("id"@) == Some(id) {
            let i = choose|i: int| 0 <= i < entries.len() && (#[trigger] entries[i]).str_at("id"@) == Some(id);
            if i < front.len() {
                assert(front[i].str_at("id"@) == Some(id));
                let k = choose|k: int| 0 <= k < earlier.len() && (#[trigger] earlier[k]).id == id;
                assert(all[k].id == id);
            } else {
                assert(all[all.len() - 1].id == id);
            }
        }
        if exists|k: int| 0 <= k < all.len() && (#[trigger] all[k]).id == id {
            let k = choose|k: int| 0 <= k < all.len() && (#[trigger] all[k]).id == id;
            if k < earlier.len() {
                assert(earlier[k].id == id);
                let i = choose|i: int| 0 <= i < front.len() && (#[trigger] front[i]).str_at("id"@) == Some(id);
                assert(entries[i].str_at("id"@) == Some(id));
            } else {
                assert(entries[entries.len() - 1].str_at("id"@) == Some(id));
            }
        }
    } else {
        assert(model_infos(entries, display_member).len() == 0);
    }
}

/// Without a secret no header presents one.
pub proof fn law_no_secret_no_header(kind: ProviderKind, auth: ResolvedAuthValueView)
    requires
        auth.value is None || auth.kind == AuthValueKind::NoAuth,
    ensures
        auth_headers(kind, auth).len() == 0,
{
}

/// What is quoted of a long answer is how it begins, and at most 500 bytes of it.
pub proof fn law_quote_is_a_beginning(body: Seq<char>)
    requires
        quotable(body),
        text::utf8_len(body) > QUOTED_BYTES,
    ensures
        quoted(body) == text::cut(body, QUOTED_BYTES as int) + "... (truncated)"@,
        text::cut(body, QUOTED_BYTES as int).is_prefix_of(body),
        text::utf8_len(text::cut(body, QUOTED_BYTES as int)) == QUOTED_BYTES,
{
    text::lemma_cut_is_prefix(body, QUOTED_BYTES as int);
}

/// Does a text end in this one?
pub open spec fn ends_in(s: Seq<char>, end: Seq<char>) -> bool {
    s.len() >= end.len() && s.subrange(s.len() - end.len(), s.len() as int) == end
}

/// The body of a probe fits the endpoint that it is sent to: one for chats or
/// messages gets a message of the user, one for responses gets an input, and
/// each is asked for one token. Every probe names the model that is asked.
pub proof fn law_probe_fits_its_endpoint(
    kind: ProviderKind,
    base_url: Seq<char>,
    auth: ResolvedAuthValueView,
    model: Seq<char>,
)
    ensures
        ({
            let request = probe_request_of(kind, base_url, auth, model);
            let one = JsonView::Number(JsonNumberView::Unsigned(1));
            &&& request.method == HttpMethod::Post
            &&& request.body is Some
            &&& request.body->0.str_at("model"@) == Some(model)
            &&& ends_in(request.url, "/chat/completions"@) || ends_in(request.url, "/messages"@) || ends_in(
                request.url,
                "/responses"@,
            )
            &&& ends_in(request.url, "/chat/completions"@) || ends_in(request.url, "/messages"@) ==> {
                &&& request.body->0.array_at("messages"@) matches Some(messages) && messages.len() == 1
                    && messages[0].str_at("role"@) == Some("user"@) && (messages[0].str_at("content"@) matches Some(
                    content,
                ) && content.len() > 0)
                &&& request.body->0.get("max_tokens"@) == Some(one)
                &&& request.body->0.get("input"@) is None
            }
            &&& ends_in(request.url, "/responses"@) ==> {
                &&& request.body->0.str_at("input"@) matches Some(input) && input.len() > 0
                &&& request.body->0.get("max_output_tokens"@) == Some(one)
                &&& request.body->0.get("messages"@) is None
            }
        }),
{
    let request = probe_request_of(kind, base_url, auth, model);
    let path = probe_path_of(kind);
    let base = text::without_trailing_slashes(base_url);
    reveal_strlit("/messages");
    reveal_strlit("/chat/completions");
    reveal_strlit("/responses");
    assert(request.url.subrange(request.url.len() - path.len(), request.url.len() as int) =~= path);
    lemma_end_letters(request.url, "/messages"@);
    lemma_end_letters(request.url, "/chat/completions"@);
    lemma_end_letters(request.url, "/responses"@);
    assert("/messages"@[7] == 'e' && "/messages"@[6] == 'g' && "/messages"@.len() == 9);
    assert("/chat/completions"@[15] == 'n' && "/chat/completions"@[14] == 'o' && "/chat/completions"@.len() == 17);
    assert("/responses"@[8] == 'e' && "/responses"@[7] == 's' && "/responses"@.len() == 10);
    reveal_strlit("model");
    reveal_strlit("messages");
    reveal_strlit("max_tokens");
    reveal_strlit("input");
    reveal_strlit("max_output_tokens");
    reveal_strlit("role");
    reveal_strlit("content");
    reveal_strlit("OK");
    reveal_strlit("Say OK");
    assert("model"@.len() == 5 && "model"@[0] == 'm');
    assert("input"@.len() == 5 && "input"@[0] == 'i');
    assert("messages"@.len() == 8);
    assert("max_tokens"@.len() == 10);
    assert("max_output_tokens"@.len() == 17);
    assert("role"@.len() == 4);
    assert("content"@.len() == 7);
    reveal_with_fuel(json::member, 4);
}

/// Texts with the same end have the same letters there.
proof fn lemma_end_letters(s: Seq<char>, end: Seq<char>)
    requires
        end.len() >= 3,
    ensures
        ends_in(s, end) ==> s[s.len() - 2] == end[end.len() - 2] && s[s.len() - 3] == end[end.len() - 3],
{
    if ends_in(s, end) {
        let tail = s.subrange(s.len() - end.len(), s.len() as int);
        assert(tail[end.len() - 2] == s[s.len() - 2]);
        assert(tail[end.len() - 3] == s[s.len() - 3]);
    }
}

/// A probe and the request for the list of models go below the base URL, present
/// the secret in the one header that the provider reads, and a probe of
/// Anthropic names the version of the API. To ask for the list sends no body.
pub proof fn law_checks_present_the_secret(
    kind: ProviderKind,
    base_url: Seq<char>,
    auth: ResolvedAuthValueView,
    model: Seq<char>,
    secret: Seq<char>,
)
    requires
        auth.kind != AuthValueKind::NoAuth,
        auth.value == Some(secret),
    ensures
        ({
            let probe = probe_request_of(kind, base_url, auth, model);
            let models = models_request_of(kind, base_url, auth);
            let base = text::without_trailing_slashes(base_url);
            let is_anthropic = kind == ProviderKind::Anthropic || kind == ProviderKind::AnthropicCompatible;
            &&& models.method == HttpMethod::Get
            &&& models.body is None
            &&& models.url == base + "/models"@
            &&& is_anthropic ==> models.headers == seq![("x-api-key"@, secret)] && probe.headers == seq![
                ("x-api-key"@, secret),
                ("anthropic-version"@, "2023-06-01"@),
            ] && probe.url == base + "/messages"@
            &&& !is_anthropic ==> models.headers == seq![("Authorization"@, "Bearer "@ + secret)] && probe.headers
                == models.headers
            &&& kind == ProviderKind::OpenAI ==> probe.url == base + "/responses"@
            &&& kind == ProviderKind::OpenAICompatible ==> probe.url == base + "/chat/completions"@
        }),
{
    let base = seq![("x-api-key"@, secret)];
    assert(base.push(("anthropic-version"@, "2023-06-01"@)) =~= seq![
        ("x-api-key"@, secret),
        ("anthropic-version"@, "2023-06-01"@),
    ]);
}

/// A secret is looked up under the reference that its configuration gives for the
/// place where it is kept, and under no other.
pub proof fn law_secrets_are_looked_up_by_their_reference(auth: AuthConfigView)
    ensures
        match auth {
            AuthConfigView::NoAuth => secret_reference(auth) is None && auth_value_kind(auth) == AuthValueKind::NoAuth,
            AuthConfigView::ApiKey { source, secret_ref, env_var } => auth_value_kind(auth) == AuthValueKind::ApiKey
                && secret_reference(auth) == if source == AuthSource::Env {
                env_var
            } else {
                secret_ref
            },
            AuthConfigView::BearerToken { secret_ref, .. } => auth_value_kind(auth) == AuthValueKind::BearerToken
                && secret_reference(auth) == Some(secret_ref),
        },
{
}

/// A compatible endpoint is asked for the first of its models, where it lists
/// any; otherwise a probe asks for a model that the provider is known to have.
pub proof fn law_probe_asks_for_a_model_of_the_provider(
    kind: ProviderKind,
    known: Option<Seq<DiscoveredModelInfoView>>,
    anthropic_model: Seq<char>,
)
    ensures
        ({
            let asked = probe_model_of(kind, known, anthropic_model);
            let is_compatible = kind == ProviderKind::OpenAICompatible || kind == ProviderKind::AnthropicCompatible;
            let has_list = known is Some && known->0.len() > 0;
            &&& is_compatible && has_list ==> asked == known->0[0].id
            &&& kind == ProviderKind::OpenAI ==> asked == "gpt-4o-mini"@
            &&& kind == ProviderKind::OpenAICompatible && !has_list ==> asked == "gpt-3.5-turbo"@
            &&& kind == ProviderKind::Anthropic || (kind == ProviderKind::AnthropicCompatible && !has_list) ==> asked
                == anthropic_model
        }),
{
}

/// A status tells the failure: 401 and 403 refuse the secret, 429 limits the
/// rate, any other is not known; each keeps what the endpoint said. A request
/// without an answer timed out or did not reach the endpoint.
pub proof fn law_failures_are_told_by_status(status: u16, detail: Seq<char>)
    ensures
        (status == 401 || status == 403) <==> error_of_status(status, detail) is AuthFailure,
        status == 429 <==> error_of_status(status, detail) is RateLimit,
        (status != 401 && status != 403 && status != 429) <==> error_of_status(status, detail) is UnknownProviderError,
        error_of_status(status, detail) matches ValidationErrorView::AuthFailure { detail: told, http_status }
            ==> told == detail && http_status == status,
        error_of_status(status, detail) matches ValidationErrorView::RateLimit { detail: told, .. } ==> told == detail,
        error_of_status(status, detail) matches ValidationErrorView::UnknownProviderError { detail: told, http_status }
            ==> told == detail && http_status == status,
        error_of_transport(true, detail) == ValidationErrorView::Timeout,
        error_of_transport(false, detail) == (ValidationErrorView::EndpointUnreachable { detail }),
{
}

/// What an endpoint says of an error is told in its own words, wherever in its
/// answer they stand; otherwise the answer itself is told, in full where it has
/// at most 500 bytes.
pub proof fn law_errors_are_told_in_the_words_of_the_endpoint(body: Seq<char>, value: JsonView)
    ensures
        value.str_in("error"@, "message"@) matches Some(message) ==> detail_of(body, Some(value)) == message,
        value.str_in("error"@, "message"@) is None ==> (value.str_at("message"@) matches Some(message) ==> detail_of(
            body,
            Some(value),
        ) == message),
        value.str_in("error"@, "message"@) is None && value.str_at("message"@) is None ==> (value.str_at("error"@)
            matches Some(message) ==> detail_of(body, Some(value)) == message),
        value.str_in("error"@, "message"@) is None && value.str_at("message"@) is None && value.str_at("error"@) is None
            ==> detail_of(body, Some(value)) == detail_of(body, None),
        text::utf8_len(body) <= 500 ==> detail_of(body, None) == body,
{
}

/// The models of a list are its entries with an id, in their order, each with
/// the display name that the provider gives it.
pub proof fn law_listed_models_keep_their_order(kind: ProviderKind, value: JsonView, entries: Seq<JsonView>)
    requires
        value.array_at("data"@) == Some(entries),
    ensures
        ({
            let named = entries.filter(|entry: JsonView| entry.str_at("id"@) is Some);
            let member = if kind == ProviderKind::Anthropic || kind == ProviderKind::AnthropicCompatible {
                "display_name"@
            } else {
                "object"@
            };
            let listed = listed_models(kind, Ok(value));
            &&& listed is Ok <==> named.len() > 0
            &&& listed is Ok ==> listed->Ok_0.len() == named.len() && forall|i: int|
                0 <= i < named.len() ==> Some((#[trigger] listed->Ok_0[i]).id) == named[i].str_at("id"@)
                    && listed->Ok_0[i].display_name == named[i].str_at(member)
            &&& listed is Err ==> listed->Err_0 is InvalidSchema
        }),
{
    lemma_model_infos(entries, display_member_of(kind));
}

/// The models in a list are its entries with an id, one by one.
proof fn lemma_model_infos(entries: Seq<JsonView>, member: Seq<char>)
    ensures
        ({
            let named = entries.filter(|entry: JsonView| entry.str_at("id"@) is Some);
            let infos = model_infos(entries, member);
            &&& infos.len() == named.len()
            &&& forall|i: int|
                0 <= i < named.len() ==> Some((#[trigger] infos[i]).id) == named[i].str_at("id"@)
                    && infos[i].display_name == named[i].str_at(member)
        }),
    decreases entries.len(),
{
    reveal(Seq::filter);
    if entries.len() > 0 {
        lemma_model_infos(entries.drop_last(), member);
    }
}

/// An answer without a list holds no models, and an error stays what it is.
pub proof fn law_no_list_no_models(kind: ProviderKind, value: JsonView, error: ValidationErrorView)
    ensures
        value.array_at("data"@) is None ==> (listed_models(kind, Ok(value)) matches Err(
            ValidationErrorView::InvalidSchema { .. },
        )),
        listed_models(kind, Err(error)) == Err::<Seq<DiscoveredModelInfoView>, _>(error),
{
}

/// What a validation reports follows from the two replies: all is well where the
/// list came, and for a deep validation an answer too; with one of them a
/// provider works in part, or for a compatible one the answer alone is enough;
/// the error is that of the reply that failed, and the models are those listed.
pub proof fn law_validation_follows_the_replies(
    provider: ProviderProfileView,
    auth: ResolvedAuthValueView,
    level: ValidationLevel,
    models_reply: HttpReplyView,
    probe_reply: HttpReplyView,
    anthropic_model: Seq<char>,
)
    requires
        provider.kind != ProviderKind::WarpHosted,
    ensures
        ({
            let result = validation_of(provider, auth, level, models_reply, probe_reply, anthropic_model);
            let listed = listed_models(provider.kind, answer_of(models_reply, "models"@));
            let answered = answer_of(probe_reply, probe_subject_of(provider.kind));
            let is_compatible = provider.kind == ProviderKind::OpenAICompatible || provider.kind
                == ProviderKind::AnthropicCompatible;
            &&& listed is Ok ==> result.discovered_models == Some(listed->Ok_0)
            &&& listed is Err ==> result.discovered_models is None
            &&& level == ValidationLevel::Cheap && listed is Ok ==> result.status == ValidationStatus::Success
            &&& level == ValidationLevel::Cheap && listed is Err ==> result.error == Some(listed->Err_0)
                && result.status == if is_compatible {
                ValidationStatus::Partial
            } else {
                ValidationStatus::Failed
            }
            &&& level == ValidationLevel::Deep && listed is Err && !is_compatible ==> result.status
                == ValidationStatus::Failed && result.error == Some(listed->Err_0)
            &&& level == ValidationLevel::Deep && (listed is Ok || is_compatible) && answered is Ok ==> result.status
                == ValidationStatus::Success && result.model is Some
            &&& level == ValidationLevel::Deep && (listed is Ok || is_compatible) && answered is Err ==> result.error
                == Some(answered->Err_0) && result.status == if listed is Ok {
                ValidationStatus::Partial
            } else {
                ValidationStatus::Failed
            }
            &&& level == ValidationLevel::Deep && result.status == ValidationStatus::Success ==> (
            answered->Ok_0.str_at("model"@) matches Some(model) ==> result.model == Some(model))
            &&& level == ValidationLevel::Deep && result.status == ValidationStatus::Success && answered->Ok_0.str_at(
                "model"@,
            ) is None ==> result.model == Some(
                probe_model_of(
                    provider.kind,
                    if listed is Ok {
                        Some(listed->Ok_0)
                    } else {
                        None
                    },
                    anthropic_model,
                ),
            )
        }),
{
}

/// A reply is read for what it is: a body is an answer, and any other reply is
/// the error that it reports, one that cannot be read with what was asked for
/// and what went wrong.
pub proof fn law_replies_are_read_for_what_they_are(
    subject: Seq<char>,
    value: JsonView,
    detail: Seq<char>,
    status: u16,
)
    ensures
        answer_of(HttpReplyView::ErrorStatus { status, body: detail }, subject) == Err::<JsonView, _>(
            error_of_status(status, detail_of(detail, serde_values::parsed_json(detail))),
        ),
        answer_of(HttpReplyView::Body(value), subject) == Ok::<_, ValidationErrorView>(value),
        answer_of(HttpReplyView::TransportFailure { is_timeout: true, detail }, subject) == Err::<JsonView, _>(
            ValidationErrorView::Timeout,
        ),
        answer_of(HttpReplyView::TransportFailure { is_timeout: false, detail }, subject) == Err::<JsonView, _>(
            ValidationErrorView::EndpointUnreachable { detail },
        ),
        answer_of(HttpReplyView::Undecodable { detail }, subject) == Err::<JsonView, _>(
            ValidationErrorView::InvalidSchema { detail: "Failed to parse "@ + subject + " response: "@ + detail },
        ),
{
}

/// Discovered models are those listed, in their order, and are marked as named by
/// hand only where the profile says that its models are.
pub proof fn law_discovery_gives_the_listed_models(
    provider: ProviderProfileView,
    answer: Result<JsonView, ValidationErrorView>,
)
    ensures
        ({
            let listed = listed_models(provider.kind, answer);
            let found = discovery_of(provider, answer);
            &&& found is Ok <==> listed is Ok
            &&& found is Err ==> found->Err_0 == listed->Err_0
            &&& found is Ok ==> found->Ok_0.len() == listed->Ok_0.len() && forall|i: int|
                0 <= i < listed->Ok_0.len() ==> {
                    &&& (#[trigger] found->Ok_0[i]).id == listed->Ok_0[i].id
                    &&& found->Ok_0[i].display_name == listed->Ok_0[i].display_name
                    &&& found->Ok_0[i].capabilities == ProviderCapabilitiesView::automatic()
                    &&& found->Ok_0[i].source == DiscoveredModelSource::Manual <==> provider.discovery.strategy
                        == DiscoveryStrategy::ManualOnly
                    &&& found->Ok_0[i].source == DiscoveredModelSource::Discovered <==> provider.discovery.strategy
                        != DiscoveryStrategy::ManualOnly
                }
        }),
{
}

/// What may go away by itself can be tried again: an endpoint that is not
/// reached, a time out, an interrupted stream, a limited rate. What the user has
/// to change first cannot.
pub proof fn law_passing_failures_can_be_tried_again(error: ValidationErrorView)
    ensures
        error is AuthFailure || error is InvalidSchema || error is UnsupportedCapability || error is UnknownProviderError
            <==> !error.is_retryable(),
{
}

/// The user is told what the endpoint said.
pub proof fn law_messages_end_with_the_detail(error: ValidationErrorView)
    ensures
        error matches ValidationErrorView::AuthFailure { detail, .. } ==> detail.is_suffix_of(error.message()),
        error matches ValidationErrorView::EndpointUnreachable { detail } ==> detail.is_suffix_of(error.message()),
        error matches ValidationErrorView::InvalidSchema { detail } ==> detail.is_suffix_of(error.message()),
        error matches ValidationErrorView::UnsupportedCapability { detail } ==> detail.is_suffix_of(error.message()),
        error matches ValidationErrorView::RateLimit { detail, .. } ==> detail.is_suffix_of(error.message()),
        error matches ValidationErrorView::StreamInterrupted { detail } ==> detail.is_suffix_of(error.message()),
        error matches ValidationErrorView::UnknownProviderError { detail, .. } ==> detail.is_suffix_of(error.message()),
{
    let told = error.message();
    match error {
        ValidationErrorView::AuthFailure { detail, .. } => {
            assert(told.subrange(told.len() - detail.len(), told.len() as int) =~= detail);
        },
        ValidationErrorView::EndpointUnreachable { detail } => {
            assert(told.subrange(told.len() - detail.len(), told.len() as int) =~= detail);
        },
        ValidationErrorView::Timeout => {},
        ValidationErrorView::InvalidSchema { detail } => {
            assert(told.subrange(told.len() - detail.len(), told.len() as int) =~= detail);
        },
        ValidationErrorView::UnsupportedCapability { detail } => {
            assert(told.subrange(told.len() - detail.len(), told.len() as int) =~= detail);
        },
        ValidationErrorView::RateLimit { detail, .. } => {
            assert(told.subrange(told.len() - detail.len(), told.len() as int) =~= detail);
        },
        ValidationErrorView::StreamInterrupted { detail } => {
            assert(told.subrange(told.len() - detail.len(), told.len() as int) =~= detail);
        },
        ValidationErrorView::UnknownProviderError { detail, .. } => {
            assert(told.subrange(told.len() - detail.len(), told.len() as int) =~= detail);
        },
    }
}

/// An entry in the cache is stale when more than its age has passed, not before,
/// and one from the future is stale for every age but the longest.
pub proof fn law_entries_grow_stale_with_time(entry: ValidationCacheEntryView, now: TimestampView, max_age: nat)
    ensures
        0 <= now.nanos_after(entry.last_validated) <= max_age ==> !entry.is_stale_at(now, max_age),
        now.nanos_after(entry.last_validated) > max_age ==> entry.is_stale_at(now, max_age),
        now.nanos_after(entry.last_validated) < 0 && max_age < 18_446_744_073_709_551_615_999_999_999
            ==> entry.is_stale_at(now, max_age),
{
}

/// To note how long a validation took changes nothing else of what it reports.
pub proof fn law_time_taken_changes_nothing_else(result: ValidationResultView, elapsed_ms: u64)
    ensures
        ({
            let timed = result.timed(elapsed_ms);
            &&& timed.response_time_ms == Some(elapsed_ms)
            &&& timed.status == result.status
            &&& timed.error == result.error
            &&& timed.discovered_models == result.discovered_models
            &&& timed.model == result.model
        }),
{
}

} // verus!
