//! What is reported of requests to providers that the client talks to itself.
//!
//! A report holds the kind of the provider, fingerprints of its endpoint and of
//! the model, and how the request went; nothing that the user or the model said.
use vstd::prelude::*;

use crate::endpoint;
use crate::endpoint::{endpoint_origin, infer_local_only};
use crate::fingerprint;
use crate::fingerprint::fingerprint;
use crate::http_status;
use crate::http_status::{status_family, HttpStatus};
use crate::json;
use crate::json::{push_member, Json, JsonNumber, JsonNumberView, JsonView};
use crate::profile::ProviderKind;

verus! {

/// The provider and the model that a request is for.
#[derive(Debug)]
pub struct DirectProviderTelemetry {
    pub provider_kind: ProviderKind,
    pub base_url: String,
    pub model: String,
}

/// What a [`DirectProviderTelemetry`] is.
pub struct DirectProviderTelemetryView {
    pub provider_kind: ProviderKind,
    pub base_url: Seq<char>,
    pub model: Seq<char>,
}

impl View for DirectProviderTelemetry {
    type V = DirectProviderTelemetryView;

    open spec fn view(&self) -> DirectProviderTelemetryView {
        DirectProviderTelemetryView {
            provider_kind: self.provider_kind,
            base_url: self.base_url@,
            model: self.model@,
        }
    }
}

/// How a request went.
#[derive(Debug, PartialEq, Eq)]
pub struct DirectProviderOutcome {
    pub success: bool,
    pub error_class: Option<String>,
    pub http_status: Option<HttpStatus>,
    pub duration_ms: u64,
    pub stream_duration_ms: Option<u64>,
    pub tokens_prompt: Option<u64>,
    pub tokens_completion: Option<u64>,
    pub tokens_total: Option<u64>,
}

/// What a [`DirectProviderOutcome`] is.
pub struct DirectProviderOutcomeView {
    pub success: bool,
    pub error_class: Option<Seq<char>>,
    pub http_status: Option<u16>,
    pub duration_ms: u64,
    pub stream_duration_ms: Option<u64>,
    pub tokens_prompt: Option<u64>,
    pub tokens_completion: Option<u64>,
    pub tokens_total: Option<u64>,
}

impl View for DirectProviderOutcome {
    type V = DirectProviderOutcomeView;

    open spec fn view(&self) -> DirectProviderOutcomeView {
        DirectProviderOutcomeView {
            success: self.success,
            error_class: self.error_class.deep_view(),
            http_status: self.http_status.deep_view(),
            duration_ms: self.duration_ms,
            stream_duration_ms: self.stream_duration_ms,
            tokens_prompt: self.tokens_prompt,
            tokens_completion: self.tokens_completion,
            tokens_total: self.tokens_total,
        }
    }
}

impl DirectProviderOutcomeView {
    /// Nothing is known yet.
    pub open spec fn unknown() -> Self {
        DirectProviderOutcomeView {
            success: false,
            error_class: None,
            http_status: None,
            duration_ms: 0,
            stream_duration_ms: None,
            tokens_prompt: None,
            tokens_completion: None,
            tokens_total: None,
        }
    }
}

impl DirectProviderOutcome {
    /// Nothing is known yet.
    pub fn unknown() -> (r: Self)
        ensures
            r@ == DirectProviderOutcomeView::unknown(),
    {
        DirectProviderOutcome {
            success: false,
            error_class: None,
            http_status: None,
            duration_ms: 0,
            stream_duration_ms: None,
            tokens_prompt: None,
            tokens_completion: None,
            tokens_total: None,
        }
    }
}

/// A report.
#[derive(Debug, PartialEq, Eq)]
pub enum TelemetryEvent {
    DirectProviderRequestStarted {
        provider_kind: String,
        endpoint_origin_hash: String,
        model_id_hash: String,
        is_local: Option<bool>,
    },
    DirectProviderRequestCompleted {
        provider_kind: String,
        endpoint_origin_hash: String,
        model_id_hash: String,
        success: bool,
        error_class: Option<String>,
        duration_ms: u64,
        stream_duration_ms: Option<u64>,
        http_status_family: Option<String>,
        is_local: Option<bool>,
        tokens_prompt: Option<u64>,
        tokens_completion: Option<u64>,
        tokens_total: Option<u64>,
    },
}

/// What a [`TelemetryEvent`] is.
pub enum TelemetryEventView {
    DirectProviderRequestStarted {
        provider_kind: Seq<char>,
        endpoint_origin_hash: Seq<char>,
        model_id_hash: Seq<char>,
        is_local: Option<bool>,
    },
    DirectProviderRequestCompleted {
        provider_kind: Seq<char>,
        endpoint_origin_hash: Seq<char>,
        model_id_hash: Seq<char>,
        success: bool,
        error_class: Option<Seq<char>>,
        duration_ms: u64,
        stream_duration_ms: Option<u64>,
        http_status_family: Option<Seq<char>>,
        is_local: Option<bool>,
        tokens_prompt: Option<u64>,
        tokens_completion: Option<u64>,
        tokens_total: Option<u64>,
    },
}

impl View for TelemetryEvent {
    type V = TelemetryEventView;

    open spec fn view(&self) -> TelemetryEventView {
        match self {
            TelemetryEvent::DirectProviderRequestStarted {
                provider_kind,
                endpoint_origin_hash,
                model_id_hash,
                is_local,
            } => TelemetryEventView::DirectProviderRequestStarted {
                provider_kind: provider_kind@,
                endpoint_origin_hash: endpoint_origin_hash@,
                model_id_hash: model_id_hash@,
                is_local: *is_local,
            },
            TelemetryEvent::DirectProviderRequestCompleted {
                provider_kind,
                endpoint_origin_hash,
                model_id_hash,
                success,
                error_class,
                duration_ms,
                stream_duration_ms,
                http_status_family,
                is_local,
                tokens_prompt,
                tokens_completion,
                tokens_total,
            } => TelemetryEventView::DirectProviderRequestCompleted {
                provider_kind: provider_kind@,
                endpoint_origin_hash: endpoint_origin_hash@,
                model_id_hash: model_id_hash@,
                success: *success,
                error_class: error_class.deep_view(),
                duration_ms: *duration_ms,
                stream_duration_ms: *stream_duration_ms,
                http_status_family: http_status_family.deep_view(),
                is_local: *is_local,
                tokens_prompt: *tokens_prompt,
                tokens_completion: *tokens_completion,
                tokens_total: *tokens_total,
            },
        }
    }
}

/// The fingerprint of the origin of an endpoint.
pub open spec fn origin_fingerprint(base_url: Seq<char>) -> Seq<char> {
    fingerprint::fingerprint_of(endpoint::origin_of_parts(base_url, endpoint::url_parts(base_url)))
}

/// The fingerprint of a text.
pub fn direct_provider_telemetry_hash(value: &str) -> (r: String)
    ensures
        r@ == fingerprint::fingerprint_of(value@),
        r@.len() == 71,
{
    fingerprint(value)
}

/// The fingerprint of the origin of an endpoint.
pub fn direct_provider_endpoint_origin_hash(base_url: &str) -> (r: String)
    ensures
        r@ == origin_fingerprint(base_url@),
        r@.len() == 71,
{
    let origin = endpoint_origin(base_url);
    direct_provider_telemetry_hash(origin.as_str())
}

/// The report of a request that starts.
pub open spec fn started_of(telemetry: DirectProviderTelemetryView) -> TelemetryEventView {
    TelemetryEventView::DirectProviderRequestStarted {
        provider_kind: telemetry.provider_kind.spec_name(),
        endpoint_origin_hash: origin_fingerprint(telemetry.base_url),
        model_id_hash: fingerprint::fingerprint_of(telemetry.model),
        is_local: endpoint::local_only_of(telemetry.base_url),
    }
}

/// The report of a request that has ended.
pub open spec fn completed_of(
    telemetry: DirectProviderTelemetryView,
    outcome: DirectProviderOutcomeView,
) -> TelemetryEventView {
    TelemetryEventView::DirectProviderRequestCompleted {
        provider_kind: telemetry.provider_kind.spec_name(),
        endpoint_origin_hash: origin_fingerprint(telemetry.base_url),
        model_id_hash: fingerprint::fingerprint_of(telemetry.model),
        success: outcome.success,
        error_class: outcome.error_class,
        duration_ms: outcome.duration_ms,
        stream_duration_ms: outcome.stream_duration_ms,
        http_status_family: match outcome.http_status {
            Some(status) => Some(http_status::family_of(status)),
            None => None,
        },
        is_local: endpoint::local_only_of(telemetry.base_url),
        tokens_prompt: outcome.tokens_prompt,
        tokens_completion: outcome.tokens_completion,
        tokens_total: outcome.tokens_total,
    }
}

/// The report of a request that starts.
pub fn direct_provider_started(telemetry: &DirectProviderTelemetry) -> (r: TelemetryEvent)
    ensures
        r@ == started_of(telemetry@),
{
    TelemetryEvent::DirectProviderRequestStarted {
        provider_kind: telemetry.provider_kind.name(),
        endpoint_origin_hash: direct_provider_endpoint_origin_hash(telemetry.base_url.as_str()),
        model_id_hash: direct_provider_telemetry_hash(telemetry.model.as_str()),
        is_local: infer_local_only(telemetry.base_url.as_str()),
    }
}

/// The report of a request that has ended.
pub fn direct_provider_completed(telemetry: &DirectProviderTelemetry, outcome: DirectProviderOutcome) -> (r:
    TelemetryEvent)
    ensures
        r@ == completed_of(telemetry@, outcome@),
{
    let http_status_family = match &outcome.http_status {
        Some(status) => Some(status_family(status.as_u16())),
        None => None,
    };
    TelemetryEvent::DirectProviderRequestCompleted {
        provider_kind: telemetry.provider_kind.name(),
        endpoint_origin_hash: direct_provider_endpoint_origin_hash(telemetry.base_url.as_str()),
        model_id_hash: direct_provider_telemetry_hash(telemetry.model.as_str()),
        success: outcome.success,
        error_class: outcome.error_class,
        duration_ms: outcome.duration_ms,
        stream_duration_ms: outcome.stream_duration_ms,
        http_status_family,
        is_local: infer_local_only(telemetry.base_url.as_str()),
        tokens_prompt: outcome.tokens_prompt,
        tokens_completion: outcome.tokens_completion,
        tokens_total: outcome.tokens_total,
    }
}

/// A text, or `null`.
pub open spec fn text_or_null(s: Option<Seq<char>>) -> JsonView {
    match s {
        Some(t) => JsonView::Text(t),
        None => JsonView::Null,
    }
}

/// A whole number, or `null`.
pub open spec fn number_or_null(n: Option<u64>) -> JsonView {
    match n {
        Some(n) => JsonView::Number(JsonNumberView::Unsigned(n)),
        None => JsonView::Null,
    }
}

/// A truth value, or `null`.
pub open spec fn bool_or_null(b: Option<bool>) -> JsonView {
    match b {
        Some(b) => JsonView::Bool(b),
        None => JsonView::Null,
    }
}

impl TelemetryEventView {
    /// The members of the payload: each field under its name.
    pub open spec fn payload_members(self) -> Seq<(Seq<char>, JsonView)> {
        match self {
            TelemetryEventView::DirectProviderRequestStarted {
                provider_kind,
                endpoint_origin_hash,
                model_id_hash,
                is_local,
            } => seq![
                ("provider_kind"@, JsonView::Text(provider_kind)),
                ("endpoint_origin_hash"@, JsonView::Text(endpoint_origin_hash)),
                ("model_id_hash"@, JsonView::Text(model_id_hash)),
                ("is_local"@, bool_or_null(is_local)),
            ],
            TelemetryEventView::DirectProviderRequestCompleted {
                provider_kind,
                endpoint_origin_hash,
                model_id_hash,
                success,
                error_class,
                duration_ms,
                stream_duration_ms,
                http_status_family,
                is_local,
                tokens_prompt,
                tokens_completion,
                tokens_total,
            } => seq![
                ("provider_kind"@, JsonView::Text(provider_kind)),
                ("endpoint_origin_hash"@, JsonView::Text(endpoint_origin_hash)),
                ("model_id_hash"@, JsonView::Text(model_id_hash)),
                ("success"@, JsonView::Bool(success)),
                ("error_class"@, text_or_null(error_class)),
                ("duration_ms"@, JsonView::Number(JsonNumberView::Unsigned(duration_ms))),
                ("stream_duration_ms"@, number_or_null(stream_duration_ms)),
                ("http_status_family"@, text_or_null(http_status_family)),
                ("is_local"@, bool_or_null(is_local)),
                ("tokens_prompt"@, number_or_null(tokens_prompt)),
                ("tokens_completion"@, number_or_null(tokens_completion)),
                ("tokens_total"@, number_or_null(tokens_total)),
            ],
        }
    }
}

/// A text, or `null`.
fn text_json(s: &Option<String>) -> (r: Json)
    ensures
        r@ == text_or_null(s.deep_view()),
{
    match s {
        Some(t) => Json::text(t.as_str()),
        None => Json::Null,
    }
}

/// A whole number, or `null`.
fn number_json(n: Option<u64>) -> (r: Json)
    ensures
        r@ == number_or_null(n),
{
    match n {
        Some(n) => Json::Number(JsonNumber::Unsigned(n)),
        None => Json::Null,
    }
}

/// A truth value, or `null`.
fn bool_json(b: Option<bool>) -> (r: Json)
    ensures
        r@ == bool_or_null(b),
{
    match b {
        Some(b) => Json::Bool(b),
        None => Json::Null,
    }
}

impl TelemetryEvent {
    /// Does the report hold anything that a user or a model said? It never does.
    pub fn contains_ugc(&self) -> (r: bool)
        ensures
            r == false,
    {
        false
    }

    /// What the report holds: each field under its name.
    pub fn payload(&self) -> (r: Option<Json>)
        ensures
            r matches Some(value) && value@ == JsonView::Object(self@.payload_members()),
    {
        broadcast use json::lemma_object_view;

        let mut members: Vec<(String, Json)> = Vec::new();
        match self {
            TelemetryEvent::DirectProviderRequestStarted {
                provider_kind,
                endpoint_origin_hash,
                model_id_hash,
                is_local,
            } => {
                push_member(&mut members, "provider_kind", Json::text(provider_kind.as_str()));
                push_member(&mut members, "endpoint_origin_hash", Json::text(endpoint_origin_hash.as_str()));
                push_member(&mut members, "model_id_hash", Json::text(model_id_hash.as_str()));
                push_member(&mut members, "is_local", bool_json(*is_local));
            },
            TelemetryEvent::DirectProviderRequestCompleted {
                provider_kind,
                endpoint_origin_hash,
                model_id_hash,
                success,
                error_class,
                duration_ms,
                stream_duration_ms,
                http_status_family,
                is_local,
                tokens_prompt,
                tokens_completion,
                tokens_total,
            } => {
                push_member(&mut members, "provider_kind", Json::text(provider_kind.as_str()));
                push_member(&mut members, "endpoint_origin_hash", Json::text(endpoint_origin_hash.as_str()));
                push_member(&mut members, "model_id_hash", Json::text(model_id_hash.as_str()));
                push_member(&mut members, "success", Json::Bool(*success));
                push_member(&mut members, "error_class", text_json(error_class));
                push_member(&mut members, "duration_ms", Json::Number(JsonNumber::Unsigned(*duration_ms)));
                push_member(&mut members, "stream_duration_ms", number_json(*stream_duration_ms));
                push_member(&mut members, "http_status_family", text_json(http_status_family));
                push_member(&mut members, "is_local", bool_json(*is_local));
                push_member(&mut members, "tokens_prompt", number_json(*tokens_prompt));
                push_member(&mut members, "tokens_completion", number_json(*tokens_completion));
                push_member(&mut members, "tokens_total", number_json(*tokens_total));
            },
        }
        proof {
            assert(json::member_views(members@) =~= self@.payload_members());
        }
        Some(Json::Object(members))
    }
}

/// A report tells two endpoints or models apart only by their fingerprints and
/// by whether they are local: where these agree, so do the reports.
pub proof fn law_reports_hold_fingerprints_only(
    a: DirectProviderTelemetryView,
    b: DirectProviderTelemetryView,
    outcome: DirectProviderOutcomeView,
)
    requires
        a.provider_kind == b.provider_kind,
        origin_fingerprint(a.base_url) == origin_fingerprint(b.base_url),
        endpoint::local_only_of(a.base_url) == endpoint::local_only_of(b.base_url),
        fingerprint::fingerprint_of(a.model) == fingerprint::fingerprint_of(b.model),
    ensures
        started_of(a).payload_members() == started_of(b).payload_members(),
        completed_of(a, outcome).payload_members() == completed_of(b, outcome).payload_members(),
{
}

/// Two URLs with the same scheme, host and port have the same fingerprint: the
/// path is not reported.
pub proof fn law_origin_fingerprint_leaves_the_path_out(a: Seq<char>, b: Seq<char>)
    requires
        endpoint::url_parts(a) is Some,
        endpoint::url_parts(a)->0.host is Some,
        endpoint::url_parts(a) == endpoint::url_parts(b),
    ensures
        origin_fingerprint(a) == origin_fingerprint(b),
{
}

/// A report tells what it is named for, each under its own name: how the request
/// went, how long it took, the family of its status, and of the endpoint and the
/// model their fingerprints only.
pub proof fn law_reports_tell_how_the_request_went(
    telemetry: DirectProviderTelemetryView,
    outcome: DirectProviderOutcomeView,
)
    ensures
        ({
            let report = JsonView::Object(completed_of(telemetry, outcome).payload_members());
            &&& report.str_at("provider_kind"@) == Some(telemetry.provider_kind.spec_name())
            &&& report.str_at("endpoint_origin_hash"@) == Some(origin_fingerprint(telemetry.base_url))
            &&& report.str_at("model_id_hash"@) == Some(fingerprint::fingerprint_of(telemetry.model))
            &&& report.get("success"@) == Some(JsonView::Bool(outcome.success))
            &&& report.str_at("error_class"@) == outcome.error_class
            &&& report.get("duration_ms"@) == Some(JsonView::Number(JsonNumberView::Unsigned(outcome.duration_ms)))
            &&& is_number_or_null(report.get("stream_duration_ms"@), outcome.stream_duration_ms)
            &&& outcome.http_status is None ==> report.get("http_status_family"@) == Some(JsonView::Null)
            &&& outcome.http_status matches Some(status) ==> report.str_at("http_status_family"@) == Some(
                http_status::family_of(status),
            )
            &&& endpoint::local_only_of(telemetry.base_url) matches Some(local) ==> report.get("is_local"@) == Some(
                JsonView::Bool(local),
            )
            &&& endpoint::local_only_of(telemetry.base_url) is None ==> report.get("is_local"@) == Some(JsonView::Null)
            &&& is_number_or_null(report.get("tokens_prompt"@), outcome.tokens_prompt)
            &&& is_number_or_null(report.get("tokens_completion"@), outcome.tokens_completion)
            &&& is_number_or_null(report.get("tokens_total"@), outcome.tokens_total)
        }),
{
    let members = completed_of(telemetry, outcome).payload_members();
    lemma_payload_names();
    let names = payload_names();
    assert forall|i: int| 0 <= i < names.len() implies json::member(members, #[trigger] names[i]) == Some(
        members[i].1,
    ) by {
        assert forall|j: int| 0 <= j < members.len() implies (#[trigger] members[j]).0 == names[j] by {}
        json::law_lookup_finds_the_first_member(members, names[i]);
        assert forall|j: int| 0 <= j < i implies (#[trigger] members[j]).0 != names[i] by {
            assert(names[j] != names[i]);
        }
        assert(members[i].0 == names[i]);
        assert(JsonView::Object(members).get(names[i]) == Some(members[i].1));
    }
    assert(names[0] == "provider_kind"@ && names[1] == "endpoint_origin_hash"@ && names[2] == "model_id_hash"@);
    assert(names[3] == "success"@ && names[4] == "error_class"@ && names[5] == "duration_ms"@);
    assert(names[6] == "stream_duration_ms"@ && names[7] == "http_status_family"@ && names[8] == "is_local"@);
    assert(names[9] == "tokens_prompt"@ && names[10] == "tokens_completion"@ && names[11] == "tokens_total"@);
}

/// Is this the number, or `null` where there is none?
pub open spec fn is_number_or_null(found: Option<JsonView>, n: Option<u64>) -> bool {
    match n {
        Some(n) => found == Some(JsonView::Number(JsonNumberView::Unsigned(n))),
        None => found == Some(JsonView::Null),
    }
}

/// The names in the report of a request that has ended.
pub open spec fn payload_names() -> Seq<Seq<char>> {
    seq![
        "provider_kind"@,
        "endpoint_origin_hash"@,
        "model_id_hash"@,
        "success"@,
        "error_class"@,
        "duration_ms"@,
        "stream_duration_ms"@,
        "http_status_family"@,
        "is_local"@,
        "tokens_prompt"@,
        "tokens_completion"@,
        "tokens_total"@,
    ]
}

/// The names in a report are told apart.
proof fn lemma_payload_names()
    ensures
        forall|i: int, j: int|
            0 <= i < j < payload_names().len() ==> #[trigger] payload_names()[i] != #[trigger] payload_names()[j],
{
    reveal_strlit("provider_kind");
    reveal_strlit("endpoint_origin_hash");
    reveal_strlit("model_id_hash");
    reveal_strlit("success");
    reveal_strlit("error_class");
    reveal_strlit("duration_ms");
    reveal_strlit("stream_duration_ms");
    reveal_strlit("http_status_family");
    reveal_strlit("is_local");
    reveal_strlit("tokens_prompt");
    reveal_strlit("tokens_completion");
    reveal_strlit("tokens_total");
    assert("provider_kind"@.len() == 13 && "provider_kind"@[0] == 'p');
    assert("endpoint_origin_hash"@.len() == 20);
    assert("model_id_hash"@.len() == 13 && "model_id_hash"@[0] == 'm');
    assert("success"@.len() == 7);
    assert("error_class"@.len() == 11 && "error_class"@[0] == 'e');
    assert("duration_ms"@.len() == 11 && "duration_ms"@[0] == 'd');
    assert("stream_duration_ms"@.len() == 18 && "stream_duration_ms"@[0] == 's');
    assert("http_status_family"@.len() == 18 && "http_status_family"@[0] == 'h');
    assert("is_local"@.len() == 8);
    assert("tokens_prompt"@.len() == 13 && "tokens_prompt"@[0] == 't');
    assert("tokens_completion"@.len() == 17);
    assert("tokens_total"@.len() == 12);
}

/// The report of a request that starts tells the same of the provider, the
/// endpoint and the model as that of one that has ended.
pub proof fn law_first_report_names_the_same_provider(
    telemetry: DirectProviderTelemetryView,
    outcome: DirectProviderOutcomeView,
)
    ensures
        ({
            let first = JsonView::Object(started_of(telemetry).payload_members());
            let last = JsonView::Object(completed_of(telemetry, outcome).payload_members());
            &&& first.get("provider_kind"@) == last.get("provider_kind"@)
            &&& first.get("endpoint_origin_hash"@) == last.get("endpoint_origin_hash"@)
            &&& first.get("model_id_hash"@) == last.get("model_id_hash"@)
            &&& first.get("is_local"@) == last.get("is_local"@)
            &&& first.get("success"@) is None
        }),
{
    law_reports_tell_how_the_request_went(telemetry, outcome);
    lemma_payload_names();
    let names = payload_names();
    assert(names[0] != names[1] && names[0] != names[2] && names[0] != names[3] && names[0] != names[8]);
    assert(names[1] != names[2] && names[1] != names[3] && names[1] != names[8]);
    assert(names[2] != names[3] && names[2] != names[8] && names[3] != names[8]);
    reveal_with_fuel(json::member, 5);
    let members = completed_of(telemetry, outcome).payload_members();
    json::law_lookup_finds_the_first_member(members, "is_local"@);
    assert forall|j: int| 0 <= j < members.len() implies (#[trigger] members[j]).0 == names[j] by {}
    assert forall|j: int| 0 <= j < 8 implies (#[trigger] members[j]).0 != "is_local"@ by {
        assert(names[j] != names[8]);
    }
    assert(members[8].0 == "is_local"@);
    assert(JsonView::Object(members).get("is_local"@) == Some(members[8].1));
}

} // verus!
