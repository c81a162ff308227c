//! What holds of the registry as a whole.
use vstd::prelude::*;

use crate::clock::{TimestampView, NANOS_PER_SECOND};
use crate::profile::{
    AuthConfigView, AuthSource, DiscoveredModelView, ProviderKind, ProviderPolicy, ProviderProfileView,
    LEGACY_ANTHROPIC_PROVIDER_ID, LEGACY_OPENAI_PROVIDER_ID, VALIDATION_MAX_AGE_SECS, WARP_HOSTED_PROVIDER_ID,
};
use crate::provider_registry;
use crate::provider_registry::{
    ProviderModelChoiceView, ProviderQualifiedModelIdView, ProviderRegistryView, ProviderResolutionErrorView,
    ResolvedAuthView, ResolvedProviderView,
};
use crate::provider_validator::ValidationResultView;
use crate::string_map;
use crate::text;

verus! {

/// The registry that everything starts from stores each profile under its id,
/// and every change keeps it so.
pub proof fn law_profiles_stay_under_their_ids(
    registry: ProviderRegistryView,
    provider: ProviderProfileView,
    id: Seq<char>,
    result: ValidationResultView,
    now: TimestampView,
    models: Seq<DiscoveredModelView>,
)
    requires
        registry.keyed_by_id(),
    ensures
        ProviderRegistryView::initial().keyed_by_id(),
        registry.with_warp_hosted().keyed_by_id(),
        registry.with_provider(provider).keyed_by_id(),
        registry.with_validation(id, result, now).keyed_by_id(),
        registry.with_discovered(id, models).keyed_by_id(),
{
}

/// The registry at start stores each profile under its id if what was stored
/// before did.
pub proof fn law_start_keeps_ids(
    existing: Option<ProviderRegistryView>,
    openai_key: bool,
    anthropic_key: bool,
    anthropic_model: Seq<char>,
)
    requires
        existing matches Some(registry) ==> registry.keyed_by_id(),
    ensures
        ProviderRegistryView::from_existing(existing, openai_key, anthropic_key, anthropic_model).keyed_by_id(),
{
}

/// To add the provider that Warp hosts a second time changes nothing, and after
/// the first time it is there and both defaults are set.
pub proof fn law_warp_hosted_is_added_once(registry: ProviderRegistryView)
    ensures
        registry.with_warp_hosted().with_warp_hosted() == registry.with_warp_hosted(),
        registry.with_warp_hosted().providers.contains_key(WARP_HOSTED_PROVIDER_ID@),
        registry.with_warp_hosted().defaults.agent_provider is Some,
        registry.with_warp_hosted().defaults.agent_model is Some,
{
}

/// At start the registry has the profiles that were stored, unchanged, the
/// provider that Warp hosts, and a profile for each first-party key; no other
/// key makes a profile.
pub proof fn law_start_adds_first_party_profiles_only(
    existing: Option<ProviderRegistryView>,
    openai_key: bool,
    anthropic_key: bool,
    anthropic_model: Seq<char>,
    id: Seq<char>,
)
    ensures
        ({
            let started = ProviderRegistryView::from_existing(existing, openai_key, anthropic_key, anthropic_model);
            let was_stored = existing matches Some(registry) && registry.providers.contains_key(id);
            &&& started.providers.contains_key(id) <==> {
                ||| was_stored
                ||| id == WARP_HOSTED_PROVIDER_ID@
                ||| openai_key && id == LEGACY_OPENAI_PROVIDER_ID@
                ||| anthropic_key && id == LEGACY_ANTHROPIC_PROVIDER_ID@
            }
            &&& was_stored ==> started.providers[id] == existing->0.providers[id]
        }),
{
}

/// To start again from what the start made changes nothing.
pub proof fn law_start_is_idempotent(
    existing: Option<ProviderRegistryView>,
    openai_key: bool,
    anthropic_key: bool,
    anthropic_model: Seq<char>,
)
    ensures
        ({
            let started = ProviderRegistryView::from_existing(existing, openai_key, anthropic_key, anthropic_model);
            ProviderRegistryView::from_existing(Some(started), openai_key, anthropic_key, anthropic_model) == started
        }),
{
}

/// A change to one provider leaves the others and the defaults as they are.
pub proof fn law_changes_touch_one_provider(
    registry: ProviderRegistryView,
    provider: ProviderProfileView,
    id: Seq<char>,
    result: ValidationResultView,
    now: TimestampView,
    models: Seq<DiscoveredModelView>,
    other: Seq<char>,
)
    requires
        registry.providers.contains_key(other),
    ensures
        other != provider.id ==> registry.with_provider(provider).providers.contains_key(other)
            && registry.with_provider(provider).providers[other] == registry.providers[other],
        other != id ==> registry.with_validation(id, result, now).providers.contains_key(other)
            && registry.with_validation(id, result, now).providers[other] == registry.providers[other],
        other != id ==> registry.with_discovered(id, models).providers.contains_key(other)
            && registry.with_discovered(id, models).providers[other] == registry.providers[other],
        registry.with_provider(provider).defaults == registry.defaults,
        registry.with_validation(id, result, now).defaults == registry.defaults,
        registry.with_discovered(id, models).defaults == registry.defaults,
{
}

/// A profile that is added can be looked up under its id, as it was but for its
/// cache and whether it is local; an update without a cache keeps the cache that
/// was there.
pub proof fn law_added_profile_is_found(registry: ProviderRegistryView, provider: ProviderProfileView)
    ensures
        ({
            let after = registry.with_provider(provider);
            let stored = after.providers[provider.id];
            &&& after.providers.contains_key(provider.id)
            &&& stored == (ProviderProfileView {
                validation_cache: stored.validation_cache,
                policy: ProviderPolicy { local_only: stored.policy.local_only, ..provider.policy },
                ..provider
            })
            &&& provider.validation_cache is Some ==> stored.validation_cache == provider.validation_cache
            &&& provider.validation_cache is None && registry.providers.contains_key(provider.id)
                ==> stored.validation_cache == registry.providers[provider.id].validation_cache
            &&& provider.policy.local_only is Some ==> stored.policy.local_only == provider.policy.local_only
        }),
{
}

/// To add a profile twice is to add it once.
pub proof fn law_adding_twice_is_adding_once(registry: ProviderRegistryView, provider: ProviderProfileView)
    ensures
        registry.with_provider(provider).with_provider(provider) == registry.with_provider(provider),
{
    let once = registry.with_provider(provider);
    assert(once.with_provider(provider).providers =~= once.providers);
}

/// A validation or a discovery never changes who a provider is, where it is, how
/// it is told who asks, whether it is enabled, or what the user allows it.
pub proof fn law_checks_keep_configuration(
    registry: ProviderRegistryView,
    id: Seq<char>,
    result: ValidationResultView,
    now: TimestampView,
    models: Seq<DiscoveredModelView>,
)
    requires
        registry.providers.contains_key(id),
    ensures
        same_configuration(registry.providers[id], registry.with_validation(id, result, now).providers[id]),
        same_configuration(registry.providers[id], registry.with_discovered(id, models).providers[id]),
{
}

/// Do two profiles agree on what the user has configured?
pub open spec fn same_configuration(a: ProviderProfileView, b: ProviderProfileView) -> bool {
    &&& a.id == b.id
    &&& a.kind == b.kind
    &&& a.enabled == b.enabled
    &&& a.display_name == b.display_name
    &&& a.base_url == b.base_url
    &&& a.auth == b.auth
    &&& a.headers == b.headers
    &&& a.defaults == b.defaults
    &&& a.capabilities == b.capabilities
    &&& a.policy == b.policy
}

/// A request is answered by the provider that it asks for, or not at all: no
/// other takes its place. A disabled provider is never picked.
pub proof fn law_no_other_provider_answers(
    registry: ProviderRegistryView,
    requested_model: Option<Seq<char>>,
    now: TimestampView,
)
    ensures
        registry.resolution(requested_model, now) matches Ok(resolved) ==> {
            let selected = registry.selection(requested_model);
            &&& registry.providers.contains_key(selected.provider_id)
            &&& registry.providers[selected.provider_id].enabled
            &&& resolved == ResolvedProviderView::of(registry.providers[selected.provider_id], selected.model_id)
        },
{
}

/// In a registry with profiles under their ids, a request for a model of another
/// provider never comes to the one that Warp hosts.
pub proof fn law_no_silent_switch_to_warp_hosted(
    registry: ProviderRegistryView,
    id: ProviderQualifiedModelIdView,
    now: TimestampView,
)
    requires
        registry.keyed_by_id(),
        id.provider_id.len() > 0,
        !id.provider_id.contains(':'),
        id.model_id.len() > 0,
        id.provider_id != WARP_HOSTED_PROVIDER_ID@,
    ensures
        registry.resolution(Some(id.written()), now) matches Ok(resolved) ==> {
            &&& resolved.profile_id == id.provider_id
            &&& resolved.profile_id != WARP_HOSTED_PROVIDER_ID@
            &&& resolved.model == id.model_id
        },
{
    provider_registry::law_written_id_reads_back(id);
}

/// Without a validation cache, the time makes no difference.
pub proof fn law_time_matters_only_with_a_cache(
    registry: ProviderRegistryView,
    requested_model: Option<Seq<char>>,
    now: TimestampView,
    later: TimestampView,
)
    requires
        ({
            let id = registry.selection(requested_model).provider_id;
            registry.providers.contains_key(id) ==> registry.providers[id].validation_cache is None
        }),
    ensures
        registry.resolution(requested_model, now) == registry.resolution(requested_model, later),
{
}

/// A model id without a provider goes to the enabled provider that Warp hosts,
/// whatever the model.
pub proof fn law_unqualified_models_go_to_warp_hosted(
    registry: ProviderRegistryView,
    model: Seq<char>,
    now: TimestampView,
)
    requires
        ProviderQualifiedModelIdView::read(model) is None,
        registry.providers.contains_key(WARP_HOSTED_PROVIDER_ID@),
        registry.providers[WARP_HOSTED_PROVIDER_ID@] == ProviderProfileView::warp_hosted(),
    ensures
        registry.resolution(Some(model), now) == Ok::<ResolvedProviderView, ProviderResolutionErrorView>(
            ResolvedProviderView::of(ProviderProfileView::warp_hosted(), model),
        ),
{
}

/// The choices are the models of the enabled providers, and nothing else.
pub proof fn law_choices_are_models_of_enabled_providers(registry: ProviderRegistryView, choice: ProviderModelChoiceView)
    requires
        registry.providers.dom().finite(),
    ensures
        registry.choices().contains(choice) <==> exists|id: Seq<char>, model: Seq<char>|
            #![trigger registry.providers[id], ProviderModelChoiceView::of(registry.providers[id], model)]
            {
                &&& registry.providers.contains_key(id)
                &&& registry.providers[id].enabled
                &&& registry.providers[id].model_ids().contains(model)
                &&& choice == ProviderModelChoiceView::of(registry.providers[id], model)
            },
{
    let listing = string_map::listing_of(registry.providers);
    let keys = string_map::keys_of(listing);
    string_map::lemma_listing_of(registry.providers);
    lemma_listed_choices(listing, choice);
    if registry.choices().contains(choice) {
        let i = choose|i: int| 0 <= i < listing.len() && provider_registry::provider_choices((#[trigger] listing[i]).1).contains(choice);
        let provider = listing[i].1;
        let id = listing[i].0;
        assert(registry.providers.contains_key(id) && registry.providers[id] == provider);
        let offered = provider_registry::provider_choices(provider);
        let j = choose|j: int| 0 <= j < offered.len() && offered[j] == choice;
        let model = provider.model_ids()[j];
        assert(provider.model_ids().contains(model));
        assert(choice == ProviderModelChoiceView::of(registry.providers[id], model));
    }
    if exists|id: Seq<char>, model: Seq<char>|
        #![trigger registry.providers[id], ProviderModelChoiceView::of(registry.providers[id], model)]
        {
            &&& registry.providers.contains_key(id)
            &&& registry.providers[id].enabled
            &&& registry.providers[id].model_ids().contains(model)
            &&& choice == ProviderModelChoiceView::of(registry.providers[id], model)
        } {
        let (id, model) = choose|id: Seq<char>, model: Seq<char>|
            #![trigger registry.providers[id], ProviderModelChoiceView::of(registry.providers[id], model)]
            {
                &&& registry.providers.contains_key(id)
                &&& registry.providers[id].enabled
                &&& registry.providers[id].model_ids().contains(model)
                &&& choice == ProviderModelChoiceView::of(registry.providers[id], model)
            };
        assert(keys.contains(id));
        let i = choose|i: int| 0 <= i < keys.len() && keys[i] == id;
        let provider = listing[i].1;
        assert(listing[i].0 == id);
        assert(registry.providers[listing[i].0] == provider);
        let j = choose|j: int| 0 <= j < provider.model_ids().len() && provider.model_ids()[j] == model;
        let offered = provider_registry::provider_choices(provider);
        assert(offered[j] == choice);
        assert(offered.contains(choice));
    }
}

/// A choice is among those of a list of providers if and only if it is among
/// those of one of them.
proof fn lemma_listed_choices(listing: Seq<(Seq<char>, ProviderProfileView)>, choice: ProviderModelChoiceView)
    ensures
        provider_registry::listed_choices(listing).contains(choice) <==> exists|i: int|
            0 <= i < listing.len() && provider_registry::provider_choices((#[trigger] listing[i]).1).contains(choice),
    decreases listing.len(),
{
    if listing.len() > 0 {
        let front = listing.drop_last();
        lemma_listed_choices(front, choice);
        let a = provider_registry::listed_choices(front);
        let b = provider_registry::provider_choices(listing.last().1);
        let all = provider_registry::listed_choices(listing);
        assert(all == a + b);
        if all.contains(choice) {
            let k = choose|k: int| 0 <= k < all.len() && all[k] == choice;
            if k < a.len() {
                assert(a[k] == choice);
                assert(a.contains(choice));
                let i = choose|i: int| 0 <= i < front.len() && provider_registry::provider_choices((#[trigger] front[i]).1).contains(choice);
                assert(listing[i] == front[i]);
            } else {
                assert(b[k - a.len()] == choice);
                assert(b.contains(choice));
                assert(listing[listing.len() - 1] == listing.last());
            }
        }
        if exists|i: int| 0 <= i < listing.len() && provider_registry::provider_choices((#[trigger] listing[i]).1).contains(choice) {
            let i = choose|i: int| 0 <= i < listing.len() && provider_registry::provider_choices((#[trigger] listing[i]).1).contains(choice);
            if i < front.len() {
                assert(front[i] == listing[i]);
                assert(a.contains(choice));
                let k = choose|k: int| 0 <= k < a.len() && a[k] == choice;
                assert(all[k] == choice);
            } else {
                let k = choose|k: int| 0 <= k < b.len() && b[k] == choice;
                assert(all[a.len() + k] == choice);
            }
        }
    } else {
        assert(provider_registry::listed_choices(listing).len() == 0);
    }
}

/// Does a choice stand before another: by its provider, and among those of one
/// provider by its model?
pub open spec fn choice_lt(a: ProviderModelChoiceView, b: ProviderModelChoiceView) -> bool {
    ||| text::text_lt(a.qualified_id.provider_id, b.qualified_id.provider_id)
    ||| a.qualified_id.provider_id == b.qualified_id.provider_id && text::text_lt(
        a.qualified_id.model_id,
        b.qualified_id.model_id,
    )
}

/// Every choice stands before every later one.
pub open spec fn choices_ascend(choices: Seq<ProviderModelChoiceView>) -> bool {
    forall|i: int, j: int| 0 <= i < j < choices.len() ==> choice_lt(#[trigger] choices[i], #[trigger] choices[j])
}

/// The choices are ordered by the id of the provider, and those of one provider
/// by the id of the model.
pub proof fn law_choices_are_ordered(registry: ProviderRegistryView)
    requires
        registry.providers.dom().finite(),
        registry.keyed_by_id(),
    ensures
        choices_ascend(registry.choices()),
{
    let listing = string_map::listing_of(registry.providers);
    string_map::lemma_listing_of(registry.providers);
    lemma_listed_choices_ascend(listing);
}

/// No model of a provider is offered twice.
pub proof fn law_no_choice_occurs_twice(registry: ProviderRegistryView, i: int, j: int)
    requires
        registry.providers.dom().finite(),
        registry.keyed_by_id(),
        0 <= i < j < registry.choices().len(),
    ensures
        registry.choices()[i].qualified_id != registry.choices()[j].qualified_id,
{
    law_choices_are_ordered(registry);
    let a = registry.choices()[i];
    let b = registry.choices()[j];
    assert(choice_lt(a, b));
    text::lemma_text_lt_irreflexive(a.qualified_id.provider_id);
    text::lemma_text_lt_irreflexive(a.qualified_id.model_id);
}

/// The choices among the models of providers in ascending order of their ids are
/// in order, and each is of one of these providers.
proof fn lemma_listed_choices_ascend(listing: Seq<(Seq<char>, ProviderProfileView)>)
    requires
        text::ascending(string_map::keys_of(listing)),
        forall|i: int| 0 <= i < listing.len() ==> (#[trigger] listing[i]).1.id == listing[i].0,
    ensures
        choices_ascend(provider_registry::listed_choices(listing)),
        forall|k: int|
            0 <= k < provider_registry::listed_choices(listing).len() ==> string_map::keys_of(listing).contains(
                (#[trigger] provider_registry::listed_choices(listing)[k]).qualified_id.provider_id,
            ),
    decreases listing.len(),
{
    if listing.len() > 0 {
        let front = listing.drop_last();
        let provider = listing.last().1;
        let keys = string_map::keys_of(listing);
        let earlier = string_map::keys_of(front);
        assert(earlier =~= keys.drop_last());
        assert forall|i: int, j: int| 0 <= i < j < earlier.len() implies text::text_lt(
            #[trigger] earlier[i],
            #[trigger] earlier[j],
        ) by {
            assert(text::text_lt(keys[i], keys[j]));
        }
        assert forall|i: int| 0 <= i < front.len() implies (#[trigger] front[i]).1.id == front[i].0 by {
            assert(front[i] == listing[i]);
        }
        lemma_listed_choices_ascend(front);
        text::lemma_sorted_ids(provider.all_ids());
        let a = provider_registry::listed_choices(front);
        let b = provider_registry::provider_choices(provider);
        let all = provider_registry::listed_choices(listing);
        let n = a.len() as int;
        assert(all == a + b);
        assert(listing[listing.len() - 1] == listing.last());
        assert(keys[keys.len() - 1] == provider.id);
        assert forall|k: int| 0 <= k < all.len() implies keys.contains(
            (#[trigger] all[k]).qualified_id.provider_id,
        ) by {
            if k < n {
                assert(all[k] == a[k]);
                let m = choose|m: int| 0 <= m < earlier.len() && earlier[m] == a[k].qualified_id.provider_id;
                assert(keys[m] == all[k].qualified_id.provider_id);
            } else {
                assert(all[k] == b[k - n]);
            }
        }
        assert forall|i: int, j: int| 0 <= i < j < all.len() implies choice_lt(
            #[trigger] all[i],
            #[trigger] all[j],
        ) by {
            if j < n {
                assert(all[i] == a[i] && all[j] == a[j]);
            } else if i < n {
                assert(all[i] == a[i] && all[j] == b[j - n]);
                let m = choose|m: int| 0 <= m < earlier.len() && earlier[m] == a[i].qualified_id.provider_id;
                assert(text::text_lt(keys[m], keys[keys.len() - 1]));
            } else {
                assert(all[i] == b[i - n] && all[j] == b[j - n]);
                assert(text::text_lt(provider.model_ids()[i - n], provider.model_ids()[j - n]));
            }
        }
    }
}

/// The registry with a provider disabled, and everything else as it was.
pub open spec fn with_disabled(registry: ProviderRegistryView, id: Seq<char>) -> ProviderRegistryView {
    ProviderRegistryView {
        providers: registry.providers.insert(id, ProviderProfileView { enabled: false, ..registry.providers[id] }),
        ..registry
    }
}

/// Is a choice one of another provider?
pub open spec fn of_another(id: Seq<char>) -> spec_fn(ProviderModelChoiceView) -> bool {
    |choice: ProviderModelChoiceView| choice.qualified_id.provider_id != id
}

/// To disable a provider takes its choices away, and no others.
pub proof fn law_disabling_removes_the_choices_of_one_provider(registry: ProviderRegistryView, id: Seq<char>)
    requires
        registry.providers.dom().finite(),
        registry.keyed_by_id(),
        registry.providers.contains_key(id),
    ensures
        with_disabled(registry, id).choices() == registry.choices().filter(of_another(id)),
{
    let before = registry.providers;
    let after = with_disabled(registry, id).providers;
    let listing = string_map::listing_of(before);
    string_map::lemma_listing_of(before);
    let other = Seq::new(listing.len(), |i: int| (listing[i].0, after[listing[i].0]));
    assert(string_map::keys_of(other) =~= string_map::keys_of(listing));
    assert forall|k: Seq<char>| #[trigger] after.contains_key(k) <==> string_map::keys_of(other).contains(k) by {
        assert(before.contains_key(k) <==> string_map::keys_of(listing).contains(k));
    }
    assert forall|i: int| 0 <= i < other.len() implies after.contains_key((#[trigger] other[i]).0)
        && after[other[i].0] == other[i].1 by {
        assert(before.contains_key(listing[i].0));
    }
    assert(string_map::lists_map(other, after));
    string_map::lemma_listing_of(after);
    string_map::lemma_listing_unique(other, string_map::listing_of(after), after);
    assert forall|i: int| 0 <= i < listing.len() implies (#[trigger] listing[i]).1.id == listing[i].0 && other[i].1
        == if listing[i].0 == id {
        ProviderProfileView { enabled: false, ..listing[i].1 }
    } else {
        listing[i].1
    } by {
        assert(before.contains_key(listing[i].0) && before[listing[i].0] == listing[i].1);
    }
    lemma_listed_without(listing, other, id);
}

/// The choices among the models of providers of which one is disabled.
proof fn lemma_listed_without(
    listing: Seq<(Seq<char>, ProviderProfileView)>,
    other: Seq<(Seq<char>, ProviderProfileView)>,
    id: Seq<char>,
)
    requires
        other.len() == listing.len(),
        forall|i: int|
            0 <= i < listing.len() ==> (#[trigger] listing[i]).1.id == listing[i].0 && other[i].1 == if listing[i].0
                == id {
                ProviderProfileView { enabled: false, ..listing[i].1 }
            } else {
                listing[i].1
            },
    ensures
        provider_registry::listed_choices(other) == provider_registry::listed_choices(listing).filter(of_another(id)),
    decreases listing.len(),
{
    reveal(Seq::filter);
    if listing.len() > 0 {
        let front = listing.drop_last();
        let rest = other.drop_last();
        assert forall|i: int| 0 <= i < front.len() implies (#[trigger] front[i]).1.id == front[i].0 && rest[i].1
            == if front[i].0 == id {
            ProviderProfileView { enabled: false, ..front[i].1 }
        } else {
            front[i].1
        } by {
            assert(front[i] == listing[i] && rest[i] == other[i]);
        }
        lemma_listed_without(front, rest, id);
        let provider = listing.last().1;
        let offered = provider_registry::provider_choices(provider);
        assert(listing[listing.len() - 1] == listing.last());
        assert(other[other.len() - 1] == other.last());
        Seq::filter_distributes_over_add(provider_registry::listed_choices(front), offered, of_another(id));
        if provider.id == id {
            lemma_filter_nothing(offered, of_another(id));
            assert(provider_registry::provider_choices(other.last().1) =~= Seq::empty());
        } else {
            lemma_filter_all(offered, of_another(id));
        }
    }
}

/// Where nothing passes, nothing is left.
proof fn lemma_filter_nothing(choices: Seq<ProviderModelChoiceView>, passes: spec_fn(ProviderModelChoiceView) -> bool)
    requires
        forall|i: int| 0 <= i < choices.len() ==> !passes(#[trigger] choices[i]),
    ensures
        choices.filter(passes) == Seq::<ProviderModelChoiceView>::empty(),
    decreases choices.len(),
{
    reveal(Seq::filter);
    if choices.len() > 0 {
        lemma_filter_nothing(choices.drop_last(), passes);
        assert(!passes(choices[choices.len() - 1]));
    } else {
        assert(choices =~= Seq::empty());
    }
}

/// Where everything passes, everything is left.
proof fn lemma_filter_all(choices: Seq<ProviderModelChoiceView>, passes: spec_fn(ProviderModelChoiceView) -> bool)
    requires
        forall|i: int| 0 <= i < choices.len() ==> passes(#[trigger] choices[i]),
    ensures
        choices.filter(passes) == choices,
    decreases choices.len(),
{
    reveal(Seq::filter);
    if choices.len() > 0 {
        lemma_filter_all(choices.drop_last(), passes);
        assert(passes(choices[choices.len() - 1]));
        assert(choices.drop_last().push(choices.last()) =~= choices);
    }
}

/// A model that is offered is one that its provider knows.
proof fn lemma_offered_is_known(provider: ProviderProfileView, model: Seq<char>)
    ensures
        provider.model_ids().contains(model) <==> provider.all_ids().contains(model),
{
    text::lemma_sorted_ids(provider.all_ids());
}

/// A model that is offered can be asked for by its qualified id, and comes from
/// the provider that offered it; but for one that the provider reported, where
/// its last validation is stale and the user may not name models by hand.
pub proof fn law_offered_models_resolve(
    registry: ProviderRegistryView,
    id: Seq<char>,
    model: Seq<char>,
    now: TimestampView,
)
    requires
        registry.keyed_by_id(),
        registry.providers.contains_key(id),
        registry.providers[id].enabled,
        registry.providers[id].model_ids().contains(model),
        !registry.providers[id].is_stale_at(now) || registry.providers[id].policy.allow_manual_model_ids
            || !registry.providers[id].discovered_ids().contains(model),
        id.len() > 0,
        !id.contains(':'),
        model.len() > 0,
    ensures
        registry.resolution(Some(ProviderModelChoiceView::of(registry.providers[id], model).qualified_id.written()), now)
            == Ok::<ResolvedProviderView, ProviderResolutionErrorView>(
            ResolvedProviderView::of(registry.providers[id], model),
        ),
{
    lemma_offered_is_known(registry.providers[id], model);
    provider_registry::law_written_id_reads_back(ProviderModelChoiceView::of(registry.providers[id], model).qualified_id);
}

/// A disabled provider offers nothing and is never picked.
pub proof fn law_disabled_providers_are_out(
    registry: ProviderRegistryView,
    requested_model: Option<Seq<char>>,
    now: TimestampView,
)
    requires
        registry.providers.contains_key(registry.selection(requested_model).provider_id),
        !registry.providers[registry.selection(requested_model).provider_id].enabled,
    ensures
        provider_registry::provider_choices(registry.providers[registry.selection(requested_model).provider_id]).len() == 0,
        registry.resolution(requested_model, now) is Err,
{
}

/// After a validation, a model that it reported or that answered is known to the
/// provider.
pub proof fn law_validated_models_are_known(
    registry: ProviderRegistryView,
    id: Seq<char>,
    result: ValidationResultView,
    now: TimestampView,
    model: Seq<char>,
)
    requires
        registry.providers.contains_key(id),
        result.model == Some(model) || (result.discovered_models matches Some(infos) && exists|i: int|
            0 <= i < infos.len() && (#[trigger] infos[i]).id == model),
    ensures
        registry.with_validation(id, result, now).providers[id].all_ids().contains(model),
{
    let before = registry.providers[id];
    let after = provider_registry::validated_profile(before, result, now);
    let n = if after.defaults.model is Some { 1int } else { 0int };
    let ids = after.all_ids();
    if result.discovered_models matches Some(infos) && exists|i: int| 0 <= i < infos.len() && (#[trigger] infos[i]).id == model {
        let infos = result.discovered_models->0;
        let i = choose|i: int| 0 <= i < infos.len() && (#[trigger] infos[i]).id == model;
        assert(after.discovered_ids()[i] == model);
        assert(ids[n + i] == model);
    } else {
        let listed_ids = match result.discovered_models {
            Some(infos) => ProviderProfileView {
                discovered_models: provider_registry::reported_models(infos),
                ..before
            },
            None => before,
        }.all_ids();
        if !listed_ids.contains(model) {
            let manual = before.discovery.fallback_models.push(model);
            text::lemma_sorted_ids(manual);
            assert(manual[manual.len() - 1] == model);
            assert(text::sorted_ids(manual).contains(model));
            let sorted = text::sorted_ids(manual);
            let k = choose|k: int| 0 <= k < sorted.len() && sorted[k] == model;
            assert(after.discovery.fallback_models == sorted);
            assert(ids[n + after.discovered_ids().len() + k] == model);
        } else {
            assert(ids =~= listed_ids);
        }
    }
}

/// For a day after a validation, a model that it reported can be used; when the
/// day is over, it can be used only where the user may name models by hand.
pub proof fn law_discovered_models_resolve_for_a_day(
    registry: ProviderRegistryView,
    id: Seq<char>,
    result: ValidationResultView,
    validated: TimestampView,
    model: Seq<char>,
    now: TimestampView,
)
    requires
        registry.keyed_by_id(),
        registry.providers.contains_key(id),
        registry.providers[id].enabled,
        result.discovered_models matches Some(infos) && exists|i: int|
            0 <= i < infos.len() && (#[trigger] infos[i]).id == model,
        id.len() > 0,
        !id.contains(':'),
        model.len() > 0,
        now.nanos_after(validated) >= 0,
    ensures
        ({
            let after = registry.with_validation(id, result, validated);
            let asked = ProviderQualifiedModelIdView { provider_id: id, model_id: model };
            let fresh = now.nanos_after(validated) <= VALIDATION_MAX_AGE_SECS * NANOS_PER_SECOND;
            let manual = registry.providers[id].policy.allow_manual_model_ids;
            after.resolution(Some(asked.written()), now) == if fresh || manual {
                Ok::<ResolvedProviderView, ProviderResolutionErrorView>(
                    ResolvedProviderView::of(after.providers[id], model),
                )
            } else {
                Err::<ResolvedProviderView, ProviderResolutionErrorView>(
                    ProviderResolutionErrorView::StaleModel { provider_id: id, model_id: model },
                )
            }
        }),
{
    let asked = ProviderQualifiedModelIdView { provider_id: id, model_id: model };
    provider_registry::law_written_id_reads_back(asked);
    law_validated_models_are_known(registry, id, result, validated, model);
    let after = registry.with_validation(id, result, validated).providers[id];
    let infos = result.discovered_models->0;
    let i = choose|i: int| 0 <= i < infos.len() && (#[trigger] infos[i]).id == model;
    assert(after.discovered_ids()[i] == model);
    assert(after.discovered_ids().contains(model));
    assert(after.policy == registry.providers[id].policy);
    assert(after.validation_cache == Some(result.cache_entry(validated)));
}

/// A new profile never lets a failed request go to the provider that Warp hosts,
/// and asks for redacted telemetry.
pub proof fn law_new_profiles_are_private(
    id: Seq<char>,
    kind: ProviderKind,
    display_name: Seq<char>,
    base_url: Option<Seq<char>>,
    auth: AuthConfigView,
    anthropic_model: Seq<char>,
)
    ensures
        ({
            let provider = ProviderProfileView::direct(id, kind, display_name, base_url, auth);
            &&& !provider.policy.allow_fallback_to_warp_hosted
            &&& provider.policy.redact_telemetry
            &&& provider.policy.allow_manual_model_ids == kind.spec_is_compatible()
        }),
        !ProviderProfileView::legacy_openai().policy.allow_fallback_to_warp_hosted,
        !ProviderProfileView::legacy_anthropic(anthropic_model).policy.allow_fallback_to_warp_hosted,
        !ProviderProfileView::warp_hosted().policy.allow_fallback_to_warp_hosted,
{
}

/// A managed team does not let a new provider be used before somebody allows it.
pub proof fn law_new_providers_stay_out_of_managed_teams(
    id: Seq<char>,
    kind: ProviderKind,
    display_name: Seq<char>,
    base_url: Option<Seq<char>>,
    auth: AuthConfigView,
    model: Seq<char>,
    is_direct_allowed: bool,
    is_compatible_allowed: bool,
    is_endpoint_origin_allowed: bool,
)
    ensures
        ({
            let provider = ProviderProfileView::direct(id, kind, display_name, base_url, auth);
            ResolvedProviderView::of(provider, model).team_policy_objection(
                is_direct_allowed,
                is_compatible_allowed,
                is_endpoint_origin_allowed,
                true,
            ) is Some
        }),
{
}

/// A team that allows nothing still lets the provider that Warp hosts be used,
/// managed or not.
pub proof fn law_warp_hosted_passes_team_policy(
    model: Seq<char>,
    is_direct_allowed: bool,
    is_compatible_allowed: bool,
    is_endpoint_origin_allowed: bool,
    is_managed_team: bool,
)
    ensures
        ResolvedProviderView::of(ProviderProfileView::warp_hosted(), model).team_policy_objection(
            is_direct_allowed,
            is_compatible_allowed,
            is_endpoint_origin_allowed,
            is_managed_team,
        ) is None,
{
}

/// What a team allows more never blocks a provider that could be used before,
/// and a team that is not managed blocks no more than one that is.
pub proof fn law_team_policy_is_monotone(
    resolved: ResolvedProviderView,
    direct: bool,
    compatible: bool,
    origin: bool,
    managed: bool,
)
    requires
        resolved.team_policy_objection(direct, compatible, origin, managed) is None,
    ensures
        resolved.team_policy_objection(true, compatible, origin, managed) is None,
        resolved.team_policy_objection(direct, true, origin, managed) is None,
        resolved.team_policy_objection(direct, compatible, true, managed) is None,
        resolved.team_policy_objection(direct, compatible, origin, false) is None,
{
}

/// Has a provider reported a model?
pub open spec fn reports_model(provider: ProviderProfileView, model: Seq<char>) -> bool {
    exists|i: int| 0 <= i < provider.discovered_models.len() && (#[trigger] provider.discovered_models[i]).id == model
}

/// Does a provider know a model: as its default, from its own list, or from the
/// user?
pub open spec fn knows_model(provider: ProviderProfileView, model: Seq<char>) -> bool {
    provider.defaults.model == Some(model) || reports_model(provider, model)
        || provider.discovery.fallback_models.contains(model)
}

/// Is the last validation of a provider more than a day old, or from the future?
pub open spec fn is_outdated(provider: ProviderProfileView, now: TimestampView) -> bool {
    provider.validation_cache matches Some(entry) && !(0 <= now.nanos_after(entry.last_validated)
        <= 86_400_000_000_000)
}

/// What is known of a model is what the profile says of it.
proof fn lemma_known_models(provider: ProviderProfileView, model: Seq<char>)
    ensures
        provider.discovered_ids().contains(model) <==> reports_model(provider, model),
        provider.all_ids().contains(model) <==> knows_model(provider, model),
{
    let ids = provider.all_ids();
    let reported = provider.discovered_ids();
    let lead: int = if provider.defaults.model is Some {
        1
    } else {
        0
    };
    let manual = provider.discovery.fallback_models;
    if reported.contains(model) {
        let i = choose|i: int| 0 <= i < reported.len() && reported[i] == model;
        assert(provider.discovered_models[i].id == model);
        assert(ids[lead + i] == model);
    }
    if reports_model(provider, model) {
        let i = choose|i: int|
            0 <= i < provider.discovered_models.len() && (#[trigger] provider.discovered_models[i]).id == model;
        assert(reported[i] == model);
    }
    if provider.defaults.model == Some(model) {
        assert(ids[0] == model);
    }
    if manual.contains(model) {
        let i = choose|i: int| 0 <= i < manual.len() && manual[i] == model;
        assert(ids[lead + reported.len() + i] == model);
    }
    if ids.contains(model) {
        let i = choose|i: int| 0 <= i < ids.len() && ids[i] == model;
        if i >= lead && i < lead + reported.len() {
            assert(reported[i - lead] == model);
        } else if i >= lead {
            assert(manual[i - lead - reported.len()] == model);
        }
    }
}

/// A request is refused for one reason, which can be read off the profile that it
/// asks for, and is answered where there is none. In particular, a user who may
/// name models by hand can ask an enabled provider of any kind for any model.
pub proof fn law_requests_are_refused_for_a_reason(
    registry: ProviderRegistryView,
    requested_model: Option<Seq<char>>,
    now: TimestampView,
)
    ensures
        ({
            let selected = registry.selection(requested_model);
            let model = selected.model_id;
            let exists_there = registry.providers.contains_key(selected.provider_id);
            let provider = registry.providers[selected.provider_id];
            let is_open = exists_there && provider.enabled;
            let by_hand = provider.policy.allow_manual_model_ids;
            let is_old = reports_model(provider, model) && is_outdated(provider, now);
            let outcome = registry.resolution(requested_model, now);
            &&& (outcome is Err && outcome->Err_0 is UnknownProvider) <==> !exists_there
            &&& (outcome is Err && outcome->Err_0 is DisabledProvider) <==> exists_there && !provider.enabled
            &&& (outcome is Err && outcome->Err_0 is StaleModel) <==> is_open && is_old && !by_hand
            &&& (outcome is Err && outcome->Err_0 is UnknownModel) <==> is_open && provider.kind
                != ProviderKind::WarpHosted && !knows_model(provider, model) && !by_hand
            &&& !(outcome is Err && outcome->Err_0 is TeamPolicyBlocked)
            &&& outcome is Ok <==> is_open && (by_hand || (!is_old && (provider.kind == ProviderKind::WarpHosted
                || knows_model(provider, model))))
            &&& is_open && by_hand ==> outcome is Ok
        }),
{
    let selected = registry.selection(requested_model);
    lemma_known_models(registry.providers[selected.provider_id], selected.model_id);
}

/// A refusal names the provider and the model that were asked for.
pub proof fn law_refusals_name_what_was_asked_for(
    registry: ProviderRegistryView,
    requested_model: Option<Seq<char>>,
    now: TimestampView,
)
    requires
        registry.keyed_by_id(),
    ensures
        ({
            let selected = registry.selection(requested_model);
            registry.resolution(requested_model, now) matches Err(error) ==> (match error {
                ProviderResolutionErrorView::UnknownProvider { provider_id } => provider_id == selected.provider_id,
                ProviderResolutionErrorView::DisabledProvider { provider_id } => provider_id == selected.provider_id,
                ProviderResolutionErrorView::StaleModel { provider_id, model_id } => provider_id
                    == selected.provider_id && model_id == selected.model_id,
                ProviderResolutionErrorView::UnknownModel { provider_id, model_id } => provider_id
                    == selected.provider_id && model_id == selected.model_id,
                ProviderResolutionErrorView::TeamPolicyBlocked { .. } => false,
            })
        }),
{
}

/// A provider that is picked is asked as its profile says: at its endpoint, with
/// its headers, its defaults, its policy and the secret that it names.
pub proof fn law_picked_provider_is_its_profile(
    registry: ProviderRegistryView,
    requested_model: Option<Seq<char>>,
    now: TimestampView,
)
    ensures
        ({
            let selected = registry.selection(requested_model);
            let provider = registry.providers[selected.provider_id];
            registry.resolution(requested_model, now) matches Ok(resolved) ==> {
                &&& resolved.profile_id == provider.id
                &&& resolved.kind == provider.kind
                &&& resolved.model == selected.model_id
                &&& resolved.base_url == provider.base_url
                &&& resolved.headers == provider.headers
                &&& resolved.capabilities == provider.capabilities
                &&& resolved.policy == provider.policy
                &&& resolved.defaults == provider.defaults
                &&& match provider.auth {
                    AuthConfigView::NoAuth => resolved.auth == ResolvedAuthView::NoAuth,
                    AuthConfigView::ApiKey { source, secret_ref, env_var } => if source == AuthSource::Env {
                        resolved.auth == (ResolvedAuthView::EnvApiKey { env_var })
                    } else {
                        resolved.auth == (ResolvedAuthView::KeychainApiKey { secret_ref })
                    },
                    AuthConfigView::BearerToken { secret_ref, .. } => resolved.auth
                        == (ResolvedAuthView::KeychainBearerToken { secret_ref }),
                }
            }
        }),
{
}

/// Where nothing is asked for, the defaults of the registry are, and without them
/// the automatic model of the provider that Warp hosts. A qualified id asks for
/// its provider and its model; any other asks the provider that Warp hosts for
/// a model of that name.
pub proof fn law_requests_select_what_they_name(
    registry: ProviderRegistryView,
    model: Seq<char>,
    id: ProviderQualifiedModelIdView,
)
    ensures
        ({
            let selected = registry.selection(None);
            &&& registry.defaults.agent_provider matches Some(provider) ==> selected.provider_id == provider
            &&& registry.defaults.agent_provider is None ==> selected.provider_id == WARP_HOSTED_PROVIDER_ID@
            &&& registry.defaults.agent_model matches Some(default_model) ==> selected.model_id == default_model
            &&& registry.defaults.agent_model is None ==> selected.model_id == "auto"@
        }),
        !model.contains(':') ==> registry.selection(Some(model)) == (ProviderQualifiedModelIdView {
            provider_id: WARP_HOSTED_PROVIDER_ID@,
            model_id: model,
        }),
        id.provider_id.len() > 0 && !id.provider_id.contains(':') && id.model_id.len() > 0 ==> registry.selection(
            Some(id.written()),
        ) == id,
{
    if id.provider_id.len() > 0 && !id.provider_id.contains(':') && id.model_id.len() > 0 {
        provider_registry::law_written_id_reads_back(id);
    }
    if !model.contains(':') {
        text::lemma_first_index_of(model, ':');
    }
}

/// A team lets a provider be used if and only if it allows direct providers where
/// it is one, allows custom endpoints and this origin where it is one, and, where
/// the team is managed, the provider is allowed there.
pub proof fn law_team_policy_is_decided(
    resolved: ResolvedProviderView,
    direct: bool,
    compatible: bool,
    origin: bool,
    managed: bool,
)
    ensures
        ({
            let is_custom = resolved.kind == ProviderKind::OpenAICompatible || resolved.kind
                == ProviderKind::AnthropicCompatible;
            resolved.team_policy_objection(direct, compatible, origin, managed) is None <==> (resolved.kind
                == ProviderKind::WarpHosted || direct) && (!is_custom || (compatible && origin)) && (!managed
                || resolved.policy.allow_in_managed_teams == Some(true))
        }),
{
}

/// A validation is kept as it ended: when, how, and with which error. The models
/// that it listed take the place of those reported before, in their order, and
/// without a list those stay.
pub proof fn law_validations_are_kept(
    registry: ProviderRegistryView,
    id: Seq<char>,
    result: ValidationResultView,
    now: TimestampView,
)
    requires
        registry.providers.contains_key(id),
    ensures
        ({
            let before = registry.providers[id];
            let after = registry.with_validation(id, result, now).providers[id];
            &&& after.validation_cache matches Some(entry) && entry.last_validated == now && entry.status == result.status
                && entry.error == result.error && entry.retry_count == 0
            &&& result.discovered_models is None ==> after.discovered_models == before.discovered_models
            &&& result.discovered_models matches Some(infos) ==> after.discovered_models.len() == infos.len()
                && forall|i: int|
                0 <= i < infos.len() ==> {
                    &&& (#[trigger] after.discovered_models[i]).id == infos[i].id
                    &&& after.discovered_models[i].display_name == infos[i].display_name
                    &&& after.discovered_models[i].source == crate::profile::DiscoveredModelSource::Discovered
                }
            &&& result.model is None ==> after.discovery == before.discovery
            &&& after.discovery.strategy == before.discovery.strategy
        }),
{
}

/// A model that is named by hand stays so after a validation, and the one that
/// answered joins them only where it was not known.
pub proof fn law_models_named_by_hand_stay(
    registry: ProviderRegistryView,
    id: Seq<char>,
    result: ValidationResultView,
    now: TimestampView,
    model: Seq<char>,
)
    requires
        registry.providers.contains_key(id),
    ensures
        ({
            let before = registry.providers[id];
            let after = registry.with_validation(id, result, now).providers[id];
            &&& before.discovery.fallback_models.contains(model) ==> after.discovery.fallback_models.contains(model)
            &&& after.discovery.fallback_models.contains(model) ==> before.discovery.fallback_models.contains(model)
                || result.model == Some(model)
        }),
{
    let before = registry.providers[id].discovery.fallback_models;
    match result.model {
        Some(answered) => {
            let all = before.push(answered);
            text::lemma_sorted_ids(all);
            if before.contains(model) {
                let i = choose|i: int| 0 <= i < before.len() && before[i] == model;
                assert(all[i] == model);
            }
            if all.contains(model) && model != answered {
                let i = choose|i: int| 0 <= i < all.len() && all[i] == model;
                assert(before[i] == model);
            }
        },
        None => {},
    }
}

/// Models that were discovered take the place of those reported before, and from
/// then on the models come from the list of the provider, unless it is empty.
pub proof fn law_discovered_models_are_kept(
    registry: ProviderRegistryView,
    id: Seq<char>,
    models: Seq<DiscoveredModelView>,
)
    requires
        registry.providers.contains_key(id),
    ensures
        ({
            let before = registry.providers[id];
            let after = registry.with_discovered(id, models).providers[id];
            &&& after.discovered_models == models
            &&& after.validation_cache == before.validation_cache
            &&& after.discovery.fallback_models == before.discovery.fallback_models
            &&& models.len() > 0 ==> after.discovery.strategy == crate::profile::DiscoveryStrategy::ModelsEndpoint
            &&& models.len() == 0 ==> after.discovery.strategy == before.discovery.strategy
        }),
{
}

/// What is not there cannot be changed.
pub proof fn law_unknown_providers_are_not_changed(
    registry: ProviderRegistryView,
    id: Seq<char>,
    result: ValidationResultView,
    now: TimestampView,
    models: Seq<DiscoveredModelView>,
)
    requires
        !registry.providers.contains_key(id),
    ensures
        registry.with_validation(id, result, now) == registry,
        registry.with_discovered(id, models) == registry,
{
}

/// A new profile is what it was made from, enabled and not yet validated, at the
/// endpoint that was given, or else at that of the first party.
pub proof fn law_new_profiles_are_what_was_given(
    id: Seq<char>,
    kind: ProviderKind,
    display_name: Seq<char>,
    base_url: Option<Seq<char>>,
    auth: AuthConfigView,
)
    ensures
        ({
            let provider = ProviderProfileView::direct(id, kind, display_name, base_url, auth);
            &&& provider.id == id
            &&& provider.kind == kind
            &&& provider.enabled
            &&& provider.display_name == display_name
            &&& provider.auth == auth
            &&& provider.validation_cache is None
            &&& provider.discovered_models.len() == 0
            &&& provider.discovery.fallback_models.len() == 0
            &&& provider.defaults.model is None
            &&& provider.defaults.temperature is None
            &&& provider.defaults.top_p is None
            &&& provider.defaults.max_output_tokens is None
            &&& provider.defaults.stream == Some(true)
            &&& provider.policy.allow_in_managed_teams is None
            &&& provider.policy.local_only == crate::endpoint::local_only_of(provider.base_url)
            &&& base_url matches Some(url) ==> provider.base_url == url
            &&& base_url is None && kind == ProviderKind::OpenAI ==> provider.base_url == "https://api.openai.com/v1"@
            &&& base_url is None && kind == ProviderKind::Anthropic ==> provider.base_url
                == "https://api.anthropic.com/v1"@
            &&& base_url is None && kind != ProviderKind::OpenAI && kind != ProviderKind::Anthropic
                ==> provider.base_url.len() == 0
        }),
{
}

/// A choice names its provider and its model, and says whether the user has named
/// the model and whether the provider is local.
pub proof fn law_choices_tell_what_they_are(provider: ProviderProfileView, model: Seq<char>)
    ensures
        ({
            let choice = ProviderModelChoiceView::of(provider, model);
            &&& choice.qualified_id.provider_id == provider.id
            &&& choice.qualified_id.model_id == model
            &&& choice.model_id == model
            &&& choice.provider_display_name == provider.display_name
            &&& choice.provider_kind == provider.kind
            &&& choice.local_only <==> provider.policy.local_only == Some(true)
            &&& choice.manual <==> exists|i: int|
                0 <= i < provider.discovery.fallback_models.len() && #[trigger] provider.discovery.fallback_models[i]
                    == model
        }),
{
}

/// Every model that a provider knows is offered, and no other, each once and in
/// the order of the ids.
pub proof fn law_known_models_are_offered(provider: ProviderProfileView, model: Seq<char>)
    ensures
        provider.model_ids().contains(model) <==> knows_model(provider, model),
        text::ascending(provider.model_ids()),
{
    lemma_known_models(provider, model);
    text::lemma_sorted_ids(provider.all_ids());
}

/// The provider that Warp hosts has no endpoint and no secret, chooses its model
/// itself, and may be used in managed teams.
pub proof fn law_warp_hosted_is_what_it_is()
    ensures
        ({
            let provider = ProviderProfileView::warp_hosted();
            &&& provider.id == WARP_HOSTED_PROVIDER_ID@
            &&& provider.kind == ProviderKind::WarpHosted
            &&& provider.enabled
            &&& provider.base_url.len() == 0
            &&& provider.auth == AuthConfigView::NoAuth
            &&& provider.defaults.model == Some("auto"@)
            &&& provider.defaults.stream == Some(true)
            &&& !provider.policy.allow_manual_model_ids
            &&& provider.policy.redact_telemetry
            &&& provider.policy.local_only == Some(false)
            &&& provider.policy.allow_in_managed_teams == Some(true)
            &&& provider.validation_cache is None
            &&& provider.discovered_models.len() == 0
        }),
{
}

/// The profile for a key that was stored before is one of that first party, at
/// its own endpoint, with that key and with one model.
pub proof fn law_stored_keys_make_first_party_profiles(model: Seq<char>)
    ensures
        ({
            let provider = ProviderProfileView::legacy_openai();
            &&& provider.id == LEGACY_OPENAI_PROVIDER_ID@
            &&& provider.kind == ProviderKind::OpenAI
            &&& provider.enabled
            &&& provider.base_url == "https://api.openai.com/v1"@
            &&& provider.auth == AuthConfigView::keychain_api_key(crate::profile::LEGACY_OPENAI_SECRET_REF@)
            &&& provider.discovery.fallback_models == seq!["gpt-4.1"@]
        }),
        ({
            let provider = ProviderProfileView::legacy_anthropic(model);
            &&& provider.id == LEGACY_ANTHROPIC_PROVIDER_ID@
            &&& provider.kind == ProviderKind::Anthropic
            &&& provider.enabled
            &&& provider.base_url == "https://api.anthropic.com/v1"@
            &&& provider.auth == AuthConfigView::keychain_api_key(crate::profile::LEGACY_ANTHROPIC_SECRET_REF@)
            &&& provider.discovery.fallback_models == seq![model]
        }),
{
}

/// The start sets a default only where none is stored, and each profile that it
/// adds is the one for its key.
pub proof fn law_start_keeps_defaults(
    existing: Option<ProviderRegistryView>,
    openai_key: bool,
    anthropic_key: bool,
    anthropic_model: Seq<char>,
)
    ensures
        ({
            let started = ProviderRegistryView::from_existing(existing, openai_key, anthropic_key, anthropic_model);
            let was_there = |id: Seq<char>| existing is Some && existing->0.providers.contains_key(id);
            &&& existing is Some && existing->0.defaults.agent_provider is Some ==> started.defaults.agent_provider
                == existing->0.defaults.agent_provider
            &&& existing is None || existing->0.defaults.agent_provider is None ==> started.defaults.agent_provider
                == Some(WARP_HOSTED_PROVIDER_ID@)
            &&& existing is Some && existing->0.defaults.agent_model is Some ==> started.defaults.agent_model
                == existing->0.defaults.agent_model
            &&& existing is None || existing->0.defaults.agent_model is None ==> started.defaults.agent_model == Some(
                "auto"@,
            )
            &&& !was_there(WARP_HOSTED_PROVIDER_ID@) ==> started.providers[WARP_HOSTED_PROVIDER_ID@]
                == ProviderProfileView::warp_hosted()
            &&& openai_key && !was_there(LEGACY_OPENAI_PROVIDER_ID@) ==> started.providers[LEGACY_OPENAI_PROVIDER_ID@]
                == ProviderProfileView::legacy_openai()
            &&& anthropic_key && !was_there(LEGACY_ANTHROPIC_PROVIDER_ID@)
                ==> started.providers[LEGACY_ANTHROPIC_PROVIDER_ID@] == ProviderProfileView::legacy_anthropic(
                anthropic_model,
            )
        }),
{
    reveal_strlit("warp-hosted");
    reveal_strlit("openai-main");
    reveal_strlit("anthropic-main");
    assert(WARP_HOSTED_PROVIDER_ID@[0] == 'w');
    assert(LEGACY_OPENAI_PROVIDER_ID@[0] == 'o');
    assert(LEGACY_ANTHROPIC_PROVIDER_ID@[0] == 'a');
}

/// A profile that does not say whether it is local is stored with what its
/// endpoint says of it, and one without a cache, where there was none before,
/// without one.
pub proof fn law_added_profiles_are_completed(registry: ProviderRegistryView, provider: ProviderProfileView)
    ensures
        ({
            let stored = registry.with_provider(provider).providers[provider.id];
            &&& provider.policy.local_only is None ==> stored.policy.local_only == crate::endpoint::local_only_of(
                provider.base_url,
            )
            &&& provider.validation_cache is None && !registry.providers.contains_key(provider.id)
                ==> stored.validation_cache is None
        }),
{
}

/// A refusal names the provider, and the model where one was asked for, in what
/// the user reads.
pub proof fn law_refusals_are_told_by_name(provider_id: Seq<char>, model_id: Seq<char>, reason: Seq<char>)
    ensures
        (ProviderResolutionErrorView::UnknownProvider { provider_id }).message() == "Unknown provider '"@ + provider_id
            + "'"@,
        (ProviderResolutionErrorView::DisabledProvider { provider_id }).message() == "Provider '"@ + provider_id
            + "' is disabled"@,
        (ProviderResolutionErrorView::UnknownModel { provider_id, model_id }).message() == "Provider '"@ + provider_id
            + "' does not know model '"@ + model_id + "'"@,
        (ProviderResolutionErrorView::TeamPolicyBlocked { provider_id, reason }).message() == "Provider '"@
            + provider_id + "' is blocked by team policy: "@ + reason,
        (ProviderResolutionErrorView::StaleModel { provider_id, model_id }).message() == "Provider '"@ + provider_id
            + "' model '"@ + model_id + "' has stale discovery data"@,
{
}

/// What the user has set for a capability is what counts; what is left to the
/// client is not set.
pub proof fn law_set_capabilities_count(on: bool, how: Seq<char>)
    ensures
        crate::profile::CapabilitySettingView::Explicit(on).is_enabled() == Some(on),
        crate::profile::CapabilitySettingView::Automatic(how).is_enabled() is None,
{
}

} // verus!
