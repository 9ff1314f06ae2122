//! Properties that hold across calls of the subscriber map.
use crate::cache::{lemma_bucket_after_filter, lemma_bucket_after_idempotent};
use crate::subscriber_map::{initial_model, FeeMapModel, Lifecycle, SubscribeAction};
use crate::types::{
    category_of, perp_name, spot_name, DriftPriorityFeeLevels, PriorityFeeSubscriberMapConfig,
};
use vstd::prelude::*;

verus! {

/// Whether the cache keeps a bucket for the category of entry `e`.
pub open spec fn has_known_category(e: DriftPriorityFeeLevels) -> bool {
    category_of(e.market_type@) is Some
}

/// Entries of a category the cache does not keep are dropped: after a
/// response, every lookup under such a category finds nothing, and the known
/// buckets are exactly what they would be had the response held only its
/// entries of known categories.
pub proof fn lemma_unknown_category_isolated(
    s: FeeMapModel,
    entries: Seq<DriftPriorityFeeLevels>,
    name: Seq<char>,
    k: u64,
)
    requires
        category_of(name) is None,
    ensures
        s.updated(entries).lookup(name, k) is None,
        s.loaded(entries).lookup(name, k) is None,
        s.updated(entries) == s.updated(entries.filter(|e| has_known_category(e))),
{
    let keep = |e| has_known_category(e);
    assert(perp_name() != spot_name());
    assert forall|e: DriftPriorityFeeLevels| e.market_type@ == perp_name() implies #[trigger] keep(
        e,
    ) by {}
    assert forall|e: DriftPriorityFeeLevels| e.market_type@ == spot_name() implies #[trigger] keep(
        e,
    ) by {}
    lemma_bucket_after_filter(s.perp, entries, perp_name(), keep);
    lemma_bucket_after_filter(s.spot, entries, spot_name(), keep);
}

/// A newly built map reads nothing: before any update, load or subscription,
/// every lookup, under any category name and index, finds no fee levels.
pub proof fn lemma_new_map_reads_nothing(
    config: PriorityFeeSubscriberMapConfig,
    name: Seq<char>,
    k: u64,
)
    ensures
        initial_model(config).lookup(name, k) is None,
{
}

/// Storing the same response twice leaves the map as storing it once; the
/// same holds of committing the same successful load twice.
pub proof fn lemma_update_idempotent(s: FeeMapModel, entries: Seq<DriftPriorityFeeLevels>)
    ensures
        s.updated(entries).updated(entries) == s.updated(entries),
        s.loaded(entries).loaded(entries) == s.loaded(entries),
{
    lemma_bucket_after_idempotent(s.perp, entries, perp_name());
    lemma_bucket_after_idempotent(s.spot, entries, spot_name());
}

/// Subscribing twice in sequence loads once and launches one refresh loop:
/// the first call asks for a load and, once it succeeded, launches a loop
/// with the configured period; the second call asks for nothing and changes
/// nothing.
pub proof fn lemma_subscribe_twice(s: FeeMapModel, entries: Seq<DriftPriorityFeeLevels>)
    requires
        s.lifecycle == Lifecycle::Idle,
    ensures
        s.start_action() == SubscribeAction::LoadFirst,
        s.after_start().loaded(entries).launched(true) == Some(s.frequency_ms),
        ({
            let s2 = s.after_start().loaded(entries).after_complete(true);
            &&& s2.start_action() == SubscribeAction::AlreadySubscribed
            &&& s2.after_start() == s2
            &&& s2.launched(true) is None
        }),
{
}

} // verus!
