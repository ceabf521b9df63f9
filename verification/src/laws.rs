//! Laws of the library that span several functions: what a report leaves
//! for the next snapshot, how exclusions compose, and why a model that was
//! reported unavailable is not routed to again for the same key.
use vstd::prelude::*;

use crate::algorithms::{chooses_offered, Algorithm};
use crate::binding::feedback_key;
use crate::protocol::{
    without_models, FeedbackModel, KeyModel, MetadataModel, Outcome, RequestMetadata,
    RequestModel, RoutingKey, SnapshotModel,
};
use crate::runtime::{context_for, next_seed, state_selected, Router, StateConfig};
use crate::state::{
    absorbed, first_index, is_live, kept_entries, live_entry, reported_entries, snapshot_of,
    EntryModel, StateSlot,
};

verus! {

// ------------------------------------------------------------------
// Helpers on entry sequences
// ------------------------------------------------------------------

proof fn lemma_first_index_absent(s: Seq<EntryModel>, key: KeyModel)
    requires
        forall|i: int| 0 <= i < s.len() ==> #[trigger] s[i].key != key,
    ensures
        first_index(s, key) == -1,
    decreases s.len(),
{
    if s.len() > 0 {
        lemma_first_index_absent(s.drop_last(), key);
    }
}

proof fn lemma_first_index_bounds(s: Seq<EntryModel>, key: KeyModel)
    ensures
        -1 <= first_index(s, key) < s.len(),
        first_index(s, key) >= 0 ==> s[first_index(s, key)].key == key,
        first_index(s, key) >= 0 ==> forall|j: int|
            0 <= j < first_index(s, key) ==> #[trigger] s[j].key != key,
        first_index(s, key) == -1 ==> forall|j: int| 0 <= j < s.len() ==> #[trigger] s[j].key != key,
    decreases s.len(),
{
    if s.len() > 0 {
        let init = s.drop_last();
        lemma_first_index_bounds(init, key);
        let i = first_index(s, key);
        if i >= 0 {
            assert forall|j: int| 0 <= j < i implies #[trigger] s[j].key != key by {
                assert(init[j] == s[j]);
            }
        } else {
            assert forall|j: int| 0 <= j < s.len() implies #[trigger] s[j].key != key by {
                if j < init.len() {
                    assert(init[j] == s[j]);
                }
            }
        }
    }
}

proof fn lemma_kept_entries(entries: Seq<EntryModel>, ttl_ms: u64, key: KeyModel, now: u64)
    ensures
        kept_entries(entries, ttl_ms, key, now).len() <= entries.len(),
        forall|i: int|
            0 <= i < kept_entries(entries, ttl_ms, key, now).len() ==> (#[trigger] kept_entries(
                entries,
                ttl_ms,
                key,
                now,
            )[i]).key != key && is_live(kept_entries(entries, ttl_ms, key, now)[i], ttl_ms, now),
    decreases entries.len(),
{
    if entries.len() > 0 {
        lemma_kept_entries(entries.drop_last(), ttl_ms, key, now);
    }
}

/// After a report on a key, the live entry of that key is the absorbed one.
proof fn lemma_reported_entry(
    entries: Seq<EntryModel>,
    ttl_ms: u64,
    max_entries: usize,
    fb: FeedbackModel,
    t1: u64,
    t2: u64,
)
    requires
        max_entries > 0,
        t2 < t1 + ttl_ms,
    ensures
        live_entry(reported_entries(entries, ttl_ms, max_entries, fb, t1), ttl_ms, fb.key, t2)
            == Some(absorbed(live_entry(entries, ttl_ms, fb.key, t1), fb, t1)),
{
    let kept = kept_entries(entries, ttl_ms, fb.key, t1);
    lemma_kept_entries(entries, ttl_ms, fb.key, t1);
    let room = if kept.len() >= max_entries {
        kept.skip(kept.len() - max_entries + 1)
    } else {
        kept
    };
    assert forall|i: int| 0 <= i < room.len() implies #[trigger] room[i].key != fb.key by {
        if kept.len() >= max_entries {
            assert(room[i] == kept[i + kept.len() - max_entries + 1]);
        }
    }
    let e = absorbed(live_entry(entries, ttl_ms, fb.key, t1), fb, t1);
    let out = room.push(e);
    assert(out == reported_entries(entries, ttl_ms, max_entries, fb, t1));
    lemma_first_index_absent(room, fb.key);
    assert(out.drop_last() =~= room);
    assert(first_index(out, fb.key) == room.len());
}

// ------------------------------------------------------------------
// Laws of the in-memory backend
// ------------------------------------------------------------------

/// A model reported overflowing or unavailable is excluded for the key in
/// every snapshot taken before the entry's time-to-live runs out.
pub proof fn lemma_exclusion_seen_within_ttl(
    entries: Seq<EntryModel>,
    ttl_ms: u64,
    max_entries: usize,
    fb: FeedbackModel,
    t1: u64,
    t2: u64,
)
    requires
        max_entries > 0,
        fb.outcome.is_exclusion(),
        t2 < t1 + ttl_ms,
    ensures
        snapshot_of(
            reported_entries(entries, ttl_ms, max_entries, fb, t1),
            ttl_ms,
            fb.key,
            t2,
        ).exclusions.contains(fb.selected_model_id),
{
    lemma_reported_entry(entries, ttl_ms, max_entries, fb, t1, t2);
    let prev = live_entry(entries, ttl_ms, fb.key, t1);
    let base_excl = match prev {
        Some(p) => p.exclusions,
        None => Seq::<Seq<char>>::empty(),
    };
    if !base_excl.contains(fb.selected_model_id) {
        assert(base_excl.push(fb.selected_model_id)[base_excl.len() as int] == fb.selected_model_id);
    }
}

/// A successful call makes the model the key's affinity for the
/// time-to-live of the entry.
pub proof fn lemma_success_sets_affinity(
    entries: Seq<EntryModel>,
    ttl_ms: u64,
    max_entries: usize,
    fb: FeedbackModel,
    t1: u64,
    t2: u64,
)
    requires
        max_entries > 0,
        fb.outcome == Outcome::Success,
        t2 < t1 + ttl_ms,
    ensures
        snapshot_of(reported_entries(entries, ttl_ms, max_entries, fb, t1), ttl_ms, fb.key, t2).affinity
            == Some(fb.selected_model_id),
{
    lemma_reported_entry(entries, ttl_ms, max_entries, fb, t1, t2);
}

/// A rejection excludes nothing and moves no affinity: the key's exclusions
/// and affinity stay those it had when the rejection was reported.
pub proof fn lemma_rejection_excludes_nothing(
    entries: Seq<EntryModel>,
    ttl_ms: u64,
    max_entries: usize,
    fb: FeedbackModel,
    t1: u64,
    t2: u64,
)
    requires
        max_entries > 0,
        fb.outcome == Outcome::Rejected,
        t2 < t1 + ttl_ms,
    ensures
        snapshot_of(reported_entries(entries, ttl_ms, max_entries, fb, t1), ttl_ms, fb.key, t2).exclusions
            == snapshot_of(entries, ttl_ms, fb.key, t1).exclusions,
        snapshot_of(reported_entries(entries, ttl_ms, max_entries, fb, t1), ttl_ms, fb.key, t2).affinity
            == snapshot_of(entries, ttl_ms, fb.key, t1).affinity,
{
    lemma_reported_entry(entries, ttl_ms, max_entries, fb, t1, t2);
}

/// Every report counts one more sample for the key, up to the largest count.
pub proof fn lemma_report_counts_sample(
    entries: Seq<EntryModel>,
    ttl_ms: u64,
    max_entries: usize,
    fb: FeedbackModel,
    t1: u64,
    t2: u64,
)
    requires
        max_entries > 0,
        t2 < t1 + ttl_ms,
        snapshot_of(entries, ttl_ms, fb.key, t1).sample_count < u64::MAX,
    ensures
        snapshot_of(reported_entries(entries, ttl_ms, max_entries, fb, t1), ttl_ms, fb.key, t2).sample_count
            == snapshot_of(entries, ttl_ms, fb.key, t1).sample_count + 1,
{
    lemma_reported_entry(entries, ttl_ms, max_entries, fb, t1, t2);
}

/// A key's excluded models stay free of repetitions: reporting a model that
/// is already excluded does not list it twice.
pub proof fn lemma_exclusions_stay_distinct(
    entries: Seq<EntryModel>,
    ttl_ms: u64,
    max_entries: usize,
    fb: FeedbackModel,
    t1: u64,
    t2: u64,
)
    requires
        max_entries > 0,
        t2 < t1 + ttl_ms,
        snapshot_of(entries, ttl_ms, fb.key, t1).exclusions.no_duplicates(),
    ensures
        snapshot_of(
            reported_entries(entries, ttl_ms, max_entries, fb, t1),
            ttl_ms,
            fb.key,
            t2,
        ).exclusions.no_duplicates(),
{
    lemma_reported_entry(entries, ttl_ms, max_entries, fb, t1, t2);
    let base = snapshot_of(entries, ttl_ms, fb.key, t1).exclusions;
    if fb.outcome.is_exclusion() && !base.contains(fb.selected_model_id) {
        let after = base.push(fb.selected_model_id);
        assert forall|i: int, j: int| 0 <= i < after.len() && 0 <= j < after.len() && i != j implies after[i]
            != after[j] by {
            if i < base.len() && j < base.len() {
                assert(after[i] == base[i] && after[j] == base[j]);
            } else if i < base.len() {
                assert(after[i] == base[i]);
            } else if j < base.len() {
                assert(after[j] == base[j]);
            }
        }
    }
}

/// Exclusions of a key only grow while its entry lives: every model that the
/// key's snapshot excludes before a report, whatever its outcome, is still
/// excluded in every snapshot taken before the entry's time-to-live runs out.
pub proof fn lemma_reports_keep_exclusions(
    entries: Seq<EntryModel>,
    ttl_ms: u64,
    max_entries: usize,
    fb: FeedbackModel,
    t1: u64,
    t2: u64,
)
    requires
        max_entries > 0,
        t2 < t1 + ttl_ms,
    ensures
        forall|m: Seq<char>|
            snapshot_of(entries, ttl_ms, fb.key, t1).exclusions.contains(m) ==> #[trigger] snapshot_of(
                reported_entries(entries, ttl_ms, max_entries, fb, t1),
                ttl_ms,
                fb.key,
                t2,
            ).exclusions.contains(m),
{
    lemma_reported_entry(entries, ttl_ms, max_entries, fb, t1, t2);
    let base = snapshot_of(entries, ttl_ms, fb.key, t1).exclusions;
    let after = snapshot_of(reported_entries(entries, ttl_ms, max_entries, fb, t1), ttl_ms, fb.key, t2).exclusions;
    assert forall|m: Seq<char>| base.contains(m) implies #[trigger] after.contains(m) by {
        let k = choose|k: int| 0 <= k < base.len() && base[k] == m;
        assert(after[k] == m);
    }
}

/// Only overflow and unavailability touch a key's exclusions: after a success
/// or a rejection the key's snapshot excludes exactly the models it excluded
/// before, while the entry lives.
pub proof fn lemma_non_exclusion_keeps_exclusions(
    entries: Seq<EntryModel>,
    ttl_ms: u64,
    max_entries: usize,
    fb: FeedbackModel,
    t1: u64,
    t2: u64,
)
    requires
        max_entries > 0,
        !fb.outcome.is_exclusion(),
        t2 < t1 + ttl_ms,
    ensures
        snapshot_of(reported_entries(entries, ttl_ms, max_entries, fb, t1), ttl_ms, fb.key, t2).exclusions
            == snapshot_of(entries, ttl_ms, fb.key, t1).exclusions,
{
    lemma_reported_entry(entries, ttl_ms, max_entries, fb, t1, t2);
}

/// Once the time-to-live has passed since a key's last report, its snapshot is empty.
pub proof fn lemma_entry_expires(
    entries: Seq<EntryModel>,
    ttl_ms: u64,
    max_entries: usize,
    fb: FeedbackModel,
    t1: u64,
    t2: u64,
)
    requires
        t2 >= t1 + ttl_ms,
    ensures
        snapshot_of(reported_entries(entries, ttl_ms, max_entries, fb, t1), ttl_ms, fb.key, t2)
            == SnapshotModel::empty(),
{
    let out = reported_entries(entries, ttl_ms, max_entries, fb, t1);
    if max_entries > 0 {
        let kept = kept_entries(entries, ttl_ms, fb.key, t1);
        lemma_kept_entries(entries, ttl_ms, fb.key, t1);
        let room = if kept.len() >= max_entries {
            kept.skip(kept.len() - max_entries + 1)
        } else {
            kept
        };
        assert forall|i: int| 0 <= i < room.len() implies #[trigger] room[i].key != fb.key by {
            if kept.len() >= max_entries {
                assert(room[i] == kept[i + kept.len() - max_entries + 1]);
            }
        }
        lemma_first_index_absent(room, fb.key);
        assert(out.drop_last() =~= room);
    }
}

/// Memory never holds more keys than its capacity.
pub proof fn lemma_memory_bounded(
    entries: Seq<EntryModel>,
    ttl_ms: u64,
    max_entries: usize,
    fb: FeedbackModel,
    now: u64,
)
    ensures
        reported_entries(entries, ttl_ms, max_entries, fb, now).len() <= max_entries,
{
}

/// No two entries hold the same routing key.
pub open spec fn keys_distinct(entries: Seq<EntryModel>) -> bool {
    forall|i: int, j: int|
        0 <= i < j < entries.len() ==> #[trigger] entries[i].key != #[trigger] entries[j].key
}

proof fn lemma_first_index_of_distinct(s: Seq<EntryModel>, key: KeyModel, j: int)
    requires
        keys_distinct(s),
        0 <= j < s.len(),
        s[j].key == key,
    ensures
        first_index(s, key) == j,
{
    lemma_first_index_bounds(s, key);
    let fi = first_index(s, key);
    if fi == -1 {
        assert(s[j].key != key);
    } else if fi < j {
        assert(s[fi].key != s[j].key);
    } else if fi > j {
        assert(s[j].key != key);
    }
}

proof fn lemma_kept_members(entries: Seq<EntryModel>, ttl_ms: u64, key: KeyModel, now: u64)
    ensures
        forall|i: int|
            0 <= i < kept_entries(entries, ttl_ms, key, now).len() ==> entries.contains(
                #[trigger] kept_entries(entries, ttl_ms, key, now)[i],
            ),
        forall|j: int|
            0 <= j < entries.len() && (#[trigger] entries[j]).key != key && is_live(
                entries[j],
                ttl_ms,
                now,
            ) ==> kept_entries(entries, ttl_ms, key, now).contains(entries[j]),
    decreases entries.len(),
{
    if entries.len() > 0 {
        let init = entries.drop_last();
        lemma_kept_members(init, ttl_ms, key, now);
        let rest = kept_entries(init, ttl_ms, key, now);
        let kept = kept_entries(entries, ttl_ms, key, now);
        let e = entries.last();
        assert forall|i: int| 0 <= i < kept.len() implies entries.contains(#[trigger] kept[i]) by {
            if i < rest.len() {
                assert(kept[i] == rest[i]);
                let k = choose|k: int| 0 <= k < init.len() && init[k] == rest[i];
                assert(entries[k] == init[k]);
            } else {
                assert(kept[i] == e);
                assert(entries[entries.len() - 1] == e);
            }
        }
        assert forall|j: int|
            0 <= j < entries.len() && (#[trigger] entries[j]).key != key && is_live(
                entries[j],
                ttl_ms,
                now,
            ) implies kept.contains(entries[j]) by {
            if j < init.len() {
                assert(init[j] == entries[j]);
                let k = choose|k: int| 0 <= k < rest.len() && rest[k] == init[j];
                if e.key != key && is_live(e, ttl_ms, now) {
                    assert(kept[k] == rest[k]);
                }
            } else {
                assert(entries[j] == e);
                assert(kept[kept.len() - 1] == e);
            }
        }
    }
}

proof fn lemma_kept_distinct(entries: Seq<EntryModel>, ttl_ms: u64, key: KeyModel, now: u64)
    requires
        keys_distinct(entries),
    ensures
        keys_distinct(kept_entries(entries, ttl_ms, key, now)),
    decreases entries.len(),
{
    if entries.len() > 0 {
        let init = entries.drop_last();
        assert(keys_distinct(init)) by {
            assert forall|i: int, j: int| 0 <= i < j < init.len() implies #[trigger] init[i].key
                != #[trigger] init[j].key by {
                assert(init[i] == entries[i]);
                assert(init[j] == entries[j]);
            }
        }
        lemma_kept_distinct(init, ttl_ms, key, now);
        lemma_kept_members(init, ttl_ms, key, now);
        let rest = kept_entries(init, ttl_ms, key, now);
        let kept = kept_entries(entries, ttl_ms, key, now);
        let e = entries.last();
        if e.key != key && is_live(e, ttl_ms, now) {
            assert forall|i: int, j: int| 0 <= i < j < kept.len() implies #[trigger] kept[i].key
                != #[trigger] kept[j].key by {
                if j < rest.len() {
                    assert(kept[i] == rest[i] && kept[j] == rest[j]);
                } else {
                    assert(kept[i] == rest[i]);
                    assert(kept[j] == e);
                    let k = choose|k: int| 0 <= k < init.len() && init[k] == rest[i];
                    assert(entries[k] == init[k]);
                    assert(entries[k].key != entries[entries.len() - 1].key);
                }
            }
        }
    }
}

/// Reports keep the routing keys of memory distinct.
pub proof fn lemma_report_keeps_keys_distinct(
    entries: Seq<EntryModel>,
    ttl_ms: u64,
    max_entries: usize,
    fb: FeedbackModel,
    now: u64,
)
    requires
        keys_distinct(entries),
    ensures
        keys_distinct(reported_entries(entries, ttl_ms, max_entries, fb, now)),
{
    if max_entries > 0 {
        let kept = kept_entries(entries, ttl_ms, fb.key, now);
        lemma_kept_entries(entries, ttl_ms, fb.key, now);
        lemma_kept_distinct(entries, ttl_ms, fb.key, now);
        let room = if kept.len() >= max_entries {
            kept.skip(kept.len() - max_entries + 1)
        } else {
            kept
        };
        let d = if kept.len() >= max_entries { kept.len() - max_entries + 1 } else { 0 };
        assert forall|i: int| 0 <= i < room.len() implies #[trigger] room[i] == kept[i + d] by {}
        let out = reported_entries(entries, ttl_ms, max_entries, fb, now);
        assert forall|i: int, j: int| 0 <= i < j < out.len() implies #[trigger] out[i].key
            != #[trigger] out[j].key by {
            assert(out[i] == room[i]);
            if j < room.len() {
                assert(out[j] == room[j]);
                assert(kept[i + d].key != kept[j + d].key);
            } else {
                assert(room[i].key != fb.key);
            }
        }
    }
}

/// A report on one routing key leaves what every other key sees unchanged
/// from then on, as long as memory had room for it without evicting.
pub proof fn lemma_other_keys_unaffected(
    entries: Seq<EntryModel>,
    ttl_ms: u64,
    max_entries: usize,
    fb: FeedbackModel,
    other: KeyModel,
    t1: u64,
    t2: u64,
)
    requires
        keys_distinct(entries),
        other != fb.key,
        t1 <= t2,
        kept_entries(entries, ttl_ms, fb.key, t1).len() < max_entries,
    ensures
        snapshot_of(reported_entries(entries, ttl_ms, max_entries, fb, t1), ttl_ms, other, t2)
            == snapshot_of(entries, ttl_ms, other, t2),
{
    let kept = kept_entries(entries, ttl_ms, fb.key, t1);
    let out = reported_entries(entries, ttl_ms, max_entries, fb, t1);
    lemma_kept_entries(entries, ttl_ms, fb.key, t1);
    lemma_kept_members(entries, ttl_ms, fb.key, t1);
    lemma_report_keeps_keys_distinct(entries, ttl_ms, max_entries, fb, t1);
    assert(out.drop_last() =~= kept);
    lemma_first_index_bounds(entries, other);
    lemma_first_index_bounds(out, other);
    let fi = first_index(entries, other);
    let fo = first_index(out, other);
    if fi >= 0 && is_live(entries[fi], ttl_ms, t1) {
        let e = entries[fi];
        assert(kept.contains(e));
        let k = choose|k: int| 0 <= k < kept.len() && kept[k] == e;
        assert(out[k] == e);
        lemma_first_index_of_distinct(out, other, k);
    } else if fo >= 0 {
        let e = out[fo];
        if fo < kept.len() {
            assert(e == kept[fo]);
            assert(entries.contains(e));
            let j = choose|j: int| 0 <= j < entries.len() && entries[j] == e;
            lemma_first_index_of_distinct(entries, other, j);
            assert(is_live(kept[fo], ttl_ms, t1));
        } else {
            assert(e.key == fb.key);
        }
    }
}

// ------------------------------------------------------------------
// Laws of exclusion
// ------------------------------------------------------------------

proof fn lemma_contains_concat(a: Seq<Seq<char>>, b: Seq<Seq<char>>, x: Seq<char>)
    ensures
        (a + b).contains(x) <==> (a.contains(x) || b.contains(x)),
{
    if (a + b).contains(x) {
        let k = choose|k: int| 0 <= k < (a + b).len() && (a + b)[k] == x;
        if k < a.len() {
            assert(a[k] == x);
        } else {
            assert(b[k - a.len()] == x);
        }
    }
    if a.contains(x) {
        let k = choose|k: int| 0 <= k < a.len() && a[k] == x;
        assert((a + b)[k] == x);
    }
    if b.contains(x) {
        let k = choose|k: int| 0 <= k < b.len() && b[k] == x;
        assert((a + b)[k + a.len()] == x);
    }
}

/// Excluding one list and then another is excluding both at once.
pub proof fn lemma_without_composes(
    models: Seq<Seq<char>>,
    first: Seq<Seq<char>>,
    second: Seq<Seq<char>>,
)
    ensures
        without_models(without_models(models, first), second) == without_models(
            models,
            first + second,
        ),
    decreases models.len(),
{
    if models.len() > 0 {
        let init = models.drop_last();
        let x = models.last();
        lemma_without_composes(init, first, second);
        lemma_contains_concat(first, second, x);
        let once = without_models(init, first);
        if !first.contains(x) {
            assert(once.push(x).drop_last() =~= once);
        }
    }
}

/// Excluding nothing keeps the catalog as it is.
pub proof fn lemma_without_nothing(models: Seq<Seq<char>>)
    ensures
        without_models(models, Seq::empty()) == models,
    decreases models.len(),
{
    if models.len() > 0 {
        lemma_without_nothing(models.drop_last());
        assert(models.drop_last().push(models.last()) =~= models);
    }
}

/// A decision of an algorithm that chooses among offered targets names a
/// model of the catalog that neither the request nor the snapshot excludes.
pub proof fn lemma_decision_respects_exclusions<A: Algorithm>(
    algorithm: &A,
    req: RequestModel,
    view: SnapshotModel,
    catalog: Seq<Seq<char>>,
    seed: u64,
)
    requires
        chooses_offered(algorithm),
    ensures
        algorithm.spec_decide(req, context_for(req, view, catalog, seed)) matches Ok(d) ==> {
            &&& catalog.contains(d.selected_model_id)
            &&& !req.exclusions.contains(d.selected_model_id)
            &&& !view.exclusions.contains(d.selected_model_id)
        },
{
    let ctx = context_for(req, view, catalog, seed);
    if algorithm.spec_decide(req, ctx) is Ok {
        let m = algorithm.spec_decide(req, ctx)->Ok_0.selected_model_id;
        crate::algorithms::lemma_without_models_subset(catalog, req.exclusions + view.exclusions);
        assert(ctx.targets.contains(m));
        lemma_contains_concat(req.exclusions, view.exclusions, m);
    }
}

// ------------------------------------------------------------------
// The router
// ------------------------------------------------------------------

/// After a call to a model fails with overflow or unavailability and is
/// reported, the next request of the same routing key is not routed to that
/// model while the memory entry lives (for algorithms that choose among the
/// offered targets). `t1` is the clock reading of the report, `t2` that of
/// the snapshot of the next route.
pub proof fn lemma_failed_model_avoided<A: Algorithm>(
    router: &Router<A>,
    fb: FeedbackModel,
    req: RequestModel,
    t1: u64,
    t2: u64,
)
    requires
        chooses_offered(&router.algorithm),
        router.state matches StateSlot::Memory(m) && m.max_entries > 0 && t2 < t1 + m.ttl_ms,
        fb.outcome.is_exclusion(),
        req.metadata.key() == fb.key,
    ensures
        ({
            let m = router.state->Memory_0;
            let view = snapshot_of(m.report_model(fb, t1), m.ttl_ms, fb.key, t2);
            router.route_with(req, view) matches Ok(d) ==> d.selected_model_id
                != fb.selected_model_id
        }),
{
    let m = router.state->Memory_0;
    let view = snapshot_of(m.report_model(fb, t1), m.ttl_ms, fb.key, t2);
    lemma_exclusion_seen_within_ttl(m.model(), m.ttl_ms, m.max_entries, fb, t1, t2);
    lemma_decision_respects_exclusions(
        &router.algorithm,
        req,
        view,
        router.targets@,
        router.seed,
    );
}

/// The seed of the route numbered `i` in a run of routes.
proof fn lemma_route_seed_at<A: Algorithm>(routers: Seq<Router<A>>, i: int)
    requires
        0 <= i < routers.len(),
        routers.len() - 1 <= u64::MAX,
        routers[0].seed == 0,
        forall|k: int|
            0 <= k < routers.len() - 1 ==> #[trigger] routers[k + 1].seed == next_seed(
                routers[k].seed,
            ),
    ensures
        routers[i].seed == i,
    decreases i,
{
    if i > 0 {
        lemma_route_seed_at(routers, i - 1);
        assert(routers[(i - 1) + 1].seed == next_seed(routers[i - 1].seed));
    }
}

/// Seeds count the routes: in a run of routes from a fresh router, each
/// router state being the one the previous route left, the route numbered
/// `i` (from 0) decides with seed `i`. Every seed is used once, in call order,
/// whether a route succeeded or failed, as long as fewer than 2^64 routes ran.
pub proof fn lemma_seeds_count_routes<A: Algorithm>(routers: Seq<Router<A>>)
    requires
        routers.len() > 0,
        routers.len() - 1 <= u64::MAX,
        routers[0].seed == 0,
        forall|k: int|
            0 <= k < routers.len() - 1 ==> #[trigger] routers[k + 1].seed == next_seed(
                routers[k].seed,
            ),
    ensures
        forall|i: int| 0 <= i < routers.len() ==> #[trigger] routers[i].seed == i,
        forall|i: int, j: int|
            0 <= i < j < routers.len() ==> #[trigger] routers[i].seed != #[trigger] routers[j].seed,
{
    assert forall|i: int| 0 <= i < routers.len() implies #[trigger] routers[i].seed == i by {
        lemma_route_seed_at(routers, i);
    }
}

// ------------------------------------------------------------------
// Profiles and keys
// ------------------------------------------------------------------

/// A memory table's time-to-live is given in seconds: the backend it selects
/// keeps entries for that many seconds, counted in milliseconds (saturated),
/// and for 300 seconds when none is given.
pub proof fn lemma_memory_ttl_counts_seconds(cfg: StateConfig, slot: StateSlot)
    requires
        cfg.backend@ == "memory"@,
        state_selected(cfg, slot),
    ensures
        slot is Memory,
        cfg.ttl_secs matches Some(s) ==> slot->Memory_0.ttl_ms == (if s * 1000 <= u64::MAX {
            s * 1000
        } else {
            u64::MAX as int
        }),
        cfg.ttl_secs is None ==> slot->Memory_0.ttl_ms == 300_000,
{
}

/// The routing key of metadata carries both ids, a missing one being empty;
/// so requests of one session from two different agents have different keys.
pub proof fn lemma_routing_key_carries_both_ids(m1: MetadataModel, m2: MetadataModel)
    ensures
        m1.key().session_id == (match m1.session_id {
            Some(s) => s,
            None => Seq::<char>::empty(),
        }),
        m1.key().agent_id == (match m1.agent_id {
            Some(a) => a,
            None => Seq::<char>::empty(),
        }),
        m1.session_id == m2.session_id && m1.agent_id is Some && m2.agent_id is Some
            && m1.agent_id != m2.agent_id ==> m1.key() != m2.key(),
{
}

/// A feedback built without a key lands on the key of its session and agent
/// ids, a missing one being empty; with a key it lands on that key.
pub proof fn lemma_feedback_key_from_ids(
    key: Option<RoutingKey>,
    session_id: Option<String>,
    agent_id: Option<String>,
)
    ensures
        key matches Some(k) ==> feedback_key(key, session_id, agent_id) == k@,
        key is None ==> feedback_key(key, session_id, agent_id).session_id == (match session_id {
            Some(s) => s@,
            None => Seq::<char>::empty(),
        }),
        key is None ==> feedback_key(key, session_id, agent_id).agent_id == (match agent_id {
            Some(a) => a@,
            None => Seq::<char>::empty(),
        }),
        key is None ==> feedback_key(key, session_id, agent_id) == (RequestMetadata {
            session_id,
            agent_id,
        })@.key(),
{
}

} // verus!
