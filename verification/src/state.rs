//! Cross-request memory. State is a hint: bounded, losable, and never the
//! reason a request fails. The in-memory backend keeps, per routing key,
//! the affinity, the excluded models and a sample count, each entry living
//! for a time-to-live; the remote backend degrades to the empty snapshot.
use std::time::Duration;
use std::time::Instant;

use vstd::prelude::*;

use crate::protocol::{
    copy_opt_string, copy_strings, contains_string, names, opt_text, Feedback, FeedbackModel,
    FeedbackStats, KeyModel, Outcome, RoutingKey, SnapshotModel, StateView,
};

verus! {

// ------------------------------------------------------------------
// The clock
// ------------------------------------------------------------------

#[verifier::external_type_specification]
#[verifier::external_body]
pub struct ExInstant(Instant);

/// `std::time::Instant::now`: a reading of the monotonic clock. Nothing is
/// stated of the value, which depends on the time of the call.
#[verifier::external_body]
fn instant_now() -> Instant {
    Instant::now()
}

/// `std::time::Instant::elapsed`: the time since `origin`. Nothing is stated
/// of the value, which depends on the time of the call.
#[verifier::external_body]
fn instant_elapsed(origin: &Instant) -> Duration {
    origin.elapsed()
}

/// `std::time::Duration::as_millis`: the whole milliseconds of a duration.
/// Nothing is stated of the value: the duration is opaque here.
#[verifier::external_body]
fn duration_millis(d: &Duration) -> u128 {
    d.as_millis()
}

/// Milliseconds since `origin`, saturated to `u64`.
fn millis_since(origin: &Instant) -> u64 {
    let elapsed = instant_elapsed(origin);
    let ms = duration_millis(&elapsed);
    if ms > 18446744073709551615u128 {
        u64::MAX
    } else {
        ms as u64
    }
}

// ------------------------------------------------------------------
// The provider contract
// ------------------------------------------------------------------

/// A versioned write-back that found another version active.
#[derive(Clone, Debug, PartialEq, Eq)]
pub struct CasConflict {
    pub slot: String,
    pub expected: u64,
    pub actual: u64,
}

/// The plug-in contract of cross-request memory. A snapshot never fails:
/// when a backend knows nothing (or times out) it returns an empty view.
pub trait StateProvider: Sized + Send + Sync {
    /// Whether `view` is a snapshot that this state may give for `key`.
    spec fn may_snapshot(&self, key: KeyModel, view: SnapshotModel) -> bool;

    /// Whether `next` is a state that this state may become by absorbing `feedback`.
    spec fn may_absorb(&self, feedback: FeedbackModel, next: Self) -> bool;

    /// One snapshot before routing.
    fn snapshot(&self, key: &RoutingKey) -> (view: StateView)
        ensures
            self.may_snapshot(key@, view@),
    ;

    /// Absorbs the feedback on a routed call.
    fn report(&mut self, feedback: Feedback)
        ensures
            old(self).may_absorb(feedback@, *final(self)),
    ;

    /// Versioned atomic write-back of a training artifact. By default nothing
    /// is stored and the write-back succeeds.
    fn publish(&self, slot: &str, artifact: &[u8], ver: u64) -> (r: Result<(), CasConflict>)
        default_ensures
            r is Ok,
    {
        Ok(())
    }
}

// ------------------------------------------------------------------
// The in-memory backend
// ------------------------------------------------------------------

/// What memory holds for one routing key.
#[derive(Clone, Debug)]
pub struct StateEntry {
    pub key: RoutingKey,
    pub affinity: Option<String>,
    pub exclusions: Vec<String>,
    pub sample_count: u64,
    pub updated_ms: u64,
}

pub struct EntryModel {
    pub key: KeyModel,
    pub affinity: Option<Seq<char>>,
    pub exclusions: Seq<Seq<char>>,
    pub sample_count: u64,
    pub updated_ms: u64,
}

impl View for StateEntry {
    type V = EntryModel;

    open spec fn view(&self) -> EntryModel {
        EntryModel {
            key: self.key@,
            affinity: opt_text(self.affinity),
            exclusions: names(self.exclusions@),
            sample_count: self.sample_count,
            updated_ms: self.updated_ms,
        }
    }
}

impl StateEntry {
    fn copy(&self) -> (r: StateEntry)
        ensures
            r@ == self@,
    {
        StateEntry {
            key: self.key.copy(),
            affinity: copy_opt_string(&self.affinity),
            exclusions: copy_strings(&self.exclusions),
            sample_count: self.sample_count,
            updated_ms: self.updated_ms,
        }
    }
}

pub open spec fn opt_entry(o: Option<StateEntry>) -> Option<EntryModel> {
    match o {
        Some(e) => Some(e@),
        None => None,
    }
}

pub open spec fn entry_models(entries: Seq<StateEntry>) -> Seq<EntryModel> {
    entries.map_values(|e: StateEntry| e@)
}

/// An entry is live until its time-to-live has passed since its last update.
pub open spec fn is_live(e: EntryModel, ttl_ms: u64, now: u64) -> bool {
    now < e.updated_ms + ttl_ms
}

/// The index of the first entry of `key`, or -1.
pub open spec fn first_index(entries: Seq<EntryModel>, key: KeyModel) -> int
    decreases entries.len(),
{
    if entries.len() == 0 {
        -1
    } else {
        let i = first_index(entries.drop_last(), key);
        if i >= 0 {
            i
        } else if entries.last().key == key {
            entries.len() - 1
        } else {
            -1
        }
    }
}

/// The live entry of `key`, if any.
pub open spec fn live_entry(entries: Seq<EntryModel>, ttl_ms: u64, key: KeyModel, now: u64) -> Option<
    EntryModel,
> {
    let i = first_index(entries, key);
    if i >= 0 && is_live(entries[i], ttl_ms, now) {
        Some(entries[i])
    } else {
        None
    }
}

/// The snapshot that memory gives for `key` at time `now`.
pub open spec fn snapshot_of(entries: Seq<EntryModel>, ttl_ms: u64, key: KeyModel, now: u64) -> SnapshotModel {
    match live_entry(entries, ttl_ms, key, now) {
        Some(e) => SnapshotModel {
            affinity: e.affinity,
            exclusions: e.exclusions,
            sample_count: e.sample_count,
        },
        None => SnapshotModel::empty(),
    }
}

/// The live entries of keys other than `key`, in order.
pub open spec fn kept_entries(entries: Seq<EntryModel>, ttl_ms: u64, key: KeyModel, now: u64) -> Seq<
    EntryModel,
>
    decreases entries.len(),
{
    if entries.len() == 0 {
        Seq::empty()
    } else {
        let rest = kept_entries(entries.drop_last(), ttl_ms, key, now);
        let e = entries.last();
        if e.key != key && is_live(e, ttl_ms, now) {
            rest.push(e)
        } else {
            rest
        }
    }
}

/// The entry of a key after one feedback, starting from its live entry if any.
pub open spec fn absorbed(prev: Option<EntryModel>, fb: FeedbackModel, now: u64) -> EntryModel {
    let base = match prev {
        Some(e) => e,
        None => EntryModel {
            key: fb.key,
            affinity: None,
            exclusions: Seq::empty(),
            sample_count: 0,
            updated_ms: now,
        },
    };
    EntryModel {
        key: fb.key,
        affinity: if fb.outcome == Outcome::Success {
            Some(fb.selected_model_id)
        } else {
            base.affinity
        },
        exclusions: if fb.outcome.is_exclusion() && !base.exclusions.contains(
            fb.selected_model_id,
        ) {
            base.exclusions.push(fb.selected_model_id)
        } else {
            base.exclusions
        },
        sample_count: if base.sample_count == u64::MAX {
            u64::MAX
        } else {
            (base.sample_count + 1) as u64
        },
        updated_ms: now,
    }
}

/// The entries after absorbing `fb` at time `now`: expired entries and the
/// old entry of the key are dropped, the oldest entries give way when memory
/// is full, and the updated entry of the key comes last.
pub open spec fn reported_entries(
    entries: Seq<EntryModel>,
    ttl_ms: u64,
    max_entries: usize,
    fb: FeedbackModel,
    now: u64,
) -> Seq<EntryModel> {
    if max_entries == 0 {
        Seq::empty()
    } else {
        let kept = kept_entries(entries, ttl_ms, fb.key, now);
        let room = if kept.len() >= max_entries {
            kept.skip(kept.len() - max_entries + 1)
        } else {
            kept
        };
        room.push(absorbed(live_entry(entries, ttl_ms, fb.key, now), fb, now))
    }
}

/// Edge-side state: entries per routing key, each living `ttl_ms`
/// milliseconds after its last update, at most `max_entries` of them.
pub struct MemoryState {
    pub ttl_ms: u64,
    pub max_entries: usize,
    pub entries: Vec<StateEntry>,
    pub origin: Instant,
}

impl MemoryState {
    pub open spec fn model(&self) -> Seq<EntryModel> {
        entry_models(self.entries@)
    }

    pub open spec fn snapshot_model(&self, key: KeyModel, now: u64) -> SnapshotModel {
        snapshot_of(self.model(), self.ttl_ms, key, now)
    }

    pub open spec fn report_model(&self, fb: FeedbackModel, now: u64) -> Seq<EntryModel> {
        reported_entries(self.model(), self.ttl_ms, self.max_entries, fb, now)
    }

    /// An empty memory whose entries live `ttl_ms` milliseconds, holding at
    /// most `max_entries` keys.
    pub fn new(ttl_ms: u64, max_entries: usize) -> (r: MemoryState)
        ensures
            r.ttl_ms == ttl_ms,
            r.max_entries == max_entries,
            r.entries@.len() == 0,
    {
        MemoryState { ttl_ms, max_entries, entries: Vec::new(), origin: instant_now() }
    }

    /// Milliseconds since this memory was created.
    fn now(&self) -> u64 {
        millis_since(&self.origin)
    }

    fn find(&self, key: &RoutingKey) -> (r: Option<usize>)
        ensures
            match r {
                Some(i) => i < self.entries@.len() && first_index(self.model(), key@) == i,
                None => first_index(self.model(), key@) == -1,
            },
    {
        let mut i: usize = 0;
        while i < self.entries.len()
            invariant
                i <= self.entries@.len(),
                first_index(self.model().take(i as int), key@) == -1,
            decreases self.entries.len() - i,
        {
            assert(self.model().take(i as int + 1).drop_last() =~= self.model().take(i as int));
            if self.entries[i].key.same_key(key) {
                proof {
                    lemma_first_index_prefix(self.model(), key@, i as int + 1);
                }
                return Some(i);
            }
            i = i + 1;
        }
        assert(self.model().take(self.entries.len() as int) =~= self.model());
        None
    }

    /// The snapshot of `key` at time `now` (milliseconds since creation).
    pub fn snapshot_at(&self, key: &RoutingKey, now: u64) -> (view: StateView)
        ensures
            view@ == self.snapshot_model(key@, now),
    {
        match self.find(key) {
            Some(i) => {
                let e = &self.entries[i];
                if now < e.updated_ms || now - e.updated_ms < self.ttl_ms {
                    StateView {
                        affinity: copy_opt_string(&e.affinity),
                        exclusions: copy_strings(&e.exclusions),
                        stats: FeedbackStats { sample_count: e.sample_count },
                    }
                } else {
                    StateView::empty()
                }
            },
            None => StateView::empty(),
        }
    }

    fn live_copy(&self, key: &RoutingKey, now: u64) -> (r: Option<StateEntry>)
        ensures
            match r {
                Some(e) => live_entry(self.model(), self.ttl_ms, key@, now) == Some(e@),
                None => live_entry(self.model(), self.ttl_ms, key@, now) is None,
            },
            live_entry(self.model(), self.ttl_ms, key@, now) == opt_entry(r),
    {
        match self.find(key) {
            Some(i) => {
                let e = &self.entries[i];
                if now < e.updated_ms || now - e.updated_ms < self.ttl_ms {
                    Some(e.copy())
                } else {
                    None
                }
            },
            None => None,
        }
    }

    fn kept(&self, key: &RoutingKey, now: u64) -> (r: Vec<StateEntry>)
        ensures
            entry_models(r@) == kept_entries(self.model(), self.ttl_ms, key@, now),
    {
        let mut r: Vec<StateEntry> = Vec::new();
        let mut i: usize = 0;
        while i < self.entries.len()
            invariant
                i <= self.entries@.len(),
                entry_models(r@) == kept_entries(self.model().take(i as int), self.ttl_ms, key@, now),
            decreases self.entries.len() - i,
        {
            let e = &self.entries[i];
            assert(self.model().take(i as int + 1).drop_last() =~= self.model().take(i as int));
            assert(self.model().take(i as int + 1).last() == e@);
            if !e.key.same_key(key) && (now < e.updated_ms || now - e.updated_ms < self.ttl_ms) {
                let c = e.copy();
                r.push(c);
                assert(entry_models(r@) =~= entry_models(r@).drop_last().push(c@));
            }
            i = i + 1;
        }
        assert(self.model().take(self.entries.len() as int) =~= self.model());
        r
    }

    /// Absorbs `fb` at time `now` (milliseconds since creation).
    pub fn report_at(&mut self, fb: Feedback, now: u64)
        ensures
            final(self).model() == old(self).report_model(fb@, now),
            final(self).ttl_ms == old(self).ttl_ms,
            final(self).max_entries == old(self).max_entries,
            final(self).origin == old(self).origin,
    {
        if self.max_entries == 0 {
            self.entries = Vec::new();
            assert(self.model() =~= Seq::<EntryModel>::empty());
            return;
        }
        let prev = self.live_copy(&fb.key, now);
        let kept = self.kept(&fb.key, now);
        let ghost kept_model = entry_models(kept@);
        let mut room: Vec<StateEntry> = Vec::new();
        let start: usize = if kept.len() >= self.max_entries {
            kept.len() - self.max_entries + 1
        } else {
            0
        };
        let mut i: usize = start;
        while i < kept.len()
            invariant
                start <= i <= kept@.len(),
                kept_model == entry_models(kept@),
                entry_models(room@) == kept_model.subrange(start as int, i as int),
            decreases kept.len() - i,
        {
            let c = kept[i].copy();
            let ghost before = room@;
            room.push(c);
            assert(entry_models(room@) =~= entry_models(before).push(c@));
            assert(kept_model[i as int] == c@);
            assert(entry_models(room@) =~= kept_model.subrange(start as int, i as int + 1));
            i = i + 1;
        }
        let entry = absorb(prev, &fb, now);
        room.push(entry);
        proof {
            let kept_spec = kept_entries(old(self).model(), self.ttl_ms, fb@.key, now);
            assert(kept_spec.skip(start as int) =~= kept_model.subrange(start as int, kept@.len() as int));
            assert(kept_model.subrange(0, kept@.len() as int) =~= kept_model);
            assert(entry_models(room@) =~= entry_models(room@).drop_last().push(entry@));
        }
        self.entries = room;
    }
}

/// One feedback applied to the live entry of its key (or to a fresh one).
fn absorb(prev: Option<StateEntry>, fb: &Feedback, now: u64) -> (r: StateEntry)
    ensures
        r@ == absorbed(opt_entry(prev), fb@, now),
{
    let mut e = match prev {
        Some(e) => e,
        None => {
            let fresh = StateEntry {
                key: fb.key.copy(),
                affinity: None,
                exclusions: Vec::new(),
                sample_count: 0,
                updated_ms: now,
            };
            assert(names(fresh.exclusions@) =~= Seq::<Seq<char>>::empty());
            fresh
        },
    };
    let ghost base = e@;
    e.key = fb.key.copy();
    if fb.outcome == Outcome::Success {
        e.affinity = Some(fb.selected_model_id.clone());
    }
    if fb.outcome.excludes() && !contains_string(&e.exclusions, &fb.selected_model_id) {
        e.exclusions.push(fb.selected_model_id.clone());
        assert(names(e.exclusions@) =~= base.exclusions.push(fb.selected_model_id@));
    }
    e.sample_count = e.sample_count.saturating_add(1);
    e.updated_ms = now;
    e
}

/// The first index of a key in a prefix is its first index in the whole.
proof fn lemma_first_index_prefix(entries: Seq<EntryModel>, key: KeyModel, n: int)
    requires
        0 <= n <= entries.len(),
        first_index(entries.take(n), key) >= 0,
    ensures
        first_index(entries, key) == first_index(entries.take(n), key),
    decreases entries.len() - n,
{
    if n < entries.len() {
        assert(entries.take(n + 1).drop_last() =~= entries.take(n));
        lemma_first_index_prefix(entries, key, n + 1);
    } else {
        assert(entries.take(n) =~= entries);
    }
}

impl StateProvider for MemoryState {
    open spec fn may_snapshot(&self, key: KeyModel, view: SnapshotModel) -> bool {
        exists|now: u64| #[trigger] self.snapshot_model(key, now) == view
    }

    open spec fn may_absorb(&self, feedback: FeedbackModel, next: Self) -> bool {
        &&& next.ttl_ms == self.ttl_ms
        &&& next.max_entries == self.max_entries
        &&& next.origin == self.origin
        &&& exists|now: u64| #[trigger] self.report_model(feedback, now) == next.model()
    }

    fn snapshot(&self, key: &RoutingKey) -> (view: StateView) {
        let now = self.now();
        let view = self.snapshot_at(key, now);
        assert(self.snapshot_model(key@, now) == view@);
        view
    }

    fn report(&mut self, feedback: Feedback) {
        let now = self.now();
        let ghost fb = feedback@;
        self.report_at(feedback, now);
        assert(old(self).report_model(fb, now) == self.model());
    }
}

// ------------------------------------------------------------------
// The remote backend
// ------------------------------------------------------------------

/// Cloud-side state client. Over its deadline it answers with the empty
/// view; a request never fails because of it. No network call is made yet:
/// every snapshot is empty and reports are dropped.
#[derive(Clone, Debug)]
pub struct RemoteState {
    pub endpoint: String,
    pub timeout_ms: u64,
}

impl RemoteState {
    pub fn new(endpoint: String, timeout_ms: u64) -> (r: RemoteState)
        ensures
            r.endpoint == endpoint,
            r.timeout_ms == timeout_ms,
    {
        RemoteState { endpoint, timeout_ms }
    }
}

impl StateProvider for RemoteState {
    open spec fn may_snapshot(&self, key: KeyModel, view: SnapshotModel) -> bool {
        view == SnapshotModel::empty()
    }

    open spec fn may_absorb(&self, feedback: FeedbackModel, next: Self) -> bool {
        next == *self
    }

    fn snapshot(&self, key: &RoutingKey) -> (view: StateView) {
        StateView::empty()
    }

    fn report(&mut self, feedback: Feedback) {
    }
}

// ------------------------------------------------------------------
// The state slot of a router
// ------------------------------------------------------------------

/// The state backend a router holds: one of the two built-in backends.
pub enum StateSlot {
    Memory(MemoryState),
    Remote(RemoteState),
}

impl StateProvider for StateSlot {
    open spec fn may_snapshot(&self, key: KeyModel, view: SnapshotModel) -> bool {
        match self {
            StateSlot::Memory(m) => m.may_snapshot(key, view),
            StateSlot::Remote(r) => r.may_snapshot(key, view),
        }
    }

    open spec fn may_absorb(&self, feedback: FeedbackModel, next: Self) -> bool {
        match (self, next) {
            (StateSlot::Memory(a), StateSlot::Memory(b)) => a.may_absorb(feedback, b),
            (StateSlot::Remote(a), StateSlot::Remote(b)) => a.may_absorb(feedback, b),
            _ => false,
        }
    }

    fn snapshot(&self, key: &RoutingKey) -> (view: StateView) {
        match self {
            StateSlot::Memory(m) => m.snapshot(key),
            StateSlot::Remote(r) => r.snapshot(key),
        }
    }

    fn report(&mut self, feedback: Feedback) {
        match self {
            StateSlot::Memory(m) => m.report(feedback),
            StateSlot::Remote(r) => r.report(feedback),
        }
    }
}

} // verus!
