//! Assembly and the decision loop. A host sees one facade, [`Router`]:
//! it is assembled from a profile, answers `route` with a decision, and
//! takes `report` with feedback. One algorithm and one state backend are
//! active at a time.
use vstd::prelude::*;

use crate::algorithms::{
    Algorithm, BuiltinAlgorithm, ContextModel, Ensemble, Passthrough, RouteContext, RuleCascade,
    Signal, Weighted,
};
use crate::protocol::{
    append_strings, copy_strings, decision_result, text_is, without_models, Decision,
    DecisionModel, ErrorModel, Feedback, ModelSelection, RequestModel, RouteHint, RouteRequest,
    RouterError, SnapshotModel, StateView, TargetSet,
};
use crate::state::{MemoryState, RemoteState, StateProvider, StateSlot};

verus! {

// ------------------------------------------------------------------
// Profiles
// ------------------------------------------------------------------

/// The `[state]` table of a profile.
#[derive(Clone, Debug, PartialEq, Eq, Default)]
pub struct StateConfig {
    /// `memory` or `remote`.
    pub backend: String,
    /// Time-to-live of memory entries in seconds (300 when absent).
    pub ttl_secs: Option<u64>,
    /// Capacity of memory in routing keys (1024 when absent).
    pub max_entries: Option<usize>,
    /// Address of the remote state service; required for `remote`.
    pub endpoint: Option<String>,
    /// Deadline of a remote call in milliseconds (5 when absent).
    pub timeout_ms: Option<u64>,
}

/// The `[targets]` table of a profile.
#[derive(Clone, Debug, PartialEq, Eq, Default)]
pub struct TargetsConfig {
    pub models: Vec<String>,
}

/// One `[[evolving]]` entry. It is read but not yet attached to a training job.
#[derive(Clone, Debug, PartialEq, Eq, Default)]
pub struct EvolvingConfig {
    pub name: String,
}

/// A router profile: the algorithm by name, the state backend, the catalog.
#[derive(Clone, Debug, PartialEq, Eq, Default)]
pub struct RouterProfile {
    pub algorithm: String,
    pub state: StateConfig,
    pub targets: TargetsConfig,
    pub evolving: Vec<EvolvingConfig>,
}

// ------------------------------------------------------------------
// The algorithm pool
// ------------------------------------------------------------------

/// The reasoning of each built-in algorithm, by name.
pub open spec fn builtin_reasoning(name: Seq<char>) -> Option<Seq<char>> {
    if name == "passthrough"@ {
        Some("passthrough: first available target"@)
    } else if name == "weighted"@ {
        Some("weighted: stub, falls back to first target"@)
    } else if name == "rule_cascade"@ {
        Some("rule_cascade: stub, falls back to first target"@)
    } else if name == "signal"@ {
        Some("signal: stub, falls back to first target"@)
    } else if name == "ensemble"@ {
        Some("ensemble: stub, falls back to first target"@)
    } else {
        None
    }
}

/// Takes one algorithm by name out of the built-in pool.
pub fn create_algorithm(name: &str) -> (r: Result<BuiltinAlgorithm, RouterError>)
    ensures
        match builtin_reasoning(name@) {
            Some(reasoning) => r matches Ok(a) && a.spec_name() == name@ && a.reasoning()
                == reasoning,
            None => r matches Err(e) && e@ == ErrorModel::Config(
                "unknown or disabled algorithm: "@ + name@,
            ),
        },
{
    if text_is(name, "passthrough") {
        Ok(BuiltinAlgorithm::Passthrough(Passthrough))
    } else if text_is(name, "weighted") {
        Ok(BuiltinAlgorithm::Weighted(Weighted))
    } else if text_is(name, "rule_cascade") {
        Ok(BuiltinAlgorithm::RuleCascade(RuleCascade))
    } else if text_is(name, "signal") {
        Ok(BuiltinAlgorithm::Signal(Signal))
    } else if text_is(name, "ensemble") {
        Ok(BuiltinAlgorithm::Ensemble(Ensemble))
    } else {
        Err(RouterError::Config(String::from_str("unknown or disabled algorithm: ").concat(name)))
    }
}

// ------------------------------------------------------------------
// The decision loop
// ------------------------------------------------------------------

/// The context of a decision: the catalog without what the request and the
/// snapshot exclude, the snapshot itself, and the seed.
pub open spec fn context_for(
    request: RequestModel,
    view: SnapshotModel,
    catalog: Seq<Seq<char>>,
    seed: u64,
) -> ContextModel {
    ContextModel {
        targets: without_models(catalog, request.exclusions + view.exclusions),
        view,
        seed,
    }
}

/// Decides with a given snapshot: merge the exclusions of the request and of
/// the snapshot, drop them from the catalog, and ask the algorithm.
pub fn decide_with_view<A: Algorithm>(
    algorithm: &A,
    req: &RouteRequest,
    view: StateView,
    catalog: &TargetSet,
    seed: u64,
) -> (r: Result<Decision, RouterError>)
    ensures
        decision_result(r) == algorithm.spec_decide(
            req@,
            context_for(req@, view@, catalog@, seed),
        ),
{
    let mut exclusions = copy_strings(&req.exclusions);
    append_strings(&mut exclusions, &view.exclusions);
    let targets = catalog.without(&exclusions);
    proof {
        assert(crate::protocol::names(exclusions@) =~= req@.exclusions + view@.exclusions);
    }
    let ctx = RouteContext { targets, view, seed };
    algorithm.decide(req, &ctx)
}

/// Drives one pure decision: snapshot the request's key, then decide. A host
/// that retries excludes the failed targets in the request.
pub fn run<A: Algorithm, S: StateProvider>(
    algorithm: &A,
    state: &S,
    req: &RouteRequest,
    hint: &RouteHint,
    catalog: &TargetSet,
    seed: u64,
) -> (r: Result<Decision, RouterError>)
    ensures
        exists|view: SnapshotModel|
            #[trigger] state.may_snapshot(req@.metadata.key(), view) && decision_result(r)
                == algorithm.spec_decide(req@, context_for(req@, view, catalog@, seed)),
{
    let key = req.routing_key();
    let view = state.snapshot(&key);
    let ghost v = view@;
    let r = decide_with_view(algorithm, req, view, catalog, seed);
    assert(state.may_snapshot(req@.metadata.key(), v));
    r
}

// ------------------------------------------------------------------
// The router
// ------------------------------------------------------------------

/// Called when the router switches models, to coordinate KV caches. It is
/// kept by the router and not yet called.
pub trait KvCacheCoordinator: Send + Sync {
    fn on_switch(&self, from: &str, to: &str);
}

/// An assembled router: one algorithm, one state backend, the catalog, and
/// the seed of the next decision.
pub struct Router<A: Algorithm> {
    pub algorithm: A,
    pub state: StateSlot,
    pub targets: TargetSet,
    pub seed: u64,
    pub kv_coordinator: Option<Box<dyn KvCacheCoordinator>>,
}

/// Default time-to-live of memory entries, in seconds.
pub const DEFAULT_TTL_SECS: u64 = 300;

/// Default capacity of memory, in routing keys.
pub const DEFAULT_MAX_ENTRIES: usize = 1024;

/// Default deadline of a remote state call, in milliseconds.
pub const DEFAULT_TIMEOUT_MS: u64 = 5;

/// Seconds as milliseconds, saturated to `u64`.
pub open spec fn secs_to_millis(secs: u64) -> u64 {
    if secs * 1000 > u64::MAX {
        u64::MAX
    } else {
        (secs * 1000) as u64
    }
}

pub open spec fn u64_or(o: Option<u64>, d: u64) -> u64 {
    match o {
        Some(v) => v,
        None => d,
    }
}

pub open spec fn usize_or(o: Option<usize>, d: usize) -> usize {
    match o {
        Some(v) => v,
        None => d,
    }
}

/// Whether `slot` is the backend that a `[state]` table selects, for a table
/// that gives no error.
pub open spec fn state_selected(cfg: StateConfig, slot: StateSlot) -> bool {
    if cfg.backend@ == "memory"@ {
        slot matches StateSlot::Memory(m) && m.ttl_ms == secs_to_millis(
            u64_or(cfg.ttl_secs, DEFAULT_TTL_SECS),
        ) && m.max_entries == usize_or(cfg.max_entries, DEFAULT_MAX_ENTRIES) && m.entries@.len()
            == 0
    } else {
        slot matches StateSlot::Remote(rs) && cfg.endpoint == Some(rs.endpoint) && rs.timeout_ms
            == u64_or(cfg.timeout_ms, DEFAULT_TIMEOUT_MS)
    }
}

/// The error that a `[state]` table gives, if any.
pub open spec fn state_error(cfg: StateConfig) -> Option<ErrorModel> {
    if cfg.backend@ == "memory"@ {
        None
    } else if cfg.backend@ == "remote"@ {
        if cfg.endpoint is None {
            Some(ErrorModel::Config("remote state requires endpoint"@))
        } else {
            None
        }
    } else {
        Some(ErrorModel::Config("unknown state backend: "@ + cfg.backend@))
    }
}

/// Builds the state backend of a profile's `[state]` table.
pub fn state_from_profile(cfg: &StateConfig) -> (r: Result<StateSlot, RouterError>)
    ensures
        match state_error(*cfg) {
            Some(e) => r matches Err(err) && err@ == e,
            None => r matches Ok(slot) && state_selected(*cfg, slot),
        },
        cfg.backend@ == "memory"@ && cfg.ttl_secs is Some && cfg.ttl_secs->0 * 1000 <= u64::MAX
            ==> (r matches Ok(StateSlot::Memory(m)) && m.ttl_ms == cfg.ttl_secs->0 * 1000),
        cfg.backend@ == "memory"@ && cfg.ttl_secs is None ==> (r matches Ok(StateSlot::Memory(m))
            && m.ttl_ms == 300_000),
{
    if text_is(cfg.backend.as_str(), "memory") {
        let secs = match cfg.ttl_secs {
            Some(s) => s,
            None => DEFAULT_TTL_SECS,
        };
        let ttl_ms = match secs.checked_mul(1000) {
            Some(ms) => ms,
            None => u64::MAX,
        };
        let cap = match cfg.max_entries {
            Some(c) => c,
            None => DEFAULT_MAX_ENTRIES,
        };
        Ok(StateSlot::Memory(MemoryState::new(ttl_ms, cap)))
    } else if text_is(cfg.backend.as_str(), "remote") {
        match &cfg.endpoint {
            Some(endpoint) => {
                let timeout_ms = match cfg.timeout_ms {
                    Some(t) => t,
                    None => DEFAULT_TIMEOUT_MS,
                };
                Ok(StateSlot::Remote(RemoteState::new(endpoint.clone(), timeout_ms)))
            },
            None => Err(RouterError::Config(String::from_str("remote state requires endpoint"))),
        }
    } else {
        Err(
            RouterError::Config(
                String::from_str("unknown state backend: ").concat(cfg.backend.as_str()),
            ),
        )
    }
}

/// The seed after one decision: the counter wraps around.
pub open spec fn next_seed(seed: u64) -> u64 {
    if seed == u64::MAX {
        0
    } else {
        (seed + 1) as u64
    }
}

impl<A: Algorithm> Router<A> {
    /// The outcome of routing `req` with snapshot `view` from this router.
    pub open spec fn route_with(&self, req: RequestModel, view: SnapshotModel) -> Result<
        DecisionModel,
        ErrorModel,
    > {
        self.algorithm.spec_decide(req, context_for(req, view, self.targets@, self.seed))
    }

    /// Assembles a router from a profile and an algorithm instance.
    pub fn from_profile_with_algorithm(profile: RouterProfile, algorithm: A) -> (r: Result<
        Router<A>,
        RouterError,
    >)
        ensures
            match state_error(profile.state) {
                Some(e) => r matches Err(err) && err@ == e,
                None => r matches Ok(router) && router.algorithm == algorithm && state_selected(
                    profile.state,
                    router.state,
                ) && router.targets.models == profile.targets.models && router.seed == 0
                    && router.kv_coordinator is None,
            },
    {
        let state = match state_from_profile(&profile.state) {
            Ok(s) => s,
            Err(e) => {
                return Err(e);
            },
        };
        Ok(
            Router {
                algorithm,
                state,
                targets: TargetSet::new(profile.targets.models),
                seed: 0,
                kv_coordinator: None,
            },
        )
    }

    /// Routes one request: snapshot, exclude, decide. Each call uses the
    /// current seed and advances it by one.
    pub fn route(&mut self, req: &RouteRequest, hint: &RouteHint) -> (r: Result<
        Decision,
        RouterError,
    >)
        ensures
            exists|view: SnapshotModel| #[trigger]
                old(self).state.may_snapshot(req@.metadata.key(), view) && decision_result(r)
                    == old(self).route_with(req@, view),
            final(self).seed == next_seed(old(self).seed),
            final(self).algorithm == old(self).algorithm,
            final(self).state == old(self).state,
            final(self).targets == old(self).targets,
            final(self).kv_coordinator is Some <==> old(self).kv_coordinator is Some,
    {
        let seed = self.seed;
        self.seed = self.seed.wrapping_add(1);
        run(&self.algorithm, &self.state, req, hint, &self.targets, seed)
    }

    /// Hands feedback to the state backend.
    pub fn report(&mut self, feedback: Feedback)
        ensures
            old(self).state.may_absorb(feedback@, final(self).state),
            final(self).seed == old(self).seed,
            final(self).algorithm == old(self).algorithm,
            final(self).targets == old(self).targets,
            final(self).kv_coordinator is Some <==> old(self).kv_coordinator is Some,
    {
        self.state.report(feedback);
    }

    /// Registers the KV cache coordinator.
    pub fn with_kv_coordinator(self, cb: Box<dyn KvCacheCoordinator>) -> (r: Router<A>)
        ensures
            r.kv_coordinator is Some,
            r.algorithm == self.algorithm,
            r.state == self.state,
            r.targets == self.targets,
            r.seed == self.seed,
    {
        Router {
            algorithm: self.algorithm,
            state: self.state,
            targets: self.targets,
            seed: self.seed,
            kv_coordinator: Some(cb),
        }
    }

    /// The stable name of the active algorithm.
    pub fn algorithm_name(&self) -> (r: &str)
        ensures
            r@ == self.algorithm.spec_name(),
    {
        self.algorithm.name()
    }
}

impl Router<BuiltinAlgorithm> {
    /// Assembles a router from a profile: the algorithm by name from the
    /// built-in pool, the state backend, the catalog.
    pub fn from_profile(profile: RouterProfile) -> (r: Result<Router<BuiltinAlgorithm>, RouterError>)
        ensures
            match builtin_reasoning(profile.algorithm@) {
                None => r matches Err(e) && e@ == ErrorModel::Config(
                    "unknown or disabled algorithm: "@ + profile.algorithm@,
                ),
                Some(reasoning) => match state_error(profile.state) {
                    Some(e) => r matches Err(err) && err@ == e,
                    None => r matches Ok(router) && router.algorithm.spec_name()
                        == profile.algorithm@ && router.algorithm.reasoning() == reasoning
                        && state_selected(profile.state, router.state) && router.targets.models
                        == profile.targets.models && router.seed == 0
                        && router.kv_coordinator is None,
                },
            },
    {
        let algorithm = match create_algorithm(profile.algorithm.as_str()) {
            Ok(a) => a,
            Err(e) => {
                return Err(e);
            },
        };
        Router::from_profile_with_algorithm(profile, algorithm)
    }

}

/// The contract of a routing core embedded in an application: ask, report,
/// name. Routing answers with the cross-boundary selection.
pub trait RouterProvider {
    fn route(&mut self, request: &RouteRequest, hint: &RouteHint) -> Result<
        ModelSelection,
        RouterError,
    >;

    fn report(&mut self, feedback: Feedback);

    fn algorithm_name(&self) -> &str;
}

} // verus!
