use openjiuwen_router::algorithms::{Algorithm, BuiltinAlgorithm, Passthrough};
use openjiuwen_router::protocol::{
    Feedback, Outcome, RequestMetadata, RouteHint, RouteRequest, RouterError, TargetSet,
};
use openjiuwen_router::runtime::{
    create_algorithm, run, state_from_profile, KvCacheCoordinator, Router, RouterProfile,
    StateConfig, TargetsConfig,
};
use openjiuwen_router::state::{MemoryState, StateSlot};

fn toml_str(table: &toml::Table, key: &str) -> Option<String> {
    table.get(key).and_then(|v| v.as_str()).map(|s| s.to_string())
}

fn toml_u64(table: &toml::Table, key: &str) -> Option<u64> {
    table.get(key).and_then(|v| v.as_integer()).map(|i| i as u64)
}

/// Reads a profile from TOML text by calls on a parsed table.
fn profile_from_toml(text: &str) -> RouterProfile {
    let table: toml::Table = toml::from_str(text).expect("toml");
    let state = table.get("state").and_then(|v| v.as_table()).expect("state table");
    let models = table
        .get("targets")
        .and_then(|v| v.as_table())
        .and_then(|t| t.get("models"))
        .and_then(|v| v.as_array())
        .map(|a| a.iter().map(|m| m.as_str().unwrap().to_string()).collect())
        .unwrap_or_default();
    RouterProfile {
        algorithm: toml_str(&table, "algorithm").expect("algorithm"),
        state: StateConfig {
            backend: toml_str(state, "backend").expect("backend"),
            ttl_secs: toml_u64(state, "ttl_secs"),
            max_entries: toml_u64(state, "max_entries").map(|v| v as usize),
            endpoint: toml_str(state, "endpoint"),
            timeout_ms: toml_u64(state, "timeout_ms"),
        },
        targets: TargetsConfig { models },
        evolving: Vec::new(),
    }
}

fn from_toml(text: &str) -> Result<Router<BuiltinAlgorithm>, RouterError> {
    Router::from_profile(profile_from_toml(text))
}

fn request(session: &str, agent: &str, exclusions: &[&str]) -> RouteRequest {
    RouteRequest {
        metadata: RequestMetadata {
            session_id: Some(session.into()),
            agent_id: Some(agent.into()),
        },
        exclusions: exclusions.iter().map(|s| s.to_string()).collect(),
        ..RouteRequest::default()
    }
}

fn profile(algorithm: &str, backend: &str, models: &[&str]) -> RouterProfile {
    RouterProfile {
        algorithm: algorithm.into(),
        state: StateConfig {
            backend: backend.into(),
            ..StateConfig::default()
        },
        targets: TargetsConfig {
            models: models.iter().map(|s| s.to_string()).collect(),
        },
        evolving: Vec::new(),
    }
}

#[test]
fn passthrough_picks_first_target() {
    let toml = r#"
algorithm = "passthrough"
[state]
backend = "memory"
[targets]
models = ["alpha", "beta"]
"#;
    let mut router = from_toml(toml).expect("assemble");
    let req = RouteRequest {
        metadata: RequestMetadata {
            session_id: Some("s1".into()),
            agent_id: Some("a1".into()),
        },
        ..RouteRequest::default()
    };
    let d = router.route(&req, &RouteHint::default()).expect("route");
    assert_eq!(d.selected_model_id, "alpha");
    assert!(d.is_answer_call);
}

#[test]
fn unavailable_model_is_avoided_on_next_route() {
    let mut router = Router::from_profile(profile("passthrough", "memory", &["fast-local", "strong-cloud"]))
        .expect("assemble");
    let req = request("s1", "a1", &[]);
    let first = router.route(&req, &RouteHint::default()).expect("route");
    assert_eq!(first.selected_model_id, "fast-local");
    router.report(Feedback {
        key: req.routing_key(),
        selected_model_id: first.selected_model_id.clone(),
        outcome: Outcome::Unavailable,
        latency_ms: 1,
        cache_valid: None,
    });
    let second = router.route(&req, &RouteHint::default()).expect("route");
    assert_eq!(second.selected_model_id, "strong-cloud");
    // Another conversation is not affected.
    let other = router.route(&request("s2", "a1", &[]), &RouteHint::default()).expect("route");
    assert_eq!(other.selected_model_id, "fast-local");
}

#[test]
fn overflow_then_all_excluded_gives_no_target() {
    let mut router = Router::from_profile(profile("weighted", "memory", &["a", "b"])).expect("assemble");
    let req = request("s", "g", &["b"]);
    router.report(Feedback {
        key: req.routing_key(),
        selected_model_id: "a".into(),
        outcome: Outcome::Overflow,
        latency_ms: 3,
        cache_valid: Some(true),
    });
    assert_eq!(router.route(&req, &RouteHint::default()), Err(RouterError::NoTarget));
}

#[test]
fn rejected_model_is_not_excluded() {
    let mut router = Router::from_profile(profile("passthrough", "memory", &["a", "b"])).expect("assemble");
    let req = request("s", "g", &[]);
    router.report(Feedback {
        key: req.routing_key(),
        selected_model_id: "a".into(),
        outcome: Outcome::Rejected,
        latency_ms: 3,
        cache_valid: None,
    });
    let d = router.route(&req, &RouteHint::default()).expect("route");
    assert_eq!(d.selected_model_id, "a");
}

#[test]
fn request_exclusions_are_respected() {
    let mut router = Router::from_profile(profile("signal", "memory", &["a", "b", "c"])).expect("assemble");
    let d = router
        .route(&request("s", "g", &["a", "b"]), &RouteHint::default())
        .expect("route");
    assert_eq!(d.selected_model_id, "c");
    assert_eq!(d.reasoning, "signal: stub, falls back to first target");
}

#[test]
fn empty_catalog_gives_no_target() {
    let mut router = Router::from_profile(profile("ensemble", "memory", &[])).expect("assemble");
    assert_eq!(
        router.route(&request("s", "g", &[]), &RouteHint::default()),
        Err(RouterError::NoTarget)
    );
}

#[test]
fn seed_advances_per_route() {
    let mut router = Router::from_profile(profile("passthrough", "memory", &["a"])).expect("assemble");
    assert_eq!(router.seed, 0);
    let req = request("s", "g", &[]);
    router.route(&req, &RouteHint::default()).expect("route");
    router.route(&req, &RouteHint::default()).expect("route");
    assert_eq!(router.seed, 2);
    router.seed = u64::MAX;
    router.route(&req, &RouteHint::default()).expect("route");
    assert_eq!(router.seed, 0);
}

#[test]
fn unknown_algorithm_is_a_config_error() {
    let err = Router::from_profile(profile("magic", "memory", &["a"])).err().expect("error");
    assert_eq!(err, RouterError::Config("unknown or disabled algorithm: magic".into()));
    assert_eq!(err.message(), "config: unknown or disabled algorithm: magic");
}

#[test]
fn unknown_backend_is_a_config_error() {
    let err = Router::from_profile(profile("passthrough", "disk", &["a"])).err().expect("error");
    assert_eq!(err, RouterError::Config("unknown state backend: disk".into()));
}

#[test]
fn remote_backend_requires_endpoint() {
    let err = Router::from_profile(profile("passthrough", "remote", &["a"])).err().expect("error");
    assert_eq!(err, RouterError::Config("remote state requires endpoint".into()));
    let mut p = profile("passthrough", "remote", &["a"]);
    p.state.endpoint = Some("grpc://state:7000".into());
    let router = Router::from_profile(p).expect("assemble");
    match &router.state {
        StateSlot::Remote(r) => {
            assert_eq!(r.endpoint, "grpc://state:7000");
            assert_eq!(r.timeout_ms, 5);
        }
        StateSlot::Memory(_) => panic!("remote expected"),
    }
}

#[test]
fn remote_router_ignores_feedback() {
    let mut p = profile("passthrough", "remote", &["a", "b"]);
    p.state.endpoint = Some("grpc://state:7000".into());
    p.state.timeout_ms = Some(20);
    let mut router = Router::from_profile(p).expect("assemble");
    let req = request("s", "g", &[]);
    router.report(Feedback {
        key: req.routing_key(),
        selected_model_id: "a".into(),
        outcome: Outcome::Unavailable,
        latency_ms: 1,
        cache_valid: None,
    });
    let d = router.route(&req, &RouteHint::default()).expect("route");
    assert_eq!(d.selected_model_id, "a");
    match &router.state {
        StateSlot::Remote(r) => assert_eq!(r.timeout_ms, 20),
        StateSlot::Memory(_) => panic!("remote expected"),
    }
}

#[test]
fn memory_defaults_follow_the_profile() {
    let slot = state_from_profile(&StateConfig {
        backend: "memory".into(),
        ..StateConfig::default()
    })
    .ok()
    .expect("memory");
    match slot {
        StateSlot::Memory(m) => {
            assert_eq!(m.ttl_ms, 300_000);
            assert_eq!(m.max_entries, 1024);
            assert!(m.entries.is_empty());
        }
        StateSlot::Remote(_) => panic!("memory expected"),
    }
    let slot = state_from_profile(&StateConfig {
        backend: "memory".into(),
        ttl_secs: Some(u64::MAX),
        max_entries: Some(7),
        ..StateConfig::default()
    })
    .ok()
    .expect("memory");
    match slot {
        StateSlot::Memory(m) => {
            assert_eq!(m.ttl_ms, u64::MAX);
            assert_eq!(m.max_entries, 7);
        }
        StateSlot::Remote(_) => panic!("memory expected"),
    }
}

#[test]
fn create_algorithm_knows_the_builtin_pool() {
    for name in ["passthrough", "weighted", "rule_cascade", "signal", "ensemble"] {
        let a = create_algorithm(name).ok().expect("builtin");
        assert_eq!(a.name(), name);
    }
    let err = create_algorithm("Passthrough").err().expect("case matters");
    assert_eq!(err, RouterError::Config("unknown or disabled algorithm: Passthrough".into()));
}

#[test]
fn algorithm_name_reports_the_slot() {
    let router = Router::from_profile(profile("rule_cascade", "memory", &["a"])).expect("assemble");
    assert_eq!(router.algorithm_name(), "rule_cascade");
}

struct CountingCoordinator;

impl KvCacheCoordinator for CountingCoordinator {
    fn on_switch(&self, _from: &str, _to: &str) {}
}

#[test]
fn kv_coordinator_is_kept() {
    let router = Router::from_profile(profile("passthrough", "memory", &["a"])).expect("assemble");
    assert!(router.kv_coordinator.is_none());
    let router = router.with_kv_coordinator(Box::new(CountingCoordinator));
    assert!(router.kv_coordinator.is_some());
    assert_eq!(router.algorithm_name(), "passthrough");
}

#[test]
fn router_with_own_algorithm_instance() {
    let router = Router::from_profile_with_algorithm(profile("ignored", "memory", &["x"]), Passthrough)
        .ok()
        .expect("assemble");
    assert_eq!(router.algorithm_name(), "passthrough");
    let err = Router::from_profile_with_algorithm(profile("ignored", "nope", &["x"]), Passthrough)
        .err()
        .expect("error");
    assert_eq!(err, RouterError::Config("unknown state backend: nope".into()));
}

#[test]
fn decision_loop_merges_exclusions() {
    let mut state = MemoryState::new(60_000, 8);
    let req = request("s", "g", &["a"]);
    state.report_at(
        Feedback {
            key: req.routing_key(),
            selected_model_id: "b".into(),
            outcome: Outcome::Unavailable,
            latency_ms: 1,
            cache_valid: None,
        },
        0,
    );
    let catalog = TargetSet::new(vec!["a".into(), "b".into(), "c".into()]);
    let slot = StateSlot::Memory(state);
    let d = run(
        &BuiltinAlgorithm::Passthrough(Passthrough),
        &slot,
        &req,
        &RouteHint::default(),
        &catalog,
        9,
    )
    .expect("route");
    assert_eq!(d.selected_model_id, "c");
}
