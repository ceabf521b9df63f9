use openjiuwen_router::protocol::{Feedback, Outcome, RoutingKey, StateView};
use openjiuwen_router::state::{MemoryState, RemoteState, StateProvider};

fn key(s: &str) -> RoutingKey {
    RoutingKey {
        session_id: s.into(),
        agent_id: "agent".into(),
    }
}

fn feedback(k: &str, model: &str, outcome: Outcome) -> Feedback {
    Feedback {
        key: key(k),
        selected_model_id: model.into(),
        outcome,
        latency_ms: 10,
        cache_valid: None,
    }
}

#[test]
fn unknown_key_has_empty_snapshot() {
    let m = MemoryState::new(1000, 4);
    let v = m.snapshot_at(&key("s"), 5);
    assert_eq!(v, StateView::default());
    assert!(m.snapshot(&key("s")).exclusions.is_empty());
}

#[test]
fn exclusion_is_recorded_once() {
    let mut m = MemoryState::new(1000, 4);
    m.report_at(feedback("s", "a", Outcome::Unavailable), 10);
    m.report_at(feedback("s", "a", Outcome::Overflow), 20);
    m.report_at(feedback("s", "b", Outcome::Overflow), 30);
    let v = m.snapshot_at(&key("s"), 40);
    assert_eq!(v.exclusions, vec!["a".to_string(), "b".to_string()]);
    assert_eq!(v.affinity, None);
    assert_eq!(v.stats.sample_count, 3);
    assert_eq!(m.entries.len(), 1);
}

#[test]
fn success_sets_affinity_and_rejection_changes_nothing_else() {
    let mut m = MemoryState::new(1000, 4);
    m.report_at(feedback("s", "a", Outcome::Success), 0);
    m.report_at(feedback("s", "b", Outcome::Rejected), 1);
    let v = m.snapshot_at(&key("s"), 2);
    assert_eq!(v.affinity, Some("a".to_string()));
    assert!(v.exclusions.is_empty());
    assert_eq!(v.stats.sample_count, 2);
}

#[test]
fn entries_expire_after_ttl() {
    let mut m = MemoryState::new(100, 4);
    m.report_at(feedback("s", "a", Outcome::Unavailable), 1000);
    assert_eq!(m.snapshot_at(&key("s"), 1099).exclusions, vec!["a".to_string()]);
    assert_eq!(m.snapshot_at(&key("s"), 1100), StateView::default());
    // A report after expiry starts afresh.
    m.report_at(feedback("s", "b", Outcome::Overflow), 2000);
    assert_eq!(m.snapshot_at(&key("s"), 2001).exclusions, vec!["b".to_string()]);
    assert_eq!(m.snapshot_at(&key("s"), 2001).stats.sample_count, 1);
}

#[test]
fn zero_ttl_keeps_nothing_visible() {
    let mut m = MemoryState::new(0, 4);
    m.report_at(feedback("s", "a", Outcome::Unavailable), 5);
    assert_eq!(m.snapshot_at(&key("s"), 5), StateView::default());
}

#[test]
fn oldest_key_gives_way_when_full() {
    let mut m = MemoryState::new(10_000, 2);
    m.report_at(feedback("k1", "a", Outcome::Unavailable), 1);
    m.report_at(feedback("k2", "a", Outcome::Unavailable), 2);
    m.report_at(feedback("k1", "b", Outcome::Unavailable), 3);
    m.report_at(feedback("k3", "a", Outcome::Unavailable), 4);
    assert_eq!(m.entries.len(), 2);
    assert_eq!(m.snapshot_at(&key("k2"), 5), StateView::default());
    assert_eq!(
        m.snapshot_at(&key("k1"), 5).exclusions,
        vec!["a".to_string(), "b".to_string()]
    );
    assert_eq!(m.snapshot_at(&key("k3"), 5).exclusions, vec!["a".to_string()]);
}

#[test]
fn zero_capacity_remembers_nothing() {
    let mut m = MemoryState::new(10_000, 0);
    m.report_at(feedback("k1", "a", Outcome::Unavailable), 1);
    assert!(m.entries.is_empty());
    assert_eq!(m.snapshot_at(&key("k1"), 2), StateView::default());
}

#[test]
fn report_through_provider_is_visible() {
    let mut m = MemoryState::new(300_000, 16);
    m.report(feedback("s", "a", Outcome::Overflow));
    assert_eq!(m.snapshot(&key("s")).exclusions, vec!["a".to_string()]);
    assert_eq!(m.publish("slot", &[1, 2, 3], 1), Ok(()));
}

#[test]
fn remote_state_degrades_to_empty_view() {
    let mut r = RemoteState::new("grpc://localhost:1".into(), 5);
    r.report(feedback("s", "a", Outcome::Unavailable));
    assert_eq!(r.snapshot(&key("s")), StateView::empty());
    assert_eq!(r.endpoint, "grpc://localhost:1");
    assert_eq!(r.timeout_ms, 5);
}
