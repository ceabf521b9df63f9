use openjiuwen_router::protocol::{
    contains_string, copy_strings, Decision, Feedback, ModelSelection, Outcome, RequestMetadata,
    RouteRequest, RouterError, RoutingKey, TargetSet,
};

fn strings(v: &[&str]) -> Vec<String> {
    v.iter().map(|s| s.to_string()).collect()
}

#[test]
fn routing_key_defaults_missing_ids_to_empty() {
    let meta = RequestMetadata {
        session_id: Some("s1".into()),
        agent_id: None,
    };
    assert_eq!(
        meta.routing_key(),
        RoutingKey {
            session_id: "s1".into(),
            agent_id: String::new()
        }
    );
    let req = RouteRequest::default();
    assert_eq!(req.routing_key(), RoutingKey::default());
    assert!(meta.routing_key().same_key(&RoutingKey {
        session_id: "s1".into(),
        agent_id: "".into()
    }));
}

#[test]
fn without_keeps_order_and_drops_excluded() {
    let set = TargetSet::new(strings(&["a", "b", "c", "b"]));
    assert_eq!(set.without(&strings(&["b"])).models, strings(&["a", "c"]));
    assert_eq!(set.without(&Vec::new()).models, set.models);
    assert_eq!(set.without(&strings(&["a", "b", "c"])).len(), 0);
    assert_eq!(set.first(), Some(&"a".to_string()));
    assert_eq!(TargetSet::default().first(), None);
}

#[test]
fn answer_is_an_answer_call() {
    let d = Decision::answer("m".into(), "why".into());
    assert_eq!(d.selected_model_id, "m");
    assert_eq!(d.reasoning, "why");
    assert!(d.is_answer_call);
    let s = ModelSelection::from_decision(&d);
    assert_eq!(s.selected_model_id, "m");
    assert_eq!(s.to_decision(), d);
}

#[test]
fn feedback_ok_is_a_success() {
    let f = Feedback::ok(RoutingKey::default(), "m".into(), 42);
    assert_eq!(f.outcome, Outcome::Success);
    assert_eq!(f.latency_ms, 42);
    assert_eq!(f.cache_valid, None);
    assert_eq!(f.selected_model_id, "m");
}

#[test]
fn outcome_exclusion_kinds() {
    assert!(Outcome::Overflow.excludes());
    assert!(Outcome::Unavailable.excludes());
    assert!(!Outcome::Rejected.excludes());
    assert!(!Outcome::Success.excludes());
}

#[test]
fn error_messages() {
    assert_eq!(RouterError::Config("x".into()).message(), "config: x");
    assert_eq!(RouterError::Algorithm("y".into()).message(), "algorithm: y");
    assert_eq!(RouterError::State("z".into()).message(), "state: z");
    assert_eq!(RouterError::NoTarget.message(), "no target left after exclusions");
}

#[test]
fn string_helpers() {
    let v = strings(&["p", "q"]);
    assert_eq!(copy_strings(&v), v);
    assert!(contains_string(&v, &"q".to_string()));
    assert!(!contains_string(&v, &"r".to_string()));
}
