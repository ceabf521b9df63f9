use openjiuwen_router::binding::{
    check_algorithm_name, check_decision, decision_from_fields, feedback_from_fields,
    parse_outcome, profile_from_fields, request_from_fields, state_view_from_fields,
    to_host_error, HostErrorKind, StateFields,
};
use openjiuwen_router::protocol::{Message, Outcome, RequestMetadata, RouterError, RoutingKey};

#[test]
fn outcomes_are_read_ignoring_case_and_space() {
    assert_eq!(parse_outcome("ok"), Ok(Outcome::Success));
    assert_eq!(parse_outcome("  OK \n"), Ok(Outcome::Success));
    assert_eq!(parse_outcome("Overflow"), Ok(Outcome::Overflow));
    assert_eq!(parse_outcome("UNAVAILABLE"), Ok(Outcome::Unavailable));
    assert_eq!(parse_outcome("rejected\t"), Ok(Outcome::Rejected));
}

#[test]
fn unknown_outcome_is_reported() {
    assert_eq!(
        parse_outcome(" Timeout "),
        Err("unknown outcome: timeout (ok|overflow|unavailable|rejected)".to_string())
    );
    assert_eq!(
        parse_outcome(""),
        Err("unknown outcome:  (ok|overflow|unavailable|rejected)".to_string())
    );
}

#[test]
fn host_errors_by_kind() {
    let (k, m) = to_host_error(&RouterError::Config("unknown state backend: disk".into()));
    assert_eq!(k, HostErrorKind::ValueError);
    assert_eq!(m, "config: unknown state backend: disk");
    let (k, m) = to_host_error(&RouterError::Algorithm("boom".into()));
    assert_eq!(k, HostErrorKind::RuntimeError);
    assert_eq!(m, "algorithm: boom");
    let (k, m) = to_host_error(&RouterError::State("down".into()));
    assert_eq!(k, HostErrorKind::RuntimeError);
    assert_eq!(m, "state: down");
    let (k, m) = to_host_error(&RouterError::NoTarget);
    assert_eq!(k, HostErrorKind::LookupError);
    assert_eq!(m, "no target left after exclusions");
}

#[test]
fn host_decisions_are_checked() {
    assert_eq!(
        check_decision(String::new(), "r".into(), true),
        Err("Decision.selected_model_id must not be empty".to_string())
    );
    assert_eq!(
        check_decision("m".into(), String::new(), true),
        Err("Decision.reasoning must not be empty".to_string())
    );
    let d = check_decision("m".into(), "r".into(), false).expect("valid");
    assert_eq!(d.selected_model_id, "m");
    assert!(!d.is_answer_call);
}

#[test]
fn algorithm_names_must_not_be_blank() {
    assert_eq!(
        check_algorithm_name("  \t".into()),
        Err("Python algorithm name must not be empty".to_string())
    );
    assert_eq!(check_algorithm_name(" cost ".into()), Ok(" cost ".to_string()));
}

#[test]
fn decision_fields_take_defaults() {
    let d = decision_from_fields(None, Some("t".into()), None, None).expect("target");
    assert_eq!(d.selected_model_id, "t");
    assert_eq!(d.reasoning, "");
    assert!(d.is_answer_call);
    let d = decision_from_fields(Some("m".into()), Some("t".into()), Some("r".into()), Some(false))
        .expect("selected");
    assert_eq!(d.selected_model_id, "m");
    assert_eq!(d.reasoning, "r");
    assert!(!d.is_answer_call);
    assert_eq!(
        decision_from_fields(None, None, Some("r".into()), None),
        Err("decision dict needs selected_model_id".to_string())
    );
}

#[test]
fn state_view_fields_take_defaults() {
    let v = state_view_from_fields(None, None, None);
    assert_eq!(v.affinity, None);
    assert!(v.exclusions.is_empty());
    assert_eq!(v.stats.sample_count, 0);
    let v = state_view_from_fields(Some("a".into()), Some(vec!["x".into()]), Some(4));
    assert_eq!(v.affinity, Some("a".to_string()));
    assert_eq!(v.exclusions, vec!["x".to_string()]);
    assert_eq!(v.stats.sample_count, 4);
}

#[test]
fn profile_fields_are_required_in_order() {
    let state = StateFields {
        backend: Some("memory".into()),
        ..StateFields::default()
    };
    assert_eq!(
        profile_from_fields(None, Some(state.clone()), None),
        Err("profile requires algorithm".to_string())
    );
    assert_eq!(
        profile_from_fields(Some("passthrough".into()), None, None),
        Err("profile requires state".to_string())
    );
    assert_eq!(
        profile_from_fields(Some("passthrough".into()), Some(StateFields::default()), None),
        Err("state.backend is required".to_string())
    );
    let p = profile_from_fields(
        Some("passthrough".into()),
        Some(StateFields {
            ttl_secs: Some(9),
            ..state
        }),
        Some(vec!["a".into()]),
    )
    .expect("profile");
    assert_eq!(p.algorithm, "passthrough");
    assert_eq!(p.state.backend, "memory");
    assert_eq!(p.state.ttl_secs, Some(9));
    assert_eq!(p.targets.models, vec!["a".to_string()]);
    assert!(p.evolving.is_empty());
    let p = profile_from_fields(Some("x".into()), Some(StateFields {
        backend: Some("remote".into()),
        ..StateFields::default()
    }), None)
    .expect("profile");
    assert!(p.targets.models.is_empty());
}

#[test]
fn request_fields_prefer_metadata() {
    let meta = RequestMetadata {
        session_id: Some("m".into()),
        agent_id: None,
    };
    let msgs = vec![Message {
        role: "user".into(),
        content: "hi".into(),
    }];
    let r = request_from_fields(msgs.clone(), Some(meta.clone()), Some("top".into()), None, None);
    assert_eq!(r.metadata, meta);
    assert_eq!(r.messages, msgs);
    assert!(r.exclusions.is_empty());
    let r = request_from_fields(Vec::new(), None, Some("s".into()), Some("a".into()), Some(vec!["x".into()]));
    assert_eq!(r.metadata.session_id, Some("s".to_string()));
    assert_eq!(r.metadata.agent_id, Some("a".to_string()));
    assert_eq!(r.exclusions, vec!["x".to_string()]);
}

#[test]
fn feedback_fields_choose_model_and_key() {
    let f = feedback_from_fields(
        Some("explicit".into()),
        Some("decided".into()),
        None,
        Some("s1".into()),
        None,
        " Unavailable ",
        40,
        Some(true),
    )
    .expect("feedback");
    assert_eq!(f.selected_model_id, "explicit");
    assert_eq!(f.key, RoutingKey { session_id: "s1".into(), agent_id: String::new() });
    assert_eq!(f.outcome, Outcome::Unavailable);
    assert_eq!(f.latency_ms, 40);
    assert_eq!(f.cache_valid, Some(true));
    let key = RoutingKey { session_id: "k".into(), agent_id: "g".into() };
    let f = feedback_from_fields(None, Some("decided".into()), Some(key.clone()), Some("ignored".into()), None, "ok", 1, None)
        .expect("feedback");
    assert_eq!(f.selected_model_id, "decided");
    assert_eq!(f.key, key);
    assert_eq!(f.outcome, Outcome::Success);
    assert_eq!(
        feedback_from_fields(None, None, None, None, None, "ok", 1, None),
        Err("decision must expose selected_model_id (ModelSelection, dict, or attribute)".to_string())
    );
    assert_eq!(
        feedback_from_fields(Some("m".into()), None, None, None, None, "late", 1, None),
        Err("unknown outcome: late (ok|overflow|unavailable|rejected)".to_string())
    );
}

#[test]
fn unicode_white_space_is_trimmed() {
    assert_eq!(parse_outcome("\u{3000}\u{a0}rejected\u{2029}"), Ok(Outcome::Rejected));
}
