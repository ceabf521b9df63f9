use openjiuwen_router::algorithms::{
    Algorithm, BuiltinAlgorithm, Ensemble, Passthrough, RouteContext, RuleCascade, Signal, Weighted,
};
use openjiuwen_router::evolving::{Evolving, MfWeights, TrainingBatch};
use openjiuwen_router::protocol::{Feedback, RouteRequest, RouterError, RoutingKey, StateView, TargetSet};
use openjiuwen_router::training::{DataSelector, PublishPlan, TrainingJob};

fn ctx(models: &[&str]) -> RouteContext {
    RouteContext {
        targets: TargetSet::new(models.iter().map(|s| s.to_string()).collect()),
        view: StateView::empty(),
        seed: 7,
    }
}

fn req(exclusions: &[&str]) -> RouteRequest {
    RouteRequest {
        exclusions: exclusions.iter().map(|s| s.to_string()).collect(),
        ..RouteRequest::default()
    }
}

#[test]
fn builtins_pick_first_allowed_target() {
    let cases: Vec<(Box<dyn Algorithm>, &str, &str)> = vec![
        (Box::new(Passthrough), "passthrough", "passthrough: first available target"),
        (Box::new(Signal), "signal", "signal: stub, falls back to first target"),
        (Box::new(Weighted), "weighted", "weighted: stub, falls back to first target"),
        (Box::new(RuleCascade), "rule_cascade", "rule_cascade: stub, falls back to first target"),
        (Box::new(Ensemble), "ensemble", "ensemble: stub, falls back to first target"),
    ];
    for (alg, name, reasoning) in cases {
        assert_eq!(alg.name(), name);
        let d = alg.decide(&req(&["x"]), &ctx(&["x", "y"])).expect("decide");
        assert_eq!(d.selected_model_id, "y");
        assert_eq!(d.reasoning, reasoning);
        assert!(d.is_answer_call);
        assert_eq!(alg.decide(&req(&["x"]), &ctx(&["x"])), Err(RouterError::NoTarget));
    }
}

#[test]
fn builtin_enum_dispatches() {
    let a = BuiltinAlgorithm::Weighted(Weighted);
    assert_eq!(a.name(), "weighted");
    let d = a.decide(&req(&[]), &ctx(&["m"])).expect("decide");
    assert_eq!(d.selected_model_id, "m");
    // Pure: the same input gives the same decision.
    assert_eq!(a.decide(&req(&[]), &ctx(&["m"])), Ok(d));
}

#[test]
fn mf_weights_yields_empty_artifact() {
    let batch = TrainingBatch {
        feedbacks: vec![Feedback::ok(RoutingKey::default(), "m".into(), 1)],
    };
    let a = MfWeights.fit(&batch);
    assert_eq!(a.kind, "MfWeights");
    assert!(a.payload.is_empty());
    assert_eq!(MfWeights.name(), "mf-weights");
}

#[test]
fn training_job_fits_an_empty_batch() {
    let selector = DataSelector {
        watermark_key: "wm".into(),
        min_samples: 10,
    };
    assert!(selector.select().feedbacks.is_empty());
    let job = TrainingJob {
        name: "mf".into(),
        selector,
        publish: PublishPlan {
            slot: "weights".into(),
            expected_version: 3,
        },
    };
    let artifact = job.run_once(&MfWeights);
    assert_eq!(artifact.kind, "MfWeights");
}
