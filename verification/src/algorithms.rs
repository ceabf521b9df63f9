//! Routing algorithms: the contract every algorithm meets, and the built-in
//! algorithms, which all choose the first target that is still allowed.
use vstd::prelude::*;

use crate::protocol::{
    decision_result, without_models, Decision, DecisionModel, ErrorModel, RequestModel,
    RouteRequest, RouterError, SnapshotModel, StateView, TargetSet,
};

verus! {

/// The read-only context handed to an algorithm: the targets that are
/// left after exclusions, the state snapshot, and the seed of this call.
#[derive(Clone, Debug)]
pub struct RouteContext {
    pub targets: TargetSet,
    pub view: StateView,
    pub seed: u64,
}

pub struct ContextModel {
    pub targets: Seq<Seq<char>>,
    pub view: SnapshotModel,
    pub seed: u64,
}

impl View for RouteContext {
    type V = ContextModel;

    open spec fn view(&self) -> ContextModel {
        ContextModel { targets: self.targets@, view: self.view@, seed: self.seed }
    }
}

/// The one entry point of an algorithm team. An algorithm is a pure
/// function: the same request and context give the same decision.
pub trait Algorithm: Send + Sync {
    /// The stable, low-cardinality name of the algorithm. An implementation
    /// that does not give it has one fixed name, the same for every value, of
    /// which nothing is known: host-side algorithms, written outside Verus,
    /// leave it so.
    open spec fn spec_name(&self) -> Seq<char> {
        arbitrary()
    }

    /// The decision the algorithm takes on a request in a context. An
    /// implementation that does not give it has one fixed result, the same for
    /// every input, of which nothing is known: host-side algorithms, written
    /// outside Verus, leave it so, and nothing proved holds of them.
    open spec fn spec_decide(&self, request: RequestModel, ctx: ContextModel) -> Result<
        DecisionModel,
        ErrorModel,
    > {
        arbitrary()
    }

    fn name(&self) -> (r: &str)
        ensures
            r@ == self.spec_name(),
    ;

    /// One decision step: reads the request and the snapshot, returns the choice.
    fn decide(&self, request: &RouteRequest, ctx: &RouteContext) -> (r: Result<
        Decision,
        RouterError,
    >)
        ensures
            decision_result(r) == self.spec_decide(request@, ctx@),
    ;
}

/// Whether the algorithm only ever chooses a model that the context offers.
pub open spec fn chooses_offered<A: Algorithm + ?Sized>(a: &A) -> bool {
    forall|request: RequestModel, ctx: ContextModel|
        #![trigger a.spec_decide(request, ctx)]
        a.spec_decide(request, ctx) is Ok ==> ctx.targets.contains(
            a.spec_decide(request, ctx)->Ok_0.selected_model_id,
        )
}

/// The targets of the context that the request itself does not exclude.
pub open spec fn allowed_targets(request: RequestModel, ctx: ContextModel) -> Seq<Seq<char>> {
    without_models(ctx.targets, request.exclusions)
}

/// Answer with the first allowed target, or fail when none is left.
pub open spec fn first_target_decision(
    request: RequestModel,
    ctx: ContextModel,
    reasoning: Seq<char>,
) -> Result<DecisionModel, ErrorModel> {
    let allowed = allowed_targets(request, ctx);
    if allowed.len() == 0 {
        Err(ErrorModel::NoTarget)
    } else {
        Ok(DecisionModel { selected_model_id: allowed[0], reasoning, is_answer_call: true })
    }
}

/// Every model that survives exclusion was in the catalog.
pub proof fn lemma_without_models_subset(models: Seq<Seq<char>>, excluded: Seq<Seq<char>>)
    ensures
        forall|m: Seq<char>| #[trigger]
            without_models(models, excluded).contains(m) <==> (models.contains(m)
                && !excluded.contains(m)),
    decreases models.len(),
{
    if models.len() > 0 {
        let init = models.drop_last();
        lemma_without_models_subset(init, excluded);
        assert forall|m: Seq<char>| #[trigger]
            without_models(models, excluded).contains(m) <==> (models.contains(m)
                && !excluded.contains(m)) by {
            let rest = without_models(init, excluded);
            if models.contains(m) {
                let k = choose|k: int| 0 <= k < models.len() && models[k] == m;
                if k < models.len() - 1 {
                    assert(init[k] == m);
                }
            }
            if init.contains(m) {
                let k = choose|k: int| 0 <= k < init.len() && init[k] == m;
                assert(models[k] == m);
            }
            if !excluded.contains(models.last()) {
                assert(rest.push(models.last()).contains(m) <==> (rest.contains(m) || m
                    == models.last())) by {
                    if rest.push(models.last()).contains(m) {
                        let k = choose|k: int|
                            0 <= k < rest.push(models.last()).len() && rest.push(
                                models.last(),
                            )[k] == m;
                        if k < rest.len() {
                            assert(rest[k] == m);
                        }
                    }
                    if rest.contains(m) {
                        let k = choose|k: int| 0 <= k < rest.len() && rest[k] == m;
                        assert(rest.push(models.last())[k] == m);
                    }
                    assert(rest.push(models.last())[rest.len() as int] == models.last());
                }
            }
            assert(models[models.len() - 1] == models.last());
        }
    }
}

/// Decides the first allowed target with the given reasoning.
pub fn decide_first_target(request: &RouteRequest, ctx: &RouteContext, reasoning: &str) -> (r:
    Result<Decision, RouterError>)
    ensures
        decision_result(r) == first_target_decision(request@, ctx@, reasoning@),
{
    let available = ctx.targets.without(&request.exclusions);
    match available.first() {
        Some(model) => Ok(Decision::answer(model.clone(), String::from_str(reasoning))),
        None => Err(RouterError::NoTarget),
    }
}

/// Every first-target decision names a model of the context.
pub proof fn lemma_first_target_offered(
    request: RequestModel,
    ctx: ContextModel,
    reasoning: Seq<char>,
)
    ensures
        first_target_decision(request, ctx, reasoning) is Ok ==> ctx.targets.contains(
            first_target_decision(request, ctx, reasoning)->Ok_0.selected_model_id,
        ),
{
    lemma_without_models_subset(ctx.targets, request.exclusions);
    let allowed = allowed_targets(request, ctx);
    if allowed.len() > 0 {
        assert(allowed.contains(allowed[0]));
    }
}

/// Passes the request through to the first target that is left.
#[derive(Clone, Copy, Debug, Default)]
pub struct Passthrough;

/// Signal-driven routing; for now it falls back to the first target.
#[derive(Clone, Copy, Debug, Default)]
pub struct Signal;

/// Weighted choice; until weights are injected it falls back to the first target.
#[derive(Clone, Copy, Debug, Default)]
pub struct Weighted;

/// Rule cascade; for now it falls back to the first target.
#[derive(Clone, Copy, Debug, Default)]
pub struct RuleCascade;

/// Ensemble of algorithms; for now it falls back to the first target.
#[derive(Clone, Copy, Debug, Default)]
pub struct Ensemble;

impl Algorithm for Passthrough {
    open spec fn spec_name(&self) -> Seq<char> {
        "passthrough"@
    }

    open spec fn spec_decide(&self, request: RequestModel, ctx: ContextModel) -> Result<
        DecisionModel,
        ErrorModel,
    > {
        first_target_decision(request, ctx, "passthrough: first available target"@)
    }

    fn name(&self) -> (r: &str) {
        "passthrough"
    }

    fn decide(&self, request: &RouteRequest, ctx: &RouteContext) -> (r: Result<
        Decision,
        RouterError,
    >) {
        decide_first_target(request, ctx, "passthrough: first available target")
    }
}

impl Algorithm for Signal {
    open spec fn spec_name(&self) -> Seq<char> {
        "signal"@
    }

    open spec fn spec_decide(&self, request: RequestModel, ctx: ContextModel) -> Result<
        DecisionModel,
        ErrorModel,
    > {
        first_target_decision(request, ctx, "signal: stub, falls back to first target"@)
    }

    fn name(&self) -> (r: &str) {
        "signal"
    }

    fn decide(&self, request: &RouteRequest, ctx: &RouteContext) -> (r: Result<
        Decision,
        RouterError,
    >) {
        decide_first_target(request, ctx, "signal: stub, falls back to first target")
    }
}

impl Algorithm for Weighted {
    open spec fn spec_name(&self) -> Seq<char> {
        "weighted"@
    }

    open spec fn spec_decide(&self, request: RequestModel, ctx: ContextModel) -> Result<
        DecisionModel,
        ErrorModel,
    > {
        first_target_decision(request, ctx, "weighted: stub, falls back to first target"@)
    }

    fn name(&self) -> (r: &str) {
        "weighted"
    }

    fn decide(&self, request: &RouteRequest, ctx: &RouteContext) -> (r: Result<
        Decision,
        RouterError,
    >) {
        decide_first_target(request, ctx, "weighted: stub, falls back to first target")
    }
}

impl Algorithm for RuleCascade {
    open spec fn spec_name(&self) -> Seq<char> {
        "rule_cascade"@
    }

    open spec fn spec_decide(&self, request: RequestModel, ctx: ContextModel) -> Result<
        DecisionModel,
        ErrorModel,
    > {
        first_target_decision(request, ctx, "rule_cascade: stub, falls back to first target"@)
    }

    fn name(&self) -> (r: &str) {
        "rule_cascade"
    }

    fn decide(&self, request: &RouteRequest, ctx: &RouteContext) -> (r: Result<
        Decision,
        RouterError,
    >) {
        decide_first_target(request, ctx, "rule_cascade: stub, falls back to first target")
    }
}

impl Algorithm for Ensemble {
    open spec fn spec_name(&self) -> Seq<char> {
        "ensemble"@
    }

    open spec fn spec_decide(&self, request: RequestModel, ctx: ContextModel) -> Result<
        DecisionModel,
        ErrorModel,
    > {
        first_target_decision(request, ctx, "ensemble: stub, falls back to first target"@)
    }

    fn name(&self) -> (r: &str) {
        "ensemble"
    }

    fn decide(&self, request: &RouteRequest, ctx: &RouteContext) -> (r: Result<
        Decision,
        RouterError,
    >) {
        decide_first_target(request, ctx, "ensemble: stub, falls back to first target")
    }
}

/// The built-in algorithms, one of which a profile selects by name.
#[derive(Clone, Copy, Debug)]
pub enum BuiltinAlgorithm {
    Passthrough(Passthrough),
    Weighted(Weighted),
    RuleCascade(RuleCascade),
    Signal(Signal),
    Ensemble(Ensemble),
}

impl BuiltinAlgorithm {
    /// The reasoning the algorithm gives with its choice.
    pub open spec fn reasoning(self) -> Seq<char> {
        match self {
            BuiltinAlgorithm::Passthrough(_) => "passthrough: first available target"@,
            BuiltinAlgorithm::Weighted(_) => "weighted: stub, falls back to first target"@,
            BuiltinAlgorithm::RuleCascade(_) => "rule_cascade: stub, falls back to first target"@,
            BuiltinAlgorithm::Signal(_) => "signal: stub, falls back to first target"@,
            BuiltinAlgorithm::Ensemble(_) => "ensemble: stub, falls back to first target"@,
        }
    }
}

impl Algorithm for BuiltinAlgorithm {
    open spec fn spec_name(&self) -> Seq<char> {
        match self {
            BuiltinAlgorithm::Passthrough(a) => a.spec_name(),
            BuiltinAlgorithm::Weighted(a) => a.spec_name(),
            BuiltinAlgorithm::RuleCascade(a) => a.spec_name(),
            BuiltinAlgorithm::Signal(a) => a.spec_name(),
            BuiltinAlgorithm::Ensemble(a) => a.spec_name(),
        }
    }

    open spec fn spec_decide(&self, request: RequestModel, ctx: ContextModel) -> Result<
        DecisionModel,
        ErrorModel,
    > {
        first_target_decision(request, ctx, self.reasoning())
    }

    fn name(&self) -> (r: &str) {
        match self {
            BuiltinAlgorithm::Passthrough(a) => a.name(),
            BuiltinAlgorithm::Weighted(a) => a.name(),
            BuiltinAlgorithm::RuleCascade(a) => a.name(),
            BuiltinAlgorithm::Signal(a) => a.name(),
            BuiltinAlgorithm::Ensemble(a) => a.name(),
        }
    }

    fn decide(&self, request: &RouteRequest, ctx: &RouteContext) -> (r: Result<
        Decision,
        RouterError,
    >) {
        match self {
            BuiltinAlgorithm::Passthrough(a) => a.decide(request, ctx),
            BuiltinAlgorithm::Weighted(a) => a.decide(request, ctx),
            BuiltinAlgorithm::RuleCascade(a) => a.decide(request, ctx),
            BuiltinAlgorithm::Signal(a) => a.decide(request, ctx),
            BuiltinAlgorithm::Ensemble(a) => a.decide(request, ctx),
        }
    }
}

/// Every built-in algorithm only chooses offered targets.
pub proof fn lemma_builtin_chooses_offered(a: BuiltinAlgorithm)
    ensures
        chooses_offered(&a),
{
    assert forall|request: RequestModel, ctx: ContextModel|
        #![trigger a.spec_decide(request, ctx)]
        a.spec_decide(request, ctx) is Ok implies ctx.targets.contains(
            a.spec_decide(request, ctx)->Ok_0.selected_model_id,
        ) by {
        lemma_first_target_offered(request, ctx, a.reasoning());
    }
}

} // verus!
