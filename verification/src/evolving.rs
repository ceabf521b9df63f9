//! Online self-evolution: pure recomputation of an algorithm's parameters
//! from a batch of feedback. Pulling data, scheduling and write-back are the
//! training job's business.
use std::sync::Arc;

use vstd::prelude::*;

use crate::protocol::{Feedback, FeedbackModel};

verus! {

/// The feedback pulled from state since the last watermark.
#[derive(Clone, Debug, Default)]
pub struct TrainingBatch {
    pub feedbacks: Vec<Feedback>,
}

impl View for TrainingBatch {
    type V = Seq<FeedbackModel>;

    open spec fn view(&self) -> Seq<FeedbackModel> {
        self.feedbacks@.map_values(|f: Feedback| f@)
    }
}

impl TrainingBatch {
    /// The batch without feedback.
    pub fn empty() -> (b: TrainingBatch)
        ensures
            b@ == Seq::<FeedbackModel>::empty(),
    {
        let b = TrainingBatch { feedbacks: Vec::new() };
        assert(b@ =~= Seq::<FeedbackModel>::empty());
        b
    }
}

/// An immutable snapshot of new parameters; versions may coexist.
#[derive(Clone, Debug)]
pub struct Artifact {
    pub kind: String,
    pub payload: Vec<u8>,
}

pub struct ArtifactModel {
    pub kind: Seq<char>,
    pub payload: Seq<u8>,
}

impl View for Artifact {
    type V = ArtifactModel;

    open spec fn view(&self) -> ArtifactModel {
        ArtifactModel { kind: self.kind@, payload: self.payload@ }
    }
}

/// The one entry point of self-evolution: one pure step of recomputation.
/// The same batch gives the same artifact; no I/O is allowed.
pub trait Evolving: Send + Sync {
    /// The stable name of the evolving algorithm.
    spec fn spec_name(&self) -> Seq<char>;

    /// The artifact that fitting a batch yields.
    spec fn spec_fit(&self, batch: Seq<FeedbackModel>) -> ArtifactModel;

    fn name(&self) -> (r: &str)
        ensures
            r@ == self.spec_name(),
    ;

    fn fit(&self, batch: &TrainingBatch) -> (r: Arc<Artifact>)
        ensures
            r@ == self.spec_fit(batch@),
    ;
}

/// Matrix-factorisation weights; for now it yields an empty artifact.
#[derive(Clone, Copy, Debug, Default)]
pub struct MfWeights;

impl Evolving for MfWeights {
    open spec fn spec_name(&self) -> Seq<char> {
        "mf-weights"@
    }

    open spec fn spec_fit(&self, batch: Seq<FeedbackModel>) -> ArtifactModel {
        ArtifactModel { kind: "MfWeights"@, payload: Seq::empty() }
    }

    fn name(&self) -> (r: &str) {
        "mf-weights"
    }

    fn fit(&self, batch: &TrainingBatch) -> (r: Arc<Artifact>) {
        let a = Artifact { kind: String::from_str("MfWeights"), payload: Vec::new() };
        Arc::new(a)
    }
}

} // verus!
