//! Training jobs: pull feedback past a watermark, fit, write back with a
//! version check. Only the data flow stands so far: selection yields an
//! empty batch and the artifact is handed back, not published.
use std::sync::Arc;

use vstd::prelude::*;

use crate::evolving::{Artifact, Evolving, TrainingBatch};
use crate::protocol::FeedbackModel;

verus! {

/// Pulls the feedback recorded after a watermark.
#[derive(Clone, Debug)]
pub struct DataSelector {
    pub watermark_key: String,
    pub min_samples: u64,
}

impl DataSelector {
    /// The batch of new feedback; no feedback is pulled yet, so it is empty.
    pub fn select(&self) -> (b: TrainingBatch)
        ensures
            b@ == Seq::<FeedbackModel>::empty(),
    {
        TrainingBatch::empty()
    }
}

/// Where an artifact is written back and which version is expected there.
#[derive(Clone, Debug)]
pub struct PublishPlan {
    pub slot: String,
    pub expected_version: u64,
}

/// One training task: select data, fit, publish.
#[derive(Clone, Debug)]
pub struct TrainingJob {
    pub name: String,
    pub selector: DataSelector,
    pub publish: PublishPlan,
}

impl TrainingJob {
    /// Selects a batch and fits it; the artifact is returned to the caller.
    pub fn run_once<E: Evolving + ?Sized>(&self, evolving: &E) -> (r: Arc<Artifact>)
        ensures
            r@ == evolving.spec_fit(Seq::empty()),
    {
        let batch = self.selector.select();
        evolving.fit(&batch)
    }
}

} // verus!
