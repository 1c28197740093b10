//! The two-stage pipeline run for each example: the build operation must
//! succeed before the dependent operation (emulate or size check) for the
//! same example is attempted. A failed build ends the pipeline with the
//! build failure; the dependent operation is then never handed out.

use vstd::prelude::*;
use crate::operation::Operation;
use crate::outcome::OperationOutcome;

verus! {

/// Where one example's pipeline stands.
#[derive(Debug)]
pub enum PipelineState {
    /// The build operation has not been executed yet.
    NeedBuild,
    /// The build succeeded; the dependent operation may now be executed.
    NeedDependent,
    /// Terminal: the example's final outcome is fixed. No retry, no re-entry.
    Done(OperationOutcome),
}

/// One example's ordered sub-pipeline: a build operation and the dependent
/// operation that may only run after the build succeeded. The driver asks
/// `next_operation` what to execute, executes it, and hands the outcome back
/// through `step`, until the pipeline is done.
#[derive(Debug)]
pub struct ExamplePipeline {
    pub example: String,
    pub build_op: Operation,
    pub dependent_op: Operation,
    pub state: PipelineState,
}

impl ExamplePipeline {
    /// The operation the pipeline hands out next: the build first, the
    /// dependent operation only after a successful build, nothing once done.
    pub open spec fn spec_next_operation(self) -> Option<Operation> {
        match self.state {
            PipelineState::NeedBuild => Some(self.build_op),
            PipelineState::NeedDependent => Some(self.dependent_op),
            PipelineState::Done(_) => None,
        }
    }

    /// The pipeline after one outcome is handed back: a failed build is
    /// terminal with exactly that failure; a successful build unlocks the
    /// dependent stage; the dependent stage's outcome is terminal either way.
    pub open spec fn spec_step(self, outcome: OperationOutcome) -> ExamplePipeline {
        match self.state {
            PipelineState::NeedBuild => if outcome is Success {
                ExamplePipeline { state: PipelineState::NeedDependent, ..self }
            } else {
                ExamplePipeline { state: PipelineState::Done(outcome), ..self }
            },
            _ => ExamplePipeline { state: PipelineState::Done(outcome), ..self },
        }
    }

    /// The example's final outcome, once the pipeline is done.
    pub open spec fn spec_final_outcome(self) -> Option<OperationOutcome> {
        match self.state {
            PipelineState::Done(o) => Some(o),
            _ => None,
        }
    }

    /// A pipeline about to run its build stage.
    pub fn new(example: String, build_op: Operation, dependent_op: Operation) -> (r:
        ExamplePipeline)
        ensures
            r.example == example,
            r.build_op == build_op,
            r.dependent_op == dependent_op,
            r.state is NeedBuild,
    {
        ExamplePipeline { example, build_op, dependent_op, state: PipelineState::NeedBuild }
    }

    /// Executable form of `spec_next_operation`.
    pub fn next_operation(&self) -> (r: Option<&Operation>)
        ensures
            r matches Some(op) ==> self.spec_next_operation() == Some(*op),
            r is None <==> self.spec_next_operation() is None,
    {
        match self.state {
            PipelineState::NeedBuild => Some(&self.build_op),
            PipelineState::NeedDependent => Some(&self.dependent_op),
            PipelineState::Done(_) => None,
        }
    }

    /// Advance the pipeline with the outcome of the operation that
    /// `next_operation` handed out. Terminal states are final: stepping is
    /// only allowed while the pipeline still expects an outcome.
    pub fn step(&mut self, outcome: OperationOutcome)
        requires
            !(old(self).state is Done),
        ensures
            *final(self) == old(self).spec_step(outcome),
    {
        match &self.state {
            PipelineState::NeedBuild => {
                if outcome.is_success() {
                    self.state = PipelineState::NeedDependent;
                } else {
                    self.state = PipelineState::Done(outcome);
                }
            },
            PipelineState::NeedDependent => {
                self.state = PipelineState::Done(outcome);
            },
            PipelineState::Done(_) => {
            },
        }
    }

    /// The example's final outcome, as an executable value; nothing before
    /// the pipeline is done.
    pub fn final_outcome(&self) -> (r: Option<OperationOutcome>)
        ensures
            r == self.spec_final_outcome(),
    {
        match &self.state {
            PipelineState::Done(o) => Some(o.duplicate()),
            _ => None,
        }
    }
}

/// When an example's build step fails, the dependent step is never
/// dispatched — the stepped pipeline hands out no further operation — and
/// the example's final outcome is exactly the build failure. Sibling
/// examples hold pipelines of their own, which this step leaves untouched.
pub proof fn lemma_build_failure_skips_dependent(p: ExamplePipeline, outcome: OperationOutcome)
    requires
        p.state is NeedBuild,
        !(outcome is Success),
    ensures
        p.spec_step(outcome).spec_next_operation() is None,
        p.spec_step(outcome).spec_final_outcome() == Some(outcome),
{
}

/// A successful build dispatches the dependent operation next: the stepped
/// pipeline hands out exactly the dependent operation of the same example.
pub proof fn lemma_build_success_dispatches_dependent(
    p: ExamplePipeline,
    outcome: OperationOutcome,
)
    requires
        p.state is NeedBuild,
        outcome is Success,
    ensures
        p.spec_step(outcome).spec_next_operation() == Some(p.dependent_op),
        p.spec_step(outcome).spec_final_outcome() is None,
{
}

} // verus!
