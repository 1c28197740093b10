//! Aggregating the outcomes of a fan-out into one batch verdict.

use vstd::prelude::*;
use crate::outcome::OperationOutcome;
use crate::pipeline::ExamplePipeline;

verus! {

/// One unit's identifier (example or package name) with its outcome.
#[derive(Debug)]
pub struct BatchEntry {
    pub id: String,
    pub outcome: OperationOutcome,
}

/// The collected outcomes of one batch, in the order of the submitted work
/// set, together with everything needed for the final verdict. Assembled
/// only after every submitted unit has returned.
#[derive(Debug)]
pub struct BatchResult {
    pub entries: Vec<BatchEntry>,
}

/// Whether every entry of a batch reports success.
pub open spec fn spec_all_success(entries: Seq<BatchEntry>) -> bool {
    forall|i: int| 0 <= i < entries.len() ==> entries[i].outcome is Success
}

/// An entry that did not succeed.
pub open spec fn spec_is_failing(e: BatchEntry) -> bool {
    !(e.outcome is Success)
}

impl BatchEntry {
    /// An equal entry as a fresh value.
    pub fn duplicate(&self) -> (r: BatchEntry)
        ensures
            r == *self,
    {
        BatchEntry { id: self.id.clone(), outcome: self.outcome.duplicate() }
    }
}

/// The batch entries determined by a work set and its outcomes: the
/// identifiers in the work set's order, each paired with its outcome.
pub open spec fn spec_batch(names: Seq<String>, outcomes: Seq<OperationOutcome>) -> Seq<
    BatchEntry,
> {
    Seq::new(names.len(), |i: int| BatchEntry { id: names[i], outcome: outcomes[i] })
}

/// Pair each unit's identifier with its outcome, in the work set's order.
/// The batch has exactly one entry per submitted unit and is a pure function
/// of the two lists — regardless of the order in which the units finished.
pub fn batch_from(names: Vec<String>, outcomes: Vec<OperationOutcome>) -> (r: BatchResult)
    requires
        names@.len() == outcomes@.len(),
    ensures
        r.entries@.len() == names@.len(),
        r.entries@ == spec_batch(names@, outcomes@),
{
    let ghost names_seq = names@;
    let ghost outcomes_seq = outcomes@;
    let mut entries: Vec<BatchEntry> = Vec::new();
    let n = names.len();
    let mut i: usize = 0;
    while i < n
        invariant
            names@ == names_seq,
            outcomes@ == outcomes_seq,
            names_seq.len() == outcomes_seq.len(),
            n == names_seq.len(),
            0 <= i <= n,
            entries@.len() == i,
            forall|j: int|
                0 <= j < i ==> entries@[j].id == names_seq[j] && entries@[j].outcome
                    == outcomes_seq[j],
        decreases n - i,
    {
        let id = names[i].clone();
        let outcome = outcomes[i].duplicate();
        entries.push(BatchEntry { id, outcome });
        i = i + 1;
    }
    proof {
        assert(entries@ =~= spec_batch(names_seq, outcomes_seq));
    }
    BatchResult { entries }
}

/// Two fan-out runs over the same work set whose units produced the same
/// outcomes yield identical batches: the collected result never depends on
/// scheduling.
pub proof fn lemma_batch_deterministic(
    names1: Seq<String>,
    outcomes1: Seq<OperationOutcome>,
    names2: Seq<String>,
    outcomes2: Seq<OperationOutcome>,
)
    requires
        names1 == names2,
        outcomes1 == outcomes2,
    ensures
        spec_batch(names1, outcomes1) == spec_batch(names2, outcomes2),
{
}

/// Collect a batch from a fan-out's finished pipelines: exactly one entry
/// per submitted example, in the work set's order, each carrying that
/// example's terminal outcome. The batch depends only on the pipelines'
/// final states, never on the order in which they finished.
pub fn collect_finished(pipelines: &Vec<ExamplePipeline>) -> (r: BatchResult)
    requires
        forall|i: int| 0 <= i < pipelines@.len() ==> pipelines@[i].state is Done,
    ensures
        r.entries@.len() == pipelines@.len(),
        forall|i: int|
            0 <= i < r.entries@.len() ==> r.entries@[i].id == pipelines@[i].example && Some(
                r.entries@[i].outcome,
            ) == pipelines@[i].spec_final_outcome(),
{
    let mut entries: Vec<BatchEntry> = Vec::new();
    let mut i: usize = 0;
    while i < pipelines.len()
        invariant
            forall|k: int| 0 <= k < pipelines@.len() ==> pipelines@[k].state is Done,
            0 <= i <= pipelines@.len(),
            entries@.len() == i,
            forall|j: int|
                0 <= j < i ==> entries@[j].id == pipelines@[j].example && Some(entries@[j].outcome)
                    == pipelines@[j].spec_final_outcome(),
        decreases pipelines@.len() - i,
    {
        let p = &pipelines[i];
        let outcome = match p.final_outcome() {
            Some(o) => o,
            None => {
                proof {
                    assert(pipelines@[i as int].state is Done);
                }
                unreached()
            },
        };
        entries.push(BatchEntry { id: p.example.clone(), outcome });
        i = i + 1;
    }
    BatchResult { entries }
}

impl BatchResult {
    /// Whether the whole batch succeeded: true exactly when every collected
    /// outcome is a success.
    pub fn overall_success(&self) -> (r: bool)
        ensures
            r == spec_all_success(self.entries@),
    {
        let mut i: usize = 0;
        while i < self.entries.len()
            invariant
                0 <= i <= self.entries@.len(),
                forall|j: int| 0 <= j < i ==> self.entries@[j].outcome is Success,
            decreases self.entries@.len() - i,
        {
            if !self.entries[i].outcome.is_success() {
                return false;
            }
            i = i + 1;
        }
        true
    }

    /// Every failing entry, in order, with its identifier and cause. No
    /// failure is suppressed: the report is exactly the failing subsequence
    /// of the batch.
    pub fn failures(&self) -> (r: Vec<BatchEntry>)
        ensures
            r@ == self.entries@.filter(|e: BatchEntry| spec_is_failing(e)),
    {
        let ghost pred = |e: BatchEntry| spec_is_failing(e);
        let mut r: Vec<BatchEntry> = Vec::new();
        let mut i: usize = 0;
        proof {
            reveal(Seq::filter);
            assert(self.entries@.take(0).filter(pred) =~= Seq::<BatchEntry>::empty());
        }
        while i < self.entries.len()
            invariant
                0 <= i <= self.entries@.len(),
                r@ == self.entries@.take(i as int).filter(|e: BatchEntry| spec_is_failing(e)),
            decreases self.entries@.len() - i,
        {
            let ghost prefix = self.entries@.take(i as int);
            if !self.entries[i].outcome.is_success() {
                r.push(self.entries[i].duplicate());
            }
            proof {
                reveal(Seq::filter);
                let longer = self.entries@.take(i + 1 as int);
                assert(longer.drop_last() =~= prefix);
                assert(longer.last() == self.entries@[i as int]);
            }
            i = i + 1;
        }
        proof {
            assert(self.entries@.take(self.entries@.len() as int) =~= self.entries@);
        }
        r
    }
}

/// The final verdict of a batch: the exit status is success exactly when
/// every outcome is a success, and the report enumerates every failing unit
/// with its identifier and cause — never fewer.
pub fn finalize(b: &BatchResult) -> (r: (bool, Vec<BatchEntry>))
    ensures
        r.0 == spec_all_success(b.entries@),
        r.1@ == b.entries@.filter(|e: BatchEntry| spec_is_failing(e)),
{
    (b.overall_success(), b.failures())
}

/// A batch succeeds exactly when its failure report is empty: the verdict
/// and the report of `finalize` can never contradict each other.
pub proof fn lemma_finalize_consistent(b: BatchResult)
    ensures
        spec_all_success(b.entries@) <==> b.entries@.filter(
            |e: BatchEntry| spec_is_failing(e),
        ).len() == 0,
{
    lemma_filter_empty_iff_all_success(b.entries@);
}

/// A batch's failing subsequence is empty exactly when every entry succeeds.
proof fn lemma_filter_empty_iff_all_success(entries: Seq<BatchEntry>)
    ensures
        spec_all_success(entries) <==> entries.filter(|e: BatchEntry| spec_is_failing(e)).len()
            == 0,
    decreases entries.len(),
{
    reveal(Seq::filter);
    let pred = |e: BatchEntry| spec_is_failing(e);
    if entries.len() == 0 {
    } else {
        lemma_filter_empty_iff_all_success(entries.drop_last());
        assert(spec_all_success(entries) ==> spec_all_success(entries.drop_last()));
        if spec_all_success(entries.drop_last()) && !pred(entries.last()) {
            assert(spec_all_success(entries)) by {
                assert(forall|i: int|
                    0 <= i < entries.len() - 1 ==> entries[i] == entries.drop_last()[i]);
            }
        }
    }
}

} // verus!
