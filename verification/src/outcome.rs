//! Classifying the result of one executed operation.

use vstd::prelude::*;
use crate::operation::Operation;

verus! {

/// The result of executing one operation. Failures are data, never control
/// flow: they carry the cause and propagate only as entries in a batch.
#[derive(Debug)]
pub enum OperationOutcome {
    /// The invocation succeeded (and, for an emulate operation, its output
    /// matched the stored baseline or the baseline was rewritten).
    Success,
    /// The external tool exited nonzero; the captured error text is kept.
    ToolFailure { exit_code: i32, stderr: String },
    /// An emulate operation's captured output differed from the stored
    /// baseline (or no baseline was stored).
    MismatchFailure { expected: Option<String>, actual: String },
}

impl OperationOutcome {
    /// Whether this outcome reports success.
    pub open spec fn spec_is_success(self) -> bool {
        self is Success
    }

    /// Executable form of `spec_is_success`.
    pub fn is_success(&self) -> (r: bool)
        ensures
            r == self.spec_is_success(),
    {
        match self {
            OperationOutcome::Success => true,
            _ => false,
        }
    }

    /// An equal outcome as a fresh value.
    pub fn duplicate(&self) -> (r: OperationOutcome)
        ensures
            r == *self,
    {
        match self {
            OperationOutcome::Success => OperationOutcome::Success,
            OperationOutcome::ToolFailure { exit_code, stderr } => OperationOutcome::ToolFailure {
                exit_code: *exit_code,
                stderr: stderr.clone(),
            },
            OperationOutcome::MismatchFailure { expected, actual } => {
                let e = match expected {
                    None => None,
                    Some(s) => Some(s.clone()),
                };
                OperationOutcome::MismatchFailure { expected: e, actual: actual.clone() }
            },
        }
    }
}

/// Judge an emulate operation that exited cleanly: compare the captured
/// output against the stored baseline, or rewrite the baseline. Returns the
/// outcome and, when the baseline must be replaced, the exact bytes to store.
///
/// Under `overwrite` the baseline is replaced with the captured output
/// unconditionally and the outcome is success. Otherwise the captured output
/// must equal the stored baseline exactly; a missing or differing baseline is
/// a mismatch failure, and nothing is written.
pub fn emulate_outcome(captured: String, baseline: Option<String>, overwrite: bool) -> (r: (
    OperationOutcome,
    Option<String>,
))
    ensures
        overwrite ==> r.0 is Success && (r.1 matches Some(w) && w@ == captured@),
        !overwrite ==> r.1 is None,
        !overwrite && (baseline matches Some(b) && b@ == captured@) ==> r.0 is Success,
        !overwrite && !(baseline matches Some(b) && b@ == captured@) ==> r.0 == (
        OperationOutcome::MismatchFailure { expected: baseline, actual: captured }),
{
    if overwrite {
        (OperationOutcome::Success, Some(captured))
    } else {
        match baseline {
            Some(b) => {
                if b == captured {
                    (OperationOutcome::Success, None)
                } else {
                    proof {
                        assert(!(b@ == captured@));
                    }
                    (
                        OperationOutcome::MismatchFailure {
                            expected: Some(b),
                            actual: captured,
                        },
                        None,
                    )
                }
            },
            None => (OperationOutcome::MismatchFailure { expected: None, actual: captured }, None),
        }
    }
}

/// Classify one finished invocation. The caller hands in whatever the
/// external process produced — exit code, captured standard output and error
/// — together with the stored baseline for emulate operations; the decision
/// here is total over every possible combination.
///
/// Non-emulate operations are judged by exit status alone. An emulate
/// operation that exited cleanly is judged by `emulate_outcome`; the second
/// component names the baseline content to persist, and is `Some` only for a
/// clean emulate run under `overwrite`.
pub fn classify_execution(
    op: &Operation,
    exit_code: i32,
    stdout: String,
    stderr: String,
    baseline: Option<String>,
    overwrite: bool,
) -> (r: (OperationOutcome, Option<String>))
    ensures
        exit_code != 0 ==> r.0 == (OperationOutcome::ToolFailure { exit_code, stderr }) && r.1
            is None,
        !op.spec_is_emulate() ==> r.1 is None,
        !op.spec_is_emulate() && exit_code == 0 ==> r.0 is Success,
        op.spec_is_emulate() && exit_code == 0 && overwrite ==> r.0 is Success && (
        r.1 matches Some(w) && w@ == stdout@),
        op.spec_is_emulate() && exit_code == 0 && !overwrite && (baseline matches Some(b) && b@
            == stdout@) ==> r.0 is Success && r.1 is None,
        op.spec_is_emulate() && exit_code == 0 && !overwrite && !(baseline matches Some(b) && b@
            == stdout@) ==> r.0 == (OperationOutcome::MismatchFailure {
            expected: baseline,
            actual: stdout,
        }) && r.1 is None,
{
    if exit_code != 0 {
        (OperationOutcome::ToolFailure { exit_code, stderr }, None)
    } else if op.is_emulate() {
        emulate_outcome(stdout, baseline, overwrite)
    } else {
        (OperationOutcome::Success, None)
    }
}

} // verus!
