//! Three-valued test verdicts and the rules that turn raw shim exit codes
//! into verdicts and combine the two sides of a case into one.

use vstd::prelude::*;

verus! {

/// Exit code by which a shim declares that a test configuration does not
/// apply to it.  This is a protocol constant shared with the shims, kept
/// as a named constant rather than a magic literal.
pub const SKIP_STATUS: i32 = 89;

/// Verdict of one side of a test case, or of a whole case.
#[derive(Clone, Copy, Debug, PartialEq, Eq, Structural)]
pub enum TestResult {
    OK,
    Skipped,
    Failed,
}

/// Reading of a raw process exit code: 0 succeeded, the skip sentinel
/// declined to run, and every other code failed, negative codes included.
pub open spec fn classify(status: int) -> TestResult {
    if status == 0 {
        TestResult::OK
    } else if status == SKIP_STATUS as int {
        TestResult::Skipped
    } else {
        TestResult::Failed
    }
}

/// The verdict of a whole case from its two sides: a skip on either side
/// wins even over a failure, otherwise a failure on either side wins, and
/// the case passes only when both sides passed.
pub open spec fn spec_merge(a: TestResult, b: TestResult) -> TestResult {
    match (a, b) {
        (TestResult::Skipped, _) => TestResult::Skipped,
        (_, TestResult::Skipped) => TestResult::Skipped,
        (TestResult::Failed, _) => TestResult::Failed,
        (_, TestResult::Failed) => TestResult::Failed,
        (TestResult::OK, TestResult::OK) => TestResult::OK,
    }
}

impl TestResult {
    /// Classify a raw process exit code.
    pub fn from_status(status: i32) -> (r: TestResult)
        ensures
            r == classify(status as int),
    {
        if status == 0 {
            TestResult::OK
        } else if status == SKIP_STATUS {
            TestResult::Skipped
        } else {
            TestResult::Failed
        }
    }

    /// Combine the verdicts of the two sides of one case.
    pub fn merge(a: TestResult, b: TestResult) -> (r: TestResult)
        ensures
            r == spec_merge(a, b),
    {
        match (a, b) {
            (TestResult::Skipped, _) => TestResult::Skipped,
            (_, TestResult::Skipped) => TestResult::Skipped,
            (TestResult::Failed, _) => TestResult::Failed,
            (_, TestResult::Failed) => TestResult::Failed,
            (TestResult::OK, TestResult::OK) => TestResult::OK,
        }
    }
}

/// A case's verdict does not depend on which side is named first:
/// merging two side verdicts is commutative.
pub proof fn lemma_merge_commutative(a: TestResult, b: TestResult)
    ensures
        spec_merge(a, b) == spec_merge(b, a),
{
}

/// The merge law in full: a skip on either side absorbs everything, a
/// failure absorbs everything but a skip, and a case passes only when
/// both sides passed.
pub proof fn lemma_merge_absorption(a: TestResult)
    ensures
        spec_merge(TestResult::Skipped, a) == TestResult::Skipped,
        spec_merge(a, TestResult::Skipped) == TestResult::Skipped,
        a != TestResult::Skipped ==> spec_merge(TestResult::Failed, a) == TestResult::Failed,
        a != TestResult::Skipped ==> spec_merge(a, TestResult::Failed) == TestResult::Failed,
        spec_merge(TestResult::OK, TestResult::OK) == TestResult::OK,
{
}

} // verus!
