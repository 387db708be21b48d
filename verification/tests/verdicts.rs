use tls_interop::test_result::{TestResult, SKIP_STATUS};
use tls_interop::test_result::TestResult::{Failed, Skipped, OK};

#[test]
fn classify_zero_is_ok() {
    assert_eq!(TestResult::from_status(0), TestResult::OK);
}

#[test]
fn classify_skip_sentinel() {
    assert_eq!(SKIP_STATUS, 89);
    assert_eq!(TestResult::from_status(89), TestResult::Skipped);
}

#[test]
fn classify_other_codes_fail() {
    assert_eq!(TestResult::from_status(1), TestResult::Failed);
    assert_eq!(TestResult::from_status(2), TestResult::Failed);
    assert_eq!(TestResult::from_status(88), TestResult::Failed);
    assert_eq!(TestResult::from_status(90), TestResult::Failed);
    assert_eq!(TestResult::from_status(255), TestResult::Failed);
    assert_eq!(TestResult::from_status(-1), TestResult::Failed);
    assert_eq!(TestResult::from_status(i32::MIN), TestResult::Failed);
    assert_eq!(TestResult::from_status(i32::MAX), TestResult::Failed);
}

#[test]
fn merge_table() {
    assert_eq!(TestResult::merge(Skipped, OK), Skipped);
    assert_eq!(TestResult::merge(OK, Skipped), Skipped);
    assert_eq!(TestResult::merge(Skipped, Failed), Skipped);
    assert_eq!(TestResult::merge(Failed, Skipped), Skipped);
    assert_eq!(TestResult::merge(Skipped, Skipped), Skipped);
    assert_eq!(TestResult::merge(Failed, OK), Failed);
    assert_eq!(TestResult::merge(OK, Failed), Failed);
    assert_eq!(TestResult::merge(Failed, Failed), Failed);
    assert_eq!(TestResult::merge(OK, OK), OK);
}

#[test]
fn merge_commutative_on_all_pairs() {
    let all = [OK, Skipped, Failed];
    for a in all {
        for b in all {
            assert_eq!(TestResult::merge(a, b), TestResult::merge(b, a));
        }
    }
}
