use tls_interop::cases::{server_args, TestCase, TestCaseAgent, TestConfig};
use tls_interop::results::{u32_string, Results};
use tls_interop::test_result::TestResult;

fn config() -> TestConfig {
    TestConfig {
        client_shim: "./client_shim".to_string(),
        server_shim: "./server_shim".to_string(),
        rootdir: "keys/".to_string(),
    }
}

#[test]
fn server_args_with_defaults() {
    let case = TestCase {
        name: "default".to_string(),
        server_key: None,
        versions: None,
        client: None,
        server: None,
    };
    let args = server_args(&config(), &case);
    assert_eq!(
        args,
        vec![
            "-server".to_string(),
            "-key-file".to_string(),
            "keys/rsa_1024_key.pem".to_string(),
            "-cert-file".to_string(),
            "keys/rsa_1024_cert.pem".to_string(),
            "-write-then-read".to_string(),
        ]
    );
}

#[test]
fn server_args_with_key_and_flags() {
    let case = TestCase {
        name: "custom".to_string(),
        server_key: Some("ecdsa_p256".to_string()),
        versions: Some(vec!["tls1.2".to_string(), "tls1.3".to_string()]),
        client: Some(TestCaseAgent { flags: None }),
        server: Some(TestCaseAgent {
            flags: Some(vec!["-cipher".to_string(), "AES128".to_string()]),
        }),
    };
    let args = server_args(&config(), &case);
    assert_eq!(
        args,
        vec![
            "-server".to_string(),
            "-key-file".to_string(),
            "keys/ecdsa_p256_key.pem".to_string(),
            "-cert-file".to_string(),
            "keys/ecdsa_p256_cert.pem".to_string(),
            "-write-then-read".to_string(),
            "-cipher".to_string(),
            "AES128".to_string(),
        ]
    );
}

#[test]
fn server_args_with_empty_flag_list() {
    let case = TestCase {
        name: "empty-flags".to_string(),
        server_key: None,
        versions: None,
        client: None,
        server: Some(TestCaseAgent { flags: Some(Vec::new()) }),
    };
    let args = server_args(&config(), &case);
    assert_eq!(args.len(), 6);
}

#[test]
fn decimal_rendering() {
    assert_eq!(u32_string(0), "0");
    assert_eq!(u32_string(7), "7");
    assert_eq!(u32_string(10), "10");
    assert_eq!(u32_string(89), "89");
    assert_eq!(u32_string(1024), "1024");
    assert_eq!(u32_string(u32::MAX), "4294967295");
}

#[test]
fn summary_line_fresh() {
    let results = Results::new();
    assert_eq!(results.summary(), "Tests 0; Succeeded 0; Skipped 0, Failed 0");
}

#[test]
fn summary_line_counts_every_bucket() {
    let case = TestCase {
        name: "case".to_string(),
        server_key: None,
        versions: None,
        client: None,
        server: None,
    };
    let mut results = Results::new();
    for verdict in [
        TestResult::OK,
        TestResult::OK,
        TestResult::Skipped,
        TestResult::Failed,
        TestResult::OK,
        TestResult::Failed,
        TestResult::OK,
        TestResult::OK,
        TestResult::OK,
        TestResult::OK,
        TestResult::OK,
        TestResult::OK,
    ] {
        results.update(&case, verdict);
    }
    assert_eq!(results.ran, 12);
    assert_eq!(results.summary(), "Tests 12; Succeeded 9; Skipped 1, Failed 2");
}
