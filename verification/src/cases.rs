//! The test-case catalog records and the harness configuration, and the
//! server command line built from them.
//!
//! The catalog itself is read and parsed by an external loader; the
//! records here are what the harness logic needs of each case.

use vstd::prelude::*;

verus! {

/// Per-role extras of one test case: command-line flags to hand that
/// role's shim on top of the harness-chosen ones.
pub struct TestCaseAgent {
    pub flags: Option<Vec<String>>,
}

/// One record of the test-case catalog.  `versions` is informational and
/// not enforced here.
pub struct TestCase {
    pub name: String,
    pub server_key: Option<String>,
    pub versions: Option<Vec<String>>,
    pub client: Option<TestCaseAgent>,
    pub server: Option<TestCaseAgent>,
}

/// What the harness is pointed at: the two shim executables and the
/// directory that holds the key material.
pub struct TestConfig {
    pub client_shim: String,
    pub server_shim: String,
    pub rootdir: String,
}

/// Basename of the key material a case asks for; a fixed baseline key when
/// the case names none.
pub open spec fn spec_key_base(case: TestCase) -> Seq<char> {
    match case.server_key {
        Option::None => "rsa_1024"@,
        Option::Some(key) => key@,
    }
}

/// The extra server flags a case carries, if any.
pub open spec fn spec_server_flags(case: TestCase) -> Seq<Seq<char>> {
    match case.server {
        Option::None => Seq::empty(),
        Option::Some(role) => match role.flags {
            Option::None => Seq::empty(),
            Option::Some(flags) => flags.deep_view(),
        },
    }
}

/// The extra client flags a case carries, if any.
pub open spec fn spec_client_flags(case: TestCase) -> Seq<Seq<char>> {
    match case.client {
        Option::None => Seq::empty(),
        Option::Some(role) => match role.flags {
            Option::None => Seq::empty(),
            Option::Some(flags) => flags.deep_view(),
        },
    }
}

/// Build the client shim's argument list for one case: just the
/// case-specific client flags, empty by default.
pub fn client_args(case: &TestCase) -> (args: Vec<String>)
    ensures
        args.deep_view() == spec_client_flags(*case),
{
    let mut args: Vec<String> = Vec::new();
    match &case.client {
        Option::None => {},
        Option::Some(role) => match &role.flags {
            Option::None => {},
            Option::Some(flags) => {
                let mut i: usize = 0;
                while i < flags.len()
                    invariant
                        i <= flags.len(),
                        args@.len() == i,
                        forall|k: int| 0 <= k < i ==> #[trigger] args@[k]@ == flags@[k]@,
                    decreases flags.len() - i,
                {
                    args.push(flags[i].clone());
                    i = i + 1;
                }
            },
        },
    }
    assert(args.deep_view() =~~= spec_client_flags(*case));
    args
}

/// The server shim's argument list for one case: the server role flag, the
/// key and certificate files derived from the case's key basename and the
/// root directory, the write-then-read instruction, and then whatever
/// extra server flags the case carries.
pub open spec fn spec_server_args(config: TestConfig, case: TestCase) -> Seq<Seq<char>> {
    seq![
        "-server"@,
        "-key-file"@,
        config.rootdir@ + spec_key_base(case) + "_key.pem"@,
        "-cert-file"@,
        config.rootdir@ + spec_key_base(case) + "_cert.pem"@,
        "-write-then-read"@,
    ] + spec_server_flags(case)
}

/// Build the server shim's argument list for one case.
pub fn server_args(config: &TestConfig, case: &TestCase) -> (args: Vec<String>)
    ensures
        args.deep_view() == spec_server_args(*config, *case),
{
    let mut args: Vec<String> = Vec::new();
    args.push(String::from_str("-server"));
    let key_base: String = match &case.server_key {
        Option::None => String::from_str("rsa_1024"),
        Option::Some(key) => key.clone(),
    };
    args.push(String::from_str("-key-file"));
    args.push(config.rootdir.clone().concat(key_base.as_str()).concat("_key.pem"));
    args.push(String::from_str("-cert-file"));
    args.push(config.rootdir.clone().concat(key_base.as_str()).concat("_cert.pem"));
    args.push(String::from_str("-write-then-read"));
    proof {
        assert(forall|k: int|
            0 <= k < 6 ==> #[trigger] args@[k]@ == spec_server_args(*config, *case)[k]);
    }
    match &case.server {
        Option::None => {},
        Option::Some(role) => match &role.flags {
            Option::None => {},
            Option::Some(flags) => {
                let mut i: usize = 0;
                while i < flags.len()
                    invariant
                        i <= flags.len(),
                        args@.len() == 6 + i,
                        forall|k: int|
                            0 <= k < 6 ==> #[trigger] args@[k]@ == spec_server_args(
                                *config,
                                *case,
                            )[k],
                        forall|k: int| 6 <= k < args@.len() ==> #[trigger] args@[k]@ == flags@[k
                            - 6]@,
                    decreases flags.len() - i,
                {
                    args.push(flags[i].clone());
                    i = i + 1;
                }
            },
        },
    }
    assert(args.deep_view() =~~= spec_server_args(*config, *case));
    args
}

} // verus!
