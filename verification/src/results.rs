//! Aggregate counters over a run of test cases, and the report line built
//! from them.

use vstd::prelude::*;

use crate::cases::TestCase;
use crate::test_result::TestResult;

verus! {

/// The run's tally: how many cases ran and how each came out.
pub struct Results {
    pub ran: u32,
    pub succeeded: u32,
    pub failed: u32,
    pub skipped: u32,
}

/// The decimal digit characters of `n`, most significant first.
pub open spec fn spec_decimal(n: nat) -> Seq<char>
    decreases n,
{
    if n < 10 {
        seq![spec_digit(n)]
    } else {
        spec_decimal(n / 10).push(spec_digit(n % 10))
    }
}

/// The character of one decimal digit.
pub open spec fn spec_digit(d: nat) -> char {
    if d == 0 {
        '0'
    } else if d == 1 {
        '1'
    } else if d == 2 {
        '2'
    } else if d == 3 {
        '3'
    } else if d == 4 {
        '4'
    } else if d == 5 {
        '5'
    } else if d == 6 {
        '6'
    } else if d == 7 {
        '7'
    } else if d == 8 {
        '8'
    } else {
        '9'
    }
}

/// The report line printed at the end of a run.
pub open spec fn spec_summary(r: Results) -> Seq<char> {
    "Tests "@ + spec_decimal(r.ran as nat) + "; Succeeded "@ + spec_decimal(r.succeeded as nat)
        + "; Skipped "@ + spec_decimal(r.skipped as nat) + ", Failed "@ + spec_decimal(
        r.failed as nat,
    )
}

fn digit_str(d: u32) -> (r: &'static str)
    requires
        d < 10,
    ensures
        r@ == seq![spec_digit(d as nat)],
{
    if d == 0 {
        proof {
            reveal_strlit("0");
        }
        assert("0"@ =~= seq!['0']);
        "0"
    } else if d == 1 {
        proof {
            reveal_strlit("1");
        }
        assert("1"@ =~= seq!['1']);
        "1"
    } else if d == 2 {
        proof {
            reveal_strlit("2");
        }
        assert("2"@ =~= seq!['2']);
        "2"
    } else if d == 3 {
        proof {
            reveal_strlit("3");
        }
        assert("3"@ =~= seq!['3']);
        "3"
    } else if d == 4 {
        proof {
            reveal_strlit("4");
        }
        assert("4"@ =~= seq!['4']);
        "4"
    } else if d == 5 {
        proof {
            reveal_strlit("5");
        }
        assert("5"@ =~= seq!['5']);
        "5"
    } else if d == 6 {
        proof {
            reveal_strlit("6");
        }
        assert("6"@ =~= seq!['6']);
        "6"
    } else if d == 7 {
        proof {
            reveal_strlit("7");
        }
        assert("7"@ =~= seq!['7']);
        "7"
    } else if d == 8 {
        proof {
            reveal_strlit("8");
        }
        assert("8"@ =~= seq!['8']);
        "8"
    } else {
        proof {
            reveal_strlit("9");
        }
        assert("9"@ =~= seq!['9']);
        "9"
    }
}

/// Render a counter in decimal.
pub fn u32_string(n: u32) -> (s: String)
    ensures
        s@ == spec_decimal(n as nat),
    decreases n,
{
    if n < 10 {
        String::from_str(digit_str(n))
    } else {
        proof {
            assert(n / 10 < n) by (nonlinear_arith)
                requires
                    n >= 10,
            ;
        }
        let mut s = u32_string(n / 10);
        s.append(digit_str(n % 10));
        proof {
            assert(spec_decimal((n as nat) / 10).push(spec_digit((n as nat) % 10)) =~= spec_decimal(
                (n as nat) / 10,
            ) + seq![spec_digit((n as nat) % 10)]);
        }
        s
    }
}

impl Results {
    /// Every case lands in exactly one bucket, so the buckets sum to the
    /// number of cases that ran.
    pub open spec fn wf(self) -> bool {
        self.ran == self.succeeded + self.skipped + self.failed
    }

    pub fn new() -> (r: Results)
        ensures
            r == (Results { ran: 0, succeeded: 0, failed: 0, skipped: 0 }),
    {
        Results { ran: 0, succeeded: 0, failed: 0, skipped: 0 }
    }

    /// Fold one case's verdict into the tally: the case counts as ran, and
    /// as exactly one of succeeded, skipped or failed.
    pub fn update(&mut self, _case: &TestCase, result: TestResult)
        requires
            old(self).wf(),
            old(self).ran < u32::MAX,
        ensures
            final(self).wf(),
            final(self).ran == old(self).ran + 1,
            final(self).succeeded == old(self).succeeded + (if result is OK {
                1int
            } else {
                0int
            }),
            final(self).skipped == old(self).skipped + (if result is Skipped {
                1int
            } else {
                0int
            }),
            final(self).failed == old(self).failed + (if result is Failed {
                1int
            } else {
                0int
            }),
    {
        self.ran = self.ran + 1;
        match result {
            TestResult::OK => self.succeeded = self.succeeded + 1,
            TestResult::Skipped => self.skipped = self.skipped + 1,
            TestResult::Failed => self.failed = self.failed + 1,
        }
    }

    /// The report line for this tally.
    pub fn summary(&self) -> (line: String)
        ensures
            line@ == spec_summary(*self),
    {
        let mut line = String::from_str("Tests ");
        line.append(u32_string(self.ran).as_str());
        line.append("; Succeeded ");
        line.append(u32_string(self.succeeded).as_str());
        line.append("; Skipped ");
        line.append(u32_string(self.skipped).as_str());
        line.append(", Failed ");
        line.append(u32_string(self.failed).as_str());
        line
    }
}

} // verus!
