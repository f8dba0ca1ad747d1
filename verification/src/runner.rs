//! Lab test runner.
//!
//! Runs test suites for lab submissions and provides detailed feedback.

use vstd::prelude::*;

use vstd::string::StringExecFns;

use crate::lab::{Lab, Language};
use crate::quiz::TestCase;
use crate::sandbox::{language_supported, ExecutionResult, Sandbox};
use crate::strutil::{chars_of, dec_str, trim_chars, trim_seq, u64_to_string, vec_char_eq};

verus! {

/// Whether the placeholder sandbox passes a test: the language has an
/// interpreter, the code is non-empty, and the expected output is blank
/// (the placeholder produces no output).
pub open spec fn stub_passes(code: Seq<char>, language: Language, expected: Seq<char>) -> bool {
    language_supported(language) && code.len() > 0 && trim_seq(expected) == Seq::<char>::empty()
}

/// How many results in a sequence passed.
pub open spec fn count_passed(rs: Seq<TestResult>) -> int
    decreases rs.len(),
{
    if rs.len() == 0 {
        0
    } else {
        count_passed(rs.drop_last()) + (if rs.last().passed {
            1int
        } else {
            0int
        })
    }
}

/// Test runner for lab submissions.
#[derive(Debug, Clone)]
pub struct TestRunner {
    /// The sandbox used to execute submissions
    pub sandbox: Sandbox,
}

impl TestRunner {
    /// Create a new test runner with default sandbox.
    pub fn new() -> (r: Self)
        ensures
            r.sandbox.config.timeout_ms == 5000,
            r.sandbox.config.memory_limit_bytes == 67108864,
            r.sandbox.config.max_output_bytes == 1048576,
    {
        TestRunner { sandbox: Sandbox::new() }
    }

    /// Create a test runner with a custom sandbox.
    pub fn with_sandbox(sandbox: Sandbox) -> (r: Self)
        ensures
            r.sandbox == sandbox,
    {
        TestRunner { sandbox }
    }

    /// Run all tests for a lab submission.
    pub fn run_tests(&self, code: &str, lab: &Lab) -> (r: TestResults)
        ensures
            r.total_count == lab.test_suite.tests@.len(),
            r.results@.len() == lab.test_suite.tests@.len(),
            forall|i: int|
                0 <= i < r.results@.len() ==> (#[trigger] r.results@[i]).passed == stub_passes(
                    code@,
                    lab.language,
                    lab.test_suite.tests@[i].expected_output@,
                ) && r.results@[i].name@ == lab.test_suite.tests@[i].name@ && r.results@[i].expected@
                    == lab.test_suite.tests@[i].expected_output@,
            r.passed_count == count_passed(r.results@),
            r.all_passed == (r.passed_count == r.results@.len()),
    {
        let n = lab.test_suite.tests.len();
        let mut results: Vec<TestResult> = Vec::new();
        let mut passed_count: usize = 0;
        let mut i: usize = 0;
        proof {
            assert(results@.take(0) =~= Seq::<TestResult>::empty());
        }
        while i < n
            invariant
                i <= n,
                n == lab.test_suite.tests@.len(),
                results@.len() == i,
                passed_count == count_passed(results@),
                passed_count <= i,
                forall|k: int|
                    0 <= k < i ==> (#[trigger] results@[k]).passed == stub_passes(
                        code@,
                        lab.language,
                        lab.test_suite.tests@[k].expected_output@,
                    ) && results@[k].name@ == lab.test_suite.tests@[k].name@ && results@[k].expected@
                        == lab.test_suite.tests@[k].expected_output@,
            decreases n - i,
        {
            let ghost results0 = results@;
            let result = self.run_single_test(code, lab, &lab.test_suite.tests[i]);
            let was_passed = result.passed;
            results.push(result);
            if was_passed {
                passed_count = passed_count + 1;
            }
            proof {
                assert(results@.drop_last() =~= results0);
            }
            i = i + 1;
        }
        let all_passed = passed_count == results.len();
        TestResults { results, all_passed, passed_count, total_count: n }
    }

    /// Run a single test case.
    fn run_single_test(&self, code: &str, lab: &Lab, test: &TestCase) -> (r: TestResult)
        ensures
            r.name@ == test.name@,
            r.expected@ == test.expected_output@,
            r.passed == stub_passes(code@, lab.language, test.expected_output@),
            language_supported(lab.language) && code@.len() > 0 ==> r.actual@
                == Seq::<char>::empty() && r.duration_ms == Some(0u32) && r.error is None,
            language_supported(lab.language) && code@.len() == 0 ==> r.actual@
                == Seq::<char>::empty() && r.duration_ms is None && (match r.error {
                Some(e) => e@ == "Empty code"@,
                None => false,
            }),
            !language_supported(lab.language) ==> r.actual@ == Seq::<char>::empty()
                && r.duration_ms is None && r.error is Some,
    {
        let exec_result = self.sandbox.execute(code, lab.language, test.input.as_str());

        match exec_result {
            ExecutionResult::Success { output, duration_ms } => {
                let output_chars = chars_of(output.as_str());
                let expected_chars = chars_of(test.expected_output.as_str());
                let output_trimmed = trim_chars(&output_chars);
                let expected_trimmed = trim_chars(&expected_chars);
                let passed = vec_char_eq(&output_trimmed, &expected_trimmed);
                proof {
                    assert(trim_seq(Seq::<char>::empty()) =~= Seq::<char>::empty());
                }
                TestResult {
                    name: test.name.clone(),
                    passed,
                    expected: test.expected_output.clone(),
                    actual: output,
                    duration_ms: Some(duration_ms),
                    error: None,
                }
            },
            ExecutionResult::RuntimeError { error, line } => {
                let mut message = String::new();
                message.append("Runtime error");
                match line {
                    Some(l) => {
                        message.append(" at line ");
                        let line_str = u64_to_string(l as u64);
                        message.append(line_str.as_str());
                    },
                    None => {},
                }
                message.append(": ");
                message.append(error.as_str());
                TestResult {
                    name: test.name.clone(),
                    passed: false,
                    expected: test.expected_output.clone(),
                    actual: String::new(),
                    duration_ms: None,
                    error: Some(message),
                }
            },
            ExecutionResult::Timeout { partial_output } => TestResult {
                name: test.name.clone(),
                passed: false,
                expected: test.expected_output.clone(),
                actual: partial_output,
                duration_ms: None,
                error: Some("Execution timed out".to_owned()),
            },
            ExecutionResult::MemoryExceeded { used_bytes } => {
                let mut message = String::new();
                message.append("Memory limit exceeded: ");
                let bytes_str = u64_to_string(used_bytes as u64);
                message.append(bytes_str.as_str());
                message.append(" bytes used");
                TestResult {
                    name: test.name.clone(),
                    passed: false,
                    expected: test.expected_output.clone(),
                    actual: String::new(),
                    duration_ms: None,
                    error: Some(message),
                }
            },
            ExecutionResult::Error { message } => TestResult {
                name: test.name.clone(),
                passed: false,
                expected: test.expected_output.clone(),
                actual: String::new(),
                duration_ms: None,
                error: Some(message),
            },
        }
    }

    /// Calculate a score based on test results: the passed fraction of
    /// `max_points`, rounded down (zero when no tests ran, saturating).
    pub fn calculate_score(&self, results: &TestResults, max_points: u32) -> (r: u32)
        ensures
            r == (if results.total_count == 0 {
                0int
            } else if results.passed_count as int * max_points as int
                / results.total_count as int > u32::MAX {
                u32::MAX as int
            } else {
                results.passed_count as int * max_points as int / results.total_count as int
            }),
    {
        if results.total_count == 0 {
            return 0;
        }
        proof {
            assert(results.passed_count as int * max_points as int <= u128::MAX)
                by (nonlinear_arith)
                requires
                    results.passed_count <= usize::MAX,
                    max_points <= u32::MAX,
            ;
        }
        let v: u128 = (results.passed_count as u128 * max_points as u128) / (
        results.total_count as u128);
        if v > u32::MAX as u128 {
            u32::MAX
        } else {
            v as u32
        }
    }
}

impl Default for TestRunner {
    /// The default runner uses the default sandbox.
    fn default() -> (r: Self)
        ensures
            r.sandbox.config.timeout_ms == 5000,
    {
        TestRunner::new()
    }
}

/// Result of running a single test.
#[derive(Debug, Clone, PartialEq)]
pub struct TestResult {
    /// Name of the test
    pub name: String,
    /// Whether the test passed
    pub passed: bool,
    /// Expected output
    pub expected: String,
    /// Actual output
    pub actual: String,
    /// Execution duration in milliseconds
    pub duration_ms: Option<u32>,
    /// Error message if failed
    pub error: Option<String>,
}

impl TestResult {
    /// Check if the test failed.
    pub fn is_failed(&self) -> (r: bool)
        ensures
            r == !self.passed,
    {
        !self.passed
    }

    /// Get a one-line summary of the result.
    pub fn summary(&self) -> (r: String)
        ensures
            self.passed ==> r@ == "✓ "@ + self.name@,
            !self.passed ==> (match self.error {
                Some(e) => r@ == "✗ "@ + self.name@ + ": "@ + e@,
                None => r@ == "✗ "@ + self.name@ + ": expected '"@ + self.expected@ + "', got '"@
                    + self.actual@ + "'"@,
            }),
    {
        let mut out = String::new();
        if self.passed {
            out.append("✓ ");
            out.append(self.name.as_str());
        } else {
            out.append("✗ ");
            out.append(self.name.as_str());
            match &self.error {
                Some(err) => {
                    out.append(": ");
                    out.append(err.as_str());
                },
                None => {
                    out.append(": expected '");
                    out.append(self.expected.as_str());
                    out.append("', got '");
                    out.append(self.actual.as_str());
                    out.append("'");
                },
            }
        }
        out
    }
}

/// Results of running all tests for a lab.
#[derive(Debug, Clone, PartialEq)]
pub struct TestResults {
    /// Individual test results
    pub results: Vec<TestResult>,
    /// Whether all tests passed
    pub all_passed: bool,
    /// Number of tests that passed
    pub passed_count: usize,
    /// Total number of tests
    pub total_count: usize,
}

impl TestResults {
    /// The pass rate in per-mille (rounded down, zero when no tests ran,
    /// saturating).
    pub fn pass_rate(&self) -> (r: u32)
        ensures
            r == (if self.total_count == 0 {
                0int
            } else if self.passed_count as int * 1000 / self.total_count as int > u32::MAX {
                u32::MAX as int
            } else {
                self.passed_count as int * 1000 / self.total_count as int
            }),
    {
        if self.total_count == 0 {
            return 0;
        }
        let v: u128 = (self.passed_count as u128 * 1000) / (self.total_count as u128);
        if v > u32::MAX as u128 {
            u32::MAX
        } else {
            v as u32
        }
    }

    /// Get all failed tests.
    pub fn failed_tests(&self) -> (r: Vec<&TestResult>)
        ensures
            r@.len() <= self.results@.len(),
            forall|k: int| 0 <= k < r@.len() ==> !(#[trigger] r@[k]).passed,
            r@.map_values(|t: &TestResult| *t) == self.results@.filter(
                |t: TestResult| !t.passed,
            ),
    {
        let n = self.results.len();
        let mut out: Vec<&TestResult> = Vec::new();
        let mut i: usize = 0;
        proof {
            reveal_with_fuel(Seq::<TestResult>::filter, 2);
            assert(self.results@.take(0).filter(|t: TestResult| !t.passed) =~= Seq::<
                TestResult,
            >::empty());
            assert(out@.map_values(|t: &TestResult| *t) =~= Seq::<TestResult>::empty());
        }
        while i < n
            invariant
                i <= n,
                n == self.results@.len(),
                out@.len() <= i,
                forall|k: int| 0 <= k < out@.len() ==> !(#[trigger] out@[k]).passed,
                out@.map_values(|t: &TestResult| *t) == self.results@.take(i as int).filter(
                    |t: TestResult| !t.passed,
                ),
            decreases n - i,
        {
            proof {
                reveal_with_fuel(Seq::<TestResult>::filter, 2);
                assert(self.results@.take(i + 1).drop_last() =~= self.results@.take(i as int));
                assert(self.results@.take(i + 1).last() == self.results@[i as int]);
            }
            let ghost out0 = out@;
            if !self.results[i].passed {
                out.push(&self.results[i]);
                proof {
                    assert(out@.map_values(|t: &TestResult| *t) =~= out0.map_values(
                        |t: &TestResult| *t,
                    ).push(self.results@[i as int]));
                }
            }
            i = i + 1;
        }
        proof {
            assert(self.results@.take(n as int) =~= self.results@);
        }
        out
    }

    /// Get a summary of results, with the pass rate as a percentage.
    pub fn summary(&self) -> (r: String)
        ensures
            r@ == dec_str(self.passed_count as int) + "/"@ + dec_str(self.total_count as int)
                + " tests passed ("@ + dec_str(
                if self.total_count == 0 {
                    0int
                } else if self.passed_count as int * 100 / self.total_count as int > u32::MAX {
                    u32::MAX as int
                } else {
                    self.passed_count as int * 100 / self.total_count as int
                },
            ) + "%)"@,
    {
        let percent: u32 = if self.total_count == 0 {
            0
        } else {
            let v: u128 = (self.passed_count as u128 * 100) / (self.total_count as u128);
            if v > u32::MAX as u128 {
                u32::MAX
            } else {
                v as u32
            }
        };
        let mut out = String::new();
        let passed_str = u64_to_string(self.passed_count as u64);
        out.append(passed_str.as_str());
        out.append("/");
        let total_str = u64_to_string(self.total_count as u64);
        out.append(total_str.as_str());
        out.append(" tests passed (");
        let percent_str = u64_to_string(percent as u64);
        out.append(percent_str.as_str());
        out.append("%)");
        out
    }
}

} // verus!
