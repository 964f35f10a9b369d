//! The score reporter: the counts of a batch of verdicts.
//!
//! The percentage of a batch is real-number arithmetic on these counts and is
//! left to the caller; for an empty batch it has no finite value.

use vstd::prelude::*;
use vstd::string::StringExecFns;
use crate::model::TestResult;
use crate::seqs::{filter_of_none, filter_take_step};

verus! {

/// The counts of a batch.
#[derive(Debug, Clone, Copy, PartialEq, Eq)]
pub struct Summary {
    /// How many verdicts the batch holds.
    pub total: usize,
    /// How many of them passed.
    pub passed: usize,
    /// How many of them failed.
    pub failed: usize,
}

/// The verdicts of a batch that passed, in order.
pub open spec fn passing(results: Seq<TestResult>) -> Seq<TestResult> {
    results.filter(|result: TestResult| result.passed)
}

/// The verdicts of a batch that failed, in order.
pub open spec fn failing(results: Seq<TestResult>) -> Seq<TestResult> {
    results.filter(|result: TestResult| !result.passed)
}

/// Every verdict either passed or failed: the two counts make up the batch.
pub proof fn passing_and_failing_partition(results: Seq<TestResult>)
    ensures
        passing(results).len() + failing(results).len() == results.len(),
    decreases results.len(),
{
    let passed = |result: TestResult| result.passed;
    let failed = |result: TestResult| !result.passed;
    if results.len() == 0 {
        filter_of_none(results, passed);
        filter_of_none(results, failed);
    } else {
        let last = results.len() - 1;
        passing_and_failing_partition(results.take(last));
        filter_take_step(results, passed, last);
        filter_take_step(results, failed, last);
        assert(results.take(last + 1) =~= results);
    }
}

/// A batch in which every verdict passed counts all of them as passed and
/// none as failed.
pub proof fn all_passing_batch(results: Seq<TestResult>)
    requires
        forall|k: int| 0 <= k < results.len() ==> (#[trigger] results[k]).passed,
    ensures
        passing(results).len() == results.len(),
        failing(results).len() == 0,
    decreases results.len(),
{
    let passed = |result: TestResult| result.passed;
    if results.len() == 0 {
        filter_of_none(results, passed);
    } else {
        let last = results.len() - 1;
        all_passing_batch(results.take(last));
        filter_take_step(results, passed, last);
        assert(results.take(last + 1) =~= results);
    }
    passing_and_failing_partition(results);
}

/// A batch in which every verdict failed counts all of them as failed and
/// none as passed.
pub proof fn all_failing_batch(results: Seq<TestResult>)
    requires
        forall|k: int| 0 <= k < results.len() ==> !(#[trigger] results[k]).passed,
    ensures
        passing(results).len() == 0,
        failing(results).len() == results.len(),
    decreases results.len(),
{
    let passed = |result: TestResult| result.passed;
    if results.len() == 0 {
        filter_of_none(results, passed);
    } else {
        let last = results.len() - 1;
        all_failing_batch(results.take(last));
        filter_take_step(results, passed, last);
        assert(results.take(last + 1) =~= results);
    }
    passing_and_failing_partition(results);
}

/// Counts a batch: its size, how many verdicts passed, and the rest.
pub fn summarize(results: &[TestResult]) -> (summary: Summary)
    ensures
        summary.total == results@.len(),
        summary.passed == passing(results@).len(),
        summary.failed == failing(results@).len(),
        summary.failed == summary.total - summary.passed,
{
    let total = results.len();
    let ghost passed_pred = |result: TestResult| result.passed;
    let mut passed: usize = 0;
    let mut i: usize = 0;
    proof {
        filter_of_none(results@.take(0), passed_pred);
    }
    while i < total
        invariant
            total == results@.len(),
            i <= total,
            passed <= i,
            passed_pred == (|result: TestResult| result.passed),
            passed == passing(results@.take(i as int)).len(),
        decreases total - i,
    {
        proof {
            filter_take_step(results@, passed_pred, i as int);
        }
        if results[i].passed {
            passed += 1;
        }
        i += 1;
    }
    proof {
        assert(results@.take(i as int) =~= results@);
        passing_and_failing_partition(results@);
    }
    Summary { total, passed, failed: total - passed }
}

/// The character for a decimal digit.
pub open spec fn digit_char(digit: nat) -> char {
    if digit == 0 {
        '0'
    } else if digit == 1 {
        '1'
    } else if digit == 2 {
        '2'
    } else if digit == 3 {
        '3'
    } else if digit == 4 {
        '4'
    } else if digit == 5 {
        '5'
    } else if digit == 6 {
        '6'
    } else if digit == 7 {
        '7'
    } else if digit == 8 {
        '8'
    } else {
        '9'
    }
}

/// A count in decimal, most significant digit first, without leading zeros.
pub open spec fn decimal(n: nat) -> Seq<char>
    decreases n,
{
    if n < 10 {
        seq![digit_char(n)]
    } else {
        decimal(n / 10).push(digit_char(n % 10))
    }
}

/// The heading of a report.
pub open spec fn report_heading() -> Seq<char> {
    "=== PROTOCOL COMPLIANCE REPORT ==="@
}

/// The lines of a report that tell its counts: the heading, then the total,
/// the passed and the failed.
pub open spec fn count_lines(summary: Summary) -> Seq<Seq<char>> {
    seq![
        report_heading(),
        "Total Tests: "@ + decimal(summary.total as nat),
        "Passed: "@ + decimal(summary.passed as nat),
        "Failed: "@ + decimal(summary.failed as nat),
    ]
}

/// One decimal digit as text.
fn digit_text(digit: usize) -> (text: &'static str)
    requires
        digit < 10,
    ensures
        text@ == seq![digit_char(digit as nat)],
{
    proof {
        reveal_strlit("0");
        reveal_strlit("1");
        reveal_strlit("2");
        reveal_strlit("3");
        reveal_strlit("4");
        reveal_strlit("5");
        reveal_strlit("6");
        reveal_strlit("7");
        reveal_strlit("8");
        reveal_strlit("9");
    }
    let text = if digit == 0 {
        "0"
    } else if digit == 1 {
        "1"
    } else if digit == 2 {
        "2"
    } else if digit == 3 {
        "3"
    } else if digit == 4 {
        "4"
    } else if digit == 5 {
        "5"
    } else if digit == 6 {
        "6"
    } else if digit == 7 {
        "7"
    } else if digit == 8 {
        "8"
    } else {
        "9"
    };
    assert(text@ =~= seq![digit_char(digit as nat)]);
    text
}

/// A count written in decimal.
pub fn decimal_text(n: usize) -> (text: String)
    ensures
        text@ == decimal(n as nat),
    decreases n,
{
    if n < 10 {
        String::from_str(digit_text(n))
    } else {
        let mut text = decimal_text(n / 10);
        text.append(digit_text(n % 10));
        assert(text@ =~= decimal(n as nat));
        text
    }
}

/// `label` followed by a count in decimal.
fn count_line(label: &str, n: usize) -> (line: String)
    ensures
        line@ == label@ + decimal(n as nat),
{
    let mut line = String::from_str(label);
    let digits = decimal_text(n);
    line.append(digits.as_str());
    line
}

/// Renders the counts of a report, one line each below the heading.
pub fn report_lines(summary: &Summary) -> (lines: Vec<String>)
    ensures
        lines.deep_view() == count_lines(*summary),
{
    let mut lines: Vec<String> = Vec::new();
    lines.push(String::from_str("=== PROTOCOL COMPLIANCE REPORT ==="));
    lines.push(count_line("Total Tests: ", summary.total));
    lines.push(count_line("Passed: ", summary.passed));
    lines.push(count_line("Failed: ", summary.failed));
    assert(lines.deep_view() =~= count_lines(*summary));
    lines
}

} // verus!
