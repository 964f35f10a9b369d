//! The lines of live progress that a run shows.

use vstd::prelude::*;
use vstd::string::StringExecFns;
use crate::model::{ResultModel, TestModel, TestResult};
use crate::text::joined;

verus! {

/// The first line of a run.
pub open spec fn banner_line() -> Seq<char> {
    "=== PROTOCOL COMPLIANCE LIVE TESTER ==="@
}

/// The line shown before the policy is sent.
pub open spec fn priming_line() -> Seq<char> {
    "Initializing protocol enforcement..."@
}

/// The line shown once the policy has been sent.
pub open spec fn primed_line() -> Seq<char> {
    "Protocol sent. Beginning compliance tests..."@
}

/// The prompt that carries the policy: an instruction to enforce it, then
/// the policy text word for word.
pub open spec fn broadcast_prompt(policy: Seq<char>) -> Seq<char> {
    "You must enforce the following protocol:\n"@ + policy
}

/// The line that announces a test case.
pub open spec fn announce_line(test: TestModel) -> Seq<char> {
    "Test: "@ + test.name
}

/// The line that tells a verdict.
pub open spec fn verdict_line(passed: bool) -> Seq<char> {
    if passed {
        "Result: PASS"@
    } else {
        "Result: FAIL"@
    }
}

/// The line for one violation.
pub open spec fn violation_line(violation: Seq<char>) -> Seq<char> {
    "  - "@ + violation
}

/// The lines that list violations: none when there is none, else a heading
/// and one line each.
pub open spec fn violation_lines(violations: Seq<Seq<char>>) -> Seq<Seq<char>> {
    if violations.len() == 0 {
        Seq::empty()
    } else {
        seq!["Violations:"@] + violations.map_values(|v: Seq<char>| violation_line(v))
    }
}

/// The lines that report one result: PASS or FAIL, the violations, the raw
/// response, and an empty line.
pub open spec fn result_lines(result: ResultModel) -> Seq<Seq<char>> {
    seq![verdict_line(result.passed)] + violation_lines(result.violations) + seq![
        "AI Response: "@ + result.response,
        Seq::empty(),
    ]
}

/// The lines for the violations of a verdict.
fn lines_of_violations(violations: &Vec<String>) -> (lines: Vec<String>)
    ensures
        lines.deep_view() == violation_lines(violations.deep_view()),
{
    let mut lines: Vec<String> = Vec::new();
    if violations.len() == 0 {
        assert(lines.deep_view() =~= Seq::<Seq<char>>::empty());
        return lines;
    }
    lines.push(String::from_str("Violations:"));
    let ghost all = violations.deep_view();
    let ghost heading = seq!["Violations:"@];
    assert(lines.deep_view() =~= heading + all.take(0).map_values(
        |v: Seq<char>| violation_line(v),
    ));
    let mut i: usize = 0;
    while i < violations.len()
        invariant
            i <= violations.len(),
            all == violations.deep_view(),
            heading == seq!["Violations:"@],
            lines.deep_view() == heading + all.take(i as int).map_values(
                |v: Seq<char>| violation_line(v),
            ),
        decreases violations.len() - i,
    {
        let ghost before = lines.deep_view();
        lines.push(joined("  - ", violations[i].as_str()));
        assert(lines.deep_view() =~= before.push(violation_line(all[i as int])));
        assert(lines.deep_view() =~= heading + all.take(i + 1).map_values(
            |v: Seq<char>| violation_line(v),
        ));
        i += 1;
    }
    assert(all.take(i as int) =~= all);
    lines
}

/// The lines that report a verdict.
pub fn lines_of_result(result: &TestResult) -> (lines: Vec<String>)
    ensures
        lines.deep_view() == result_lines(result@),
{
    let mut lines: Vec<String> = Vec::new();
    if result.passed {
        lines.push(String::from_str("Result: PASS"));
    } else {
        lines.push(String::from_str("Result: FAIL"));
    }
    let mut listed = lines_of_violations(&result.violations);
    let ghost head = lines.deep_view();
    let ghost middle = listed.deep_view();
    lines.append(&mut listed);
    assert(lines.deep_view() =~= head + middle);
    lines.push(joined("AI Response: ", result.response.as_str()));
    lines.push(String::new());
    assert(lines.deep_view() =~= result_lines(result@));
    lines
}

} // verus!
