use protocol_compoliance_score::reporter::decimal_text;
use protocol_compoliance_score::{report_lines, summarize, Summary, TestResult};

fn percent(summary: &Summary) -> f64 {
    (summary.passed as f64 / summary.total as f64) * 100.0
}

#[test]
fn test_all_passed() {
    let results = vec![TestResult { passed: true, violations: vec![], response: "r".to_string() }; 3];
    let summary = summarize(&results);
    assert_eq!(summary, Summary { total: 3, passed: 3, failed: 0 });
    assert_eq!(percent(&summary), 100.0);
}

#[test]
fn test_all_failed() {
    let results = vec![TestResult { passed: false, violations: vec!["v".to_string()], response: "r".to_string() }; 3];
    let summary = summarize(&results);
    assert_eq!(summary, Summary { total: 3, passed: 0, failed: 3 });
    assert_eq!(percent(&summary), 0.0);
}

#[test]
fn test_mixed_results() {
    let results = vec![
        TestResult { passed: true, violations: vec![], response: "r".to_string() },
        TestResult { passed: false, violations: vec!["v".to_string()], response: "r".to_string() },
    ];
    let summary = summarize(&results);
    assert_eq!(summary, Summary { total: 2, passed: 1, failed: 1 });
    assert_eq!(percent(&summary), 50.0);
}

#[test]
fn test_empty_results() {
    let results: Vec<TestResult> = vec![];
    let summary = summarize(&results);
    assert_eq!(summary, Summary { total: 0, passed: 0, failed: 0 });
    assert!(!percent(&summary).is_finite());
}

#[test]
fn counts_are_rendered_below_the_heading() {
    let lines = report_lines(&Summary { total: 12, passed: 7, failed: 5 });
    assert_eq!(
        lines,
        vec!["=== PROTOCOL COMPLIANCE REPORT ===", "Total Tests: 12", "Passed: 7", "Failed: 5"]
    );
}

#[test]
fn counts_are_written_in_decimal() {
    for n in [0usize, 1, 9, 10, 11, 99, 100, 101, 1234567890, usize::MAX] {
        assert_eq!(decimal_text(n), format!("{}", n));
    }
}

#[test]
fn passed_and_failed_make_up_the_total() {
    let mut results = Vec::new();
    for i in 0..10 {
        results.push(TestResult {
            passed: i % 3 == 0,
            violations: if i % 3 == 0 { vec![] } else { vec!["v".to_string()] },
            response: String::new(),
        });
        let summary = summarize(&results);
        assert_eq!(summary.total, i + 1);
        assert_eq!(summary.passed + summary.failed, summary.total);
        assert_eq!(summary.passed, i / 3 + 1);
    }
}
