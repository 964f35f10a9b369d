//! The data model: a declared test case and the verdict on one response.

use vstd::prelude::*;

verus! {

/// One declarative test case: a prompt and the rules its response must obey.
#[derive(Debug)]
pub struct ComplianceTest {
    /// Identifier shown in reports; may be empty and need not be unique.
    pub name: String,
    /// The text sent to the endpoint.
    pub prompt: String,
    /// Substrings that must not appear in the response, in any letter case.
    pub forbidden: Vec<String>,
    /// The literal prefix the response must begin with; empty for none.
    pub expected_start: String,
}

/// Mathematical value of a [`ComplianceTest`].
pub ghost struct TestModel {
    pub name: Seq<char>,
    pub prompt: Seq<char>,
    pub forbidden: Seq<Seq<char>>,
    pub expected_start: Seq<char>,
}

impl View for ComplianceTest {
    type V = TestModel;

    open spec fn view(&self) -> TestModel {
        TestModel {
            name: self.name@,
            prompt: self.prompt@,
            forbidden: self.forbidden.deep_view(),
            expected_start: self.expected_start@,
        }
    }
}

impl DeepView for ComplianceTest {
    type V = TestModel;

    open spec fn deep_view(&self) -> TestModel {
        self@
    }
}

/// The verdict on one response.
#[derive(Debug, Clone)]
pub struct TestResult {
    /// True when no rule was broken.
    pub passed: bool,
    /// One description per broken rule, in detection order.
    pub violations: Vec<String>,
    /// The response exactly as received.
    pub response: String,
}

/// Mathematical value of a [`TestResult`].
pub ghost struct ResultModel {
    pub passed: bool,
    pub violations: Seq<Seq<char>>,
    pub response: Seq<char>,
}

impl ResultModel {
    /// A verdict is consistent when it passed exactly if it lists no violation.
    pub open spec fn wf(self) -> bool {
        self.passed == (self.violations.len() == 0)
    }
}

impl View for TestResult {
    type V = ResultModel;

    open spec fn view(&self) -> ResultModel {
        ResultModel {
            passed: self.passed,
            violations: self.violations.deep_view(),
            response: self.response@,
        }
    }
}

impl DeepView for TestResult {
    type V = ResultModel;

    open spec fn deep_view(&self) -> ResultModel {
        self@
    }
}

impl TestResult {
    /// A verdict is consistent when it passed exactly if it lists no violation.
    pub open spec fn wf(&self) -> bool {
        self@.wf()
    }
}

} // verus!
