//! The response evaluator: the pass/fail rules for one test case.

use vstd::prelude::*;
use vstd::string::StringExecFns;
use crate::seqs::{filter_keeps_members, filter_of_none, filter_take_step};
use crate::model::{ComplianceTest, ResultModel, TestModel, TestResult};
use crate::text::{contains, lowercase, occurs_at, occurs_in, starts_with, to_lowercase};

verus! {

/// The violation reported when the response lacks the required prefix.
pub open spec fn missing_format_message() -> Seq<char> {
    "Missing mandatory response format"@
}

/// The violation reported for a forbidden term, quoting it as declared.
pub open spec fn forbidden_message(term: Seq<char>) -> Seq<char> {
    "Contains forbidden behavior: '"@ + term + "'"@
}

/// The response breaks the rule on `term`: lower-cased, it contains the
/// lower-cased term.
pub open spec fn breaches(term: Seq<char>, response: Seq<char>) -> bool {
    occurs_in(lowercase(term), lowercase(response))
}

/// What the prefix rule reports: nothing when the response begins with
/// `expected_start` (always so for an empty one), else the one message.
pub open spec fn prefix_violations(expected_start: Seq<char>, response: Seq<char>) -> Seq<
    Seq<char>,
> {
    if expected_start.is_prefix_of(response) {
        Seq::empty()
    } else {
        seq![missing_format_message()]
    }
}

/// What the forbidden-content rule reports: one message per breached term,
/// in the order the terms are declared.
pub open spec fn forbidden_violations(forbidden: Seq<Seq<char>>, response: Seq<char>) -> Seq<
    Seq<char>,
> {
    forbidden.filter(|term: Seq<char>| breaches(term, response)).map_values(
        |term: Seq<char>| forbidden_message(term),
    )
}

/// The verdict on `response` for `test`.
pub open spec fn evaluation(test: TestModel, response: Seq<char>) -> ResultModel {
    let violations = prefix_violations(test.expected_start, response) + forbidden_violations(
        test.forbidden,
        response,
    );
    ResultModel { passed: violations.len() == 0, violations, response }
}

/// The positions of a list of `n` entries, in order.
pub open spec fn positions(n: nat) -> Seq<int> {
    Seq::new(n, |i: int| i)
}

/// What the forbidden-content rule reports of the first `k` terms, on texts
/// that are lower-cased already: one message per term whose lowered form
/// stands in the lowered response, quoting the term as declared.
pub open spec fn lowered_violations_upto(
    terms: Seq<Seq<char>>,
    terms_lower: Seq<Seq<char>>,
    response_lower: Seq<char>,
    k: int,
) -> Seq<Seq<char>> {
    positions(terms.len()).take(k).filter(|i: int| occurs_in(terms_lower[i], response_lower))
        .map_values(|i: int| forbidden_message(terms[i]))
}

/// What the forbidden-content rule reports on texts that are lower-cased
/// already, over all the terms and in declared order.
pub open spec fn lowered_violations(
    terms: Seq<Seq<char>>,
    terms_lower: Seq<Seq<char>>,
    response_lower: Seq<char>,
) -> Seq<Seq<char>> {
    lowered_violations_upto(terms, terms_lower, response_lower, terms.len() as int)
}

/// The verdict on `response` for `test`, given the lowered response and the
/// lowered terms, one per declared term.
pub open spec fn evaluation_lowered(
    test: TestModel,
    response: Seq<char>,
    response_lower: Seq<char>,
    terms_lower: Seq<Seq<char>>,
) -> ResultModel {
    let violations = prefix_violations(test.expected_start, response) + lowered_violations(
        test.forbidden,
        terms_lower,
        response_lower,
    );
    ResultModel { passed: violations.len() == 0, violations, response }
}

/// The lower-casings of the terms, one for one.
pub open spec fn lowercases(terms: Seq<Seq<char>>) -> Seq<Seq<char>> {
    terms.map_values(|term: Seq<char>| lowercase(term))
}

/// With no term taken into account nothing is reported.
pub proof fn lowered_violations_of_none(
    terms: Seq<Seq<char>>,
    terms_lower: Seq<Seq<char>>,
    response_lower: Seq<char>,
)
    ensures
        lowered_violations_upto(terms, terms_lower, response_lower, 0) == Seq::<
            Seq<char>,
        >::empty(),
{
    filter_of_none(
        positions(terms.len()).take(0),
        |i: int| occurs_in(terms_lower[i], response_lower),
    );
    assert(lowered_violations_upto(terms, terms_lower, response_lower, 0) =~= Seq::<
        Seq<char>,
    >::empty());
}

/// Taking one more term into account appends its message when its lowered
/// form stands in the lowered response, and nothing otherwise.
pub proof fn lowered_violations_step(
    terms: Seq<Seq<char>>,
    terms_lower: Seq<Seq<char>>,
    response_lower: Seq<char>,
    k: int,
)
    requires
        0 <= k < terms.len(),
    ensures
        lowered_violations_upto(terms, terms_lower, response_lower, k + 1) == if occurs_in(
            terms_lower[k],
            response_lower,
        ) {
            lowered_violations_upto(terms, terms_lower, response_lower, k).push(
                forbidden_message(terms[k]),
            )
        } else {
            lowered_violations_upto(terms, terms_lower, response_lower, k)
        },
{
    let found = |i: int| occurs_in(terms_lower[i], response_lower);
    filter_take_step(positions(terms.len()), found, k);
    if occurs_in(terms_lower[k], response_lower) {
        assert(lowered_violations_upto(terms, terms_lower, response_lower, k + 1)
            =~= lowered_violations_upto(terms, terms_lower, response_lower, k).push(
            forbidden_message(terms[k]),
        ));
    }
}

/// On the lower-casings themselves, the first `k` terms report the same
/// either way.
proof fn lowered_violations_agree(terms: Seq<Seq<char>>, response: Seq<char>, k: int)
    requires
        0 <= k <= terms.len(),
    ensures
        lowered_violations_upto(terms, lowercases(terms), lowercase(response), k)
            == forbidden_violations(terms.take(k), response),
    decreases k,
{
    let breached = |term: Seq<char>| breaches(term, response);
    if k == 0 {
        lowered_violations_of_none(terms, lowercases(terms), lowercase(response));
        filter_of_none(terms.take(0), breached);
        assert(lowered_violations_upto(terms, lowercases(terms), lowercase(response), 0)
            =~= forbidden_violations(terms.take(0), response));
    } else {
        lowered_violations_agree(terms, response, k - 1);
        lowered_violations_step(terms, lowercases(terms), lowercase(response), k - 1);
        filter_take_step(terms, breached, k - 1);
        if breaches(terms[k - 1], response) {
            assert(forbidden_violations(terms.take(k), response) =~= forbidden_violations(
                terms.take(k - 1),
                response,
            ).push(forbidden_message(terms[k - 1])));
        }
    }
}

/// Given the lower-casings of the response and of each term, the verdict on
/// lowered texts is the verdict.
pub proof fn lowered_evaluation_agrees(test: TestModel, response: Seq<char>)
    ensures
        evaluation_lowered(test, response, lowercase(response), lowercases(test.forbidden))
            == evaluation(test, response),
{
    lowered_violations_agree(test.forbidden, response, test.forbidden.len() as int);
    assert(test.forbidden.take(test.forbidden.len() as int) =~= test.forbidden);
}

/// A forbidden-term message never reads as the missing-format message.
proof fn messages_differ(term: Seq<char>)
    ensures
        forbidden_message(term) != missing_format_message(),
{
    reveal_strlit("Contains forbidden behavior: '");
    reveal_strlit("Missing mandatory response format");
    assert(forbidden_message(term)[0] == 'C');
    assert(missing_format_message()[0] == 'M');
}

/// A response that does not begin with a non-empty required prefix never
/// passes, and the missing-format message is the first violation listed.
pub proof fn missing_prefix_fails(test: TestModel, response: Seq<char>)
    requires
        test.expected_start.len() > 0,
        !test.expected_start.is_prefix_of(response),
    ensures
        !evaluation(test, response).passed,
        evaluation(test, response).violations[0] == missing_format_message(),
        evaluation(test, response).violations.contains(missing_format_message()),
{
    let all = evaluation(test, response).violations;
    assert(all[0] == missing_format_message());
}

/// With an empty required prefix no response is reported for its format:
/// the violations are those of the forbidden terms alone.
pub proof fn empty_prefix_never_reported(test: TestModel, response: Seq<char>)
    requires
        test.expected_start.len() == 0,
    ensures
        evaluation(test, response).violations == forbidden_violations(test.forbidden, response),
        !evaluation(test, response).violations.contains(missing_format_message()),
{
    let kept = test.forbidden.filter(|term: Seq<char>| breaches(term, response));
    let reported = forbidden_violations(test.forbidden, response);
    assert(test.expected_start.is_prefix_of(response));
    assert(evaluation(test, response).violations =~= reported);
    assert forall|k: int| 0 <= k < reported.len() implies reported[k]
        != missing_format_message() by {
        messages_differ(kept[k]);
    }
}

/// A message quotes its term as declared, letter case untouched.
pub proof fn message_quotes_term(term: Seq<char>)
    ensures
        occurs_in(term, forbidden_message(term)),
{
    let lead = "Contains forbidden behavior: '"@;
    let message = forbidden_message(term);
    assert(message.subrange(lead.len() as int, (lead.len() + term.len()) as int) =~= term);
    assert(occurs_at(term, message, lead.len() as int));
}

/// Whenever the response contains a declared forbidden term in any letter
/// case, that is, lower-cased it contains the lower-cased term, the verdict
/// fails and lists the message that quotes the term as declared.
pub proof fn breached_term_is_reported(test: TestModel, response: Seq<char>, i: int)
    requires
        0 <= i < test.forbidden.len(),
        breaches(test.forbidden[i], response),
    ensures
        !evaluation(test, response).passed,
        evaluation(test, response).violations.contains(forbidden_message(test.forbidden[i])),
        occurs_in(test.forbidden[i], forbidden_message(test.forbidden[i])),
{
    let pred = |term: Seq<char>| breaches(term, response);
    let kept = test.forbidden.filter(pred);
    let reported = forbidden_violations(test.forbidden, response);
    let lead = prefix_violations(test.expected_start, response);
    test.forbidden.lemma_filter_contains(pred, i);
    let k = choose|k: int| 0 <= k < kept.len() && kept[k] == test.forbidden[i];
    assert(reported[k] == forbidden_message(test.forbidden[i]));
    assert((lead + reported)[lead.len() + k] == reported[k]);
    message_quotes_term(test.forbidden[i]);
}

/// A verdict passes exactly when it lists no violation.
pub proof fn passed_iff_no_violation(test: TestModel, response: Seq<char>)
    ensures
        evaluation(test, response).wf(),
        evaluation(test, response).passed <==> evaluation(test, response).violations.len() == 0,
{
}

/// An empty forbidden list never contributes a violation.
pub proof fn no_terms_no_forbidden_violations(response: Seq<char>)
    ensures
        forbidden_violations(Seq::empty(), response) == Seq::<Seq<char>>::empty(),
{
    filter_of_none(Seq::<Seq<char>>::empty(), |term: Seq<char>| breaches(term, response));
    assert(forbidden_violations(Seq::empty(), response) =~= Seq::<Seq<char>>::empty());
}

/// Every violation listed is the missing-format message or the message of a
/// declared term that the response breaches.
pub proof fn violations_are_justified(test: TestModel, response: Seq<char>, k: int)
    requires
        0 <= k < evaluation(test, response).violations.len(),
    ensures
        ({
            let v = evaluation(test, response).violations[k];
            ||| (v == missing_format_message() && !test.expected_start.is_prefix_of(response))
            ||| exists|i: int|
                0 <= i < test.forbidden.len() && breaches(#[trigger] test.forbidden[i], response)
                    && v == forbidden_message(test.forbidden[i])
        }),
{
    let pred = |term: Seq<char>| breaches(term, response);
    let lead = prefix_violations(test.expected_start, response);
    if k >= lead.len() {
        let i = filter_keeps_members(test.forbidden, pred, k - lead.len());
        assert(breaches(test.forbidden[i], response));
    }
}

/// Scores one response against one test case, given the response and each
/// forbidden term in lower case already. `terms_lower` holds one entry per
/// declared term, in declared order.
pub fn evaluate_lowered(
    test: &ComplianceTest,
    response: &str,
    response_lower: &str,
    terms_lower: &Vec<String>,
) -> (result: TestResult)
    requires
        terms_lower.len() == test.forbidden.len(),
    ensures
        result@ == evaluation_lowered(
            test@,
            response@,
            response_lower@,
            terms_lower.deep_view(),
        ),
        result.wf(),
{
    let mut violations: Vec<String> = Vec::new();
    let mut passed = true;
    if !starts_with(response, test.expected_start.as_str()) {
        violations.push(String::from_str("Missing mandatory response format"));
        passed = false;
    }
    let ghost terms = test@.forbidden;
    let ghost lowered = terms_lower.deep_view();
    proof {
        lowered_violations_of_none(terms, lowered, response_lower@);
        assert(violations.deep_view() =~= prefix_violations(test@.expected_start, response@));
    }
    let mut i: usize = 0;
    while i < test.forbidden.len()
        invariant
            i <= test.forbidden.len(),
            terms_lower.len() == test.forbidden.len(),
            terms == test@.forbidden,
            lowered == terms_lower.deep_view(),
            violations.deep_view() == prefix_violations(test@.expected_start, response@)
                + lowered_violations_upto(terms, lowered, response_lower@, i as int),
            passed == (violations@.len() == 0),
        decreases test.forbidden.len() - i,
    {
        let term = &test.forbidden[i];
        let ghost before = violations.deep_view();
        proof {
            lowered_violations_step(terms, lowered, response_lower@, i as int);
            assert(terms[i as int] == term@);
            assert(lowered[i as int] == terms_lower[i as int]@);
        }
        if contains(response_lower, terms_lower[i].as_str()) {
            let mut message = String::from_str("Contains forbidden behavior: '");
            message.append(term.as_str());
            message.append("'");
            violations.push(message);
            passed = false;
            proof {
                assert(violations.deep_view() =~= before.push(forbidden_message(term@)));
            }
        }
        i += 1;
    }
    TestResult { passed, violations, response: String::from_str(response) }
}

/// Scores one response against one test case.
pub fn evaluate_response(test: &ComplianceTest, response: &str) -> (result: TestResult)
    ensures
        result@ == evaluation(test@, response@),
        result.wf(),
{
    let response_lower = to_lowercase(response);
    let ghost terms = test@.forbidden;
    let mut terms_lower: Vec<String> = Vec::new();
    let mut i: usize = 0;
    assert(terms_lower.deep_view() =~= lowercases(terms.take(0)));
    while i < test.forbidden.len()
        invariant
            i <= test.forbidden.len(),
            terms == test@.forbidden,
            terms_lower.len() == i,
            terms_lower.deep_view() == lowercases(terms.take(i as int)),
        decreases test.forbidden.len() - i,
    {
        let ghost before = terms_lower.deep_view();
        let term_lower = to_lowercase(test.forbidden[i].as_str());
        terms_lower.push(term_lower);
        assert(terms_lower.deep_view() =~= before.push(lowercase(terms[i as int])));
        assert(terms_lower.deep_view() =~= lowercases(terms.take(i + 1)));
        i += 1;
    }
    proof {
        assert(terms.take(i as int) =~= terms);
        lowered_evaluation_agrees(test@, response@);
    }
    evaluate_lowered(test, response, response_lower.as_str(), &terms_lower)
}

} // verus!
