//! The loader of declared test cases: from a JSON document to test cases.
//!
//! Decoding is permissive below the top level. A record may lack any key, or
//! hold a value of another shape under it, and the field then takes its
//! default; a list of forbidden terms with an element that is no string
//! counts as another shape. Only the document as a whole can be refused:
//! when it is no JSON at all, or no array.

use vstd::prelude::*;
use vstd::string::StringExecFns;
use crate::json::{
    error_text, json_member, json_parse, json_tree, json_trees, member, parse_value, text_or_empty,
    Json,
};
use crate::model::{ComplianceTest, TestModel};

verus! {

/// Every element is a string.
pub open spec fn all_texts(items: Seq<Json>) -> bool {
    forall|i: int| 0 <= i < items.len() ==> (#[trigger] items[i]) is Text
}

/// The texts of the elements, one for one and in order.
pub open spec fn texts_of(items: Seq<Json>) -> Seq<Seq<char>> {
    items.map_values(|item: Json| text_or_empty(item))
}

/// The forbidden terms that a value declares: the strings of an array that
/// holds nothing but strings, in order, and none for anything else. An array
/// with a single element of another shape declares none.
pub open spec fn forbidden_of(tree: Json) -> Seq<Seq<char>> {
    match tree {
        Json::Array(items) => if all_texts(items) {
            texts_of(items)
        } else {
            Seq::empty()
        },
        _ => Seq::empty(),
    }
}

/// The test case that one record declares, with the default of each field
/// that is absent or of another shape.
pub open spec fn record_test(record: Json) -> TestModel {
    TestModel {
        name: text_or_empty(json_member(record, "name"@)),
        prompt: text_or_empty(json_member(record, "prompt"@)),
        forbidden: forbidden_of(json_member(record, "forbidden"@)),
        expected_start: text_or_empty(json_member(record, "expected_start"@)),
    }
}

/// The test cases of the records, one for one and in order.
pub open spec fn records_tests(records: Seq<Json>) -> Seq<TestModel> {
    records.map_values(|record: Json| record_test(record))
}

/// The message for a document that is JSON but no array.
pub open spec fn not_an_array_message() -> Seq<char> {
    "Invalid JSON format: expected an array of test records"@
}

/// The lead of the message for a text that is no JSON.
pub open spec fn invalid_json_lead() -> Seq<char> {
    "Invalid JSON format: "@
}

/// The string under `key` in `record`, or the empty string.
fn text_field(record: &serde_json::Value, key: &str) -> (r: String)
    ensures
        r@ == text_or_empty(json_member(json_tree(*record), key@)),
{
    match member(record, key).as_str() {
        Some(text) => String::from_str(text),
        None => String::new(),
    }
}

/// The forbidden terms that `value` declares.
fn forbidden_terms(value: &serde_json::Value) -> (r: Vec<String>)
    ensures
        r.deep_view() == forbidden_of(json_tree(*value)),
{
    let mut terms: Vec<String> = Vec::new();
    match value.as_array() {
        None => {
            assert(terms.deep_view() =~= Seq::<Seq<char>>::empty());
        },
        Some(items) => {
            let ghost trees = json_trees(items@);
            assert(terms.deep_view() =~= texts_of(trees.take(0)));
            let mut i: usize = 0;
            while i < items.len()
                invariant
                    i <= items.len(),
                    trees == json_trees(items@),
                    json_tree(*value) == Json::Array(trees),
                    all_texts(trees.take(i as int)),
                    terms.deep_view() == texts_of(trees.take(i as int)),
                decreases items.len() - i,
            {
                let ghost before = terms.deep_view();
                match items[i].as_str() {
                    Some(text) => {
                        terms.push(String::from_str(text));
                        assert(terms.deep_view() =~= before.push(text@));
                        assert(texts_of(trees.take(i + 1)) =~= before.push(text@));
                        assert forall|j: int| 0 <= j < i + 1 implies (#[trigger] trees.take(
                            i + 1,
                        )[j]) is Text by {
                            if j < i {
                                assert(trees.take(i as int)[j] is Text);
                            }
                        }
                    },
                    None => {
                        let none: Vec<String> = Vec::new();
                        assert(trees[i as int] == json_tree(items@[i as int]));
                        assert(!(trees[i as int] is Text));
                        assert(!all_texts(trees));
                        assert(none.deep_view() =~= Seq::<Seq<char>>::empty());
                        return none;
                    },
                }
                i += 1;
            }
            assert(trees.take(i as int) =~= trees);
        },
    }
    terms
}

/// Decodes one record.
pub fn test_from_record(record: &serde_json::Value) -> (test: ComplianceTest)
    ensures
        test@ == record_test(json_tree(*record)),
{
    let name = text_field(record, "name");
    let prompt = text_field(record, "prompt");
    let expected_start = text_field(record, "expected_start");
    let forbidden = forbidden_terms(member(record, "forbidden"));
    ComplianceTest { name, prompt, forbidden, expected_start }
}

/// Decodes a parsed document: the test cases of its records in document
/// order when it is an array, and `None` when it is anything else.
pub fn tests_from_document(document: &serde_json::Value) -> (tests: Option<Vec<ComplianceTest>>)
    ensures
        match json_tree(*document) {
            Json::Array(records) => tests is Some && tests.unwrap().deep_view() == records_tests(
                records,
            ),
            _ => tests is None,
        },
{
    match document.as_array() {
        None => None,
        Some(records) => {
            let ghost trees = json_trees(records@);
            let mut tests: Vec<ComplianceTest> = Vec::new();
            let mut i: usize = 0;
            while i < records.len()
                invariant
                    i <= records.len(),
                    trees == json_trees(records@),
                    tests.deep_view() =~= records_tests(trees.take(i as int)),
                decreases records.len() - i,
            {
                let ghost before = tests.deep_view();
                let test = test_from_record(&records[i]);
                tests.push(test);
                assert(tests.deep_view() =~= before.push(record_test(trees[i as int])));
                i += 1;
            }
            assert(trees.take(i as int) =~= trees);
            Some(tests)
        },
    }
}

/// What loading a document text yields, given what the text parses to.
pub open spec fn loads_to(content: Seq<char>, outcome: Result<Seq<TestModel>, Seq<char>>) -> bool {
    match json_parse(content) {
        Some(Json::Array(records)) => outcome == Ok::<Seq<TestModel>, Seq<char>>(
            records_tests(records),
        ),
        Some(_) => outcome == Err::<Seq<TestModel>, Seq<char>>(not_an_array_message()),
        None => outcome is Err && invalid_json_lead().is_prefix_of(outcome->Err_0),
    }
}

/// The test case with every field at its default.
pub open spec fn default_test() -> TestModel {
    TestModel {
        name: Seq::empty(),
        prompt: Seq::empty(),
        forbidden: Seq::empty(),
        expected_start: Seq::empty(),
    }
}

/// A field of a record takes its default whenever the record holds no value
/// of the right shape under the field's key: no string for the three texts,
/// no array of nothing but strings for the forbidden terms.
pub proof fn misshaped_fields_take_defaults(record: Json)
    ensures
        !(json_member(record, "name"@) is Text) ==> record_test(record).name == Seq::<char>::empty(),
        !(json_member(record, "prompt"@) is Text) ==> record_test(record).prompt == Seq::<
            char,
        >::empty(),
        !(json_member(record, "expected_start"@) is Text) ==> record_test(record).expected_start
            == Seq::<char>::empty(),
        !(json_member(record, "forbidden"@) is Array && all_texts(
            json_member(record, "forbidden"@)->Array_0,
        )) ==> record_test(record).forbidden == Seq::<Seq<char>>::empty(),
{
}

/// A list of nothing but strings declares each of them, in order.
pub proof fn list_of_strings_is_kept(items: Seq<Json>)
    requires
        all_texts(items),
    ensures
        forbidden_of(Json::Array(items)).len() == items.len(),
        forall|i: int|
            0 <= i < items.len() ==> Json::Text(#[trigger] forbidden_of(Json::Array(items))[i])
                == items[i],
{
}

/// A list that holds anything but strings declares nothing, whatever
/// strings stand beside it.
pub proof fn mixed_list_declares_nothing(items: Seq<Json>, i: int)
    requires
        0 <= i < items.len(),
        !(items[i] is Text),
    ensures
        forbidden_of(Json::Array(items)) == Seq::<Seq<char>>::empty(),
{
}

/// An element that is no object at all decodes to the default test case.
pub proof fn shapeless_record_is_default(record: Json)
    requires
        !(record is Object),
    ensures
        record_test(record) == default_test(),
{
}

/// A document that parses to an array always loads, whatever its elements
/// hold: one test case per element, in document order.
pub proof fn arrays_always_load(content: Seq<char>, outcome: Result<Seq<TestModel>, Seq<char>>)
    requires
        json_parse(content) is Some,
        json_parse(content)->Some_0 is Array,
        loads_to(content, outcome),
    ensures
        outcome is Ok,
        outcome->Ok_0.len() == json_parse(content)->Some_0->Array_0.len(),
        forall|i: int|
            0 <= i < outcome->Ok_0.len() ==> #[trigger] outcome->Ok_0[i] == record_test(
                json_parse(content)->Some_0->Array_0[i],
            ),
{
}

/// A text that does not parse never loads.
pub proof fn unparsable_never_loads(content: Seq<char>, outcome: Result<Seq<TestModel>, Seq<char>>)
    requires
        json_parse(content) is None,
        loads_to(content, outcome),
    ensures
        outcome is Err,
{
}

/// Loads the test cases from the text of the document that declares them.
///
/// An array yields one test case per element, in document order; an empty
/// array yields none. A text that is no JSON is refused with a message that
/// begins with "Invalid JSON format: " and goes on with the parser's words;
/// a JSON text that is no array is refused with a fixed message.
pub fn build_compliance_tests(json_content: &str) -> (r: Result<Vec<ComplianceTest>, String>)
    ensures
        loads_to(
            json_content@,
            match r {
                Ok(tests) => Ok(tests.deep_view()),
                Err(message) => Err(message@),
            },
        ),
{
    match parse_value(json_content) {
        Err(error) => {
            let mut message = String::from_str("Invalid JSON format: ");
            let cause = error_text(&error);
            message.append(cause.as_str());
            assert(invalid_json_lead().is_prefix_of(message@));
            Err(message)
        },
        Ok(document) => match tests_from_document(&document) {
            Some(tests) => Ok(tests),
            None => Err(String::from_str("Invalid JSON format: expected an array of test records")),
        },
    }
}

} // verus!
