use protocol_compoliance_score::{
    document_paths, summarize, Action, ComplianceTest, Event, Phase, RunError, Runner,
    TestResult, Transport,
};

/// An endpoint and a file system that exist only in memory.
struct World {
    files: Vec<(String, Result<String, String>)>,
    replies: Vec<Transport>,
    asked: Vec<String>,
    shown: Vec<String>,
}

fn world(files: &[(&str, Result<&str, &str>)], replies: Vec<Transport>) -> World {
    World {
        files: files
            .iter()
            .map(|(path, content)| {
                (
                    path.to_string(),
                    match content {
                        Ok(text) => Ok(text.to_string()),
                        Err(cause) => Err(cause.to_string()),
                    },
                )
            })
            .collect(),
        replies,
        asked: Vec::new(),
        shown: Vec::new(),
    }
}

fn replied(response: &str) -> Transport {
    let mut members = serde_json::Map::new();
    members.insert("response".to_string(), serde_json::Value::from(response));
    Transport::Replied(serde_json::Value::Object(members).to_string())
}

impl World {
    fn has(&self, path: &str) -> bool {
        self.files.iter().any(|(name, _)| name == path)
    }

    fn read(&self, path: &str) -> Result<String, String> {
        match self.files.iter().find(|(name, _)| name == path) {
            Some((_, content)) => content.clone(),
            None => Err("no such file".to_string()),
        }
    }

    fn ask(&mut self, prompt: String) -> Transport {
        self.asked.push(prompt);
        if self.replies.is_empty() {
            Transport::Failed
        } else {
            self.replies.remove(0)
        }
    }
}

fn drive(runner: &mut Runner, world: &mut World) -> Result<Vec<TestResult>, RunError> {
    let mut event = Event::Start;
    loop {
        assert!(runner.accepts(&event));
        let step = runner.step(event);
        world.shown.extend(step.lines);
        event = match step.action {
            Action::CheckDocuments { policy_path, spec_path } => Event::DocumentsChecked {
                policy_exists: world.has(&policy_path),
                spec_exists: world.has(&spec_path),
            },
            Action::ReadPolicy(path) => Event::PolicyRead(world.read(&path)),
            Action::ReadSpec(path) => Event::SpecRead(world.read(&path)),
            Action::Ask(prompt) => Event::Reply(world.ask(prompt)),
            Action::Finish => return Ok(runner.results().clone()),
            Action::Fail(error) => return Err(error),
        };
    }
}

fn run_protocol_compliance(args: &[String], world: &mut World) -> Result<(), String> {
    let (policy_path, spec_path) = document_paths(args);
    let mut runner = Runner::new(policy_path, spec_path);
    match drive(&mut runner, world) {
        Ok(_) => Ok(()),
        Err(error) => Err(error.message()),
    }
}

const ONE_TEST: &str = r#"[{"name":"t1","prompt":"p1","expected_start":"e1","forbidden":[]}]"#;

#[test]
fn test_missing_markdown_file() {
    let mut world = world(&[], vec![]);
    let args = vec!["bin".to_string(), "--protocol".to_string(), "missing_md".to_string()];
    let result = run_protocol_compliance(&args, &mut world);
    assert!(result.is_err());
    assert!(result.unwrap_err().contains("ERROR: Missing protocol markdown file"));
}

#[test]
fn test_missing_json_file() {
    let mut world = world(&[("MISSING_JSON.md", Ok("Protocol markdown content"))], vec![]);
    let args = vec!["bin".to_string(), "--protocol".to_string(), "MISSING_JSON".to_string()];
    let result = run_protocol_compliance(&args, &mut world);
    assert!(result.is_err());
    assert!(result.unwrap_err().contains("ERROR: Missing protocol JSON file"));
    assert!(world.asked.is_empty());
}

#[test]
fn test_failed_read_protocol_markdown() {
    let mut world = world(
        &[("BAD_READ.md", Err("Is a directory (os error 21)")), ("BAD_READ.json", Ok("[]"))],
        vec![],
    );
    let args = vec!["bin".to_string(), "--protocol".to_string(), "BAD_READ".to_string()];
    let result = run_protocol_compliance(&args, &mut world);
    assert!(result.is_err());
    assert!(result.unwrap_err().contains("Failed to read protocol markdown file"));
    assert!(world.asked.is_empty());
}

#[test]
fn test_missing_protocol_files() {
    let mut world = world(&[], vec![]);
    let args = vec!["bin".to_string(), "--protocol".to_string(), "nonexistent".to_string()];
    let result = run_protocol_compliance(&args, &mut world);
    assert!(result.is_err());
    assert!(result.unwrap_err().contains("ERROR: Missing protocol markdown file"));
}

#[test]
fn test_valid_protocol_files() {
    let mut world = world(
        &[("TEST_PROTOCOL.md", Ok("Protocol markdown content")), ("TEST_PROTOCOL.json", Ok(ONE_TEST))],
        vec![],
    );
    let args = vec!["bin".to_string(), "--protocol".to_string(), "TEST_PROTOCOL".to_string()];
    let result = run_protocol_compliance(&args, &mut world);
    assert!(result.is_ok());
}

#[test]
fn test_malformed_json_file() {
    let mut world = world(
        &[("EDGE_PROTOCOL.md", Ok("Protocol markdown content")), ("EDGE_PROTOCOL.json", Ok("not a json"))],
        vec![],
    );
    let args = vec!["bin".to_string(), "--protocol".to_string(), "EDGE_PROTOCOL".to_string()];
    let result = run_protocol_compliance(&args, &mut world);
    assert!(result.is_err());
    let err = result.unwrap_err();
    assert!(err.contains("Invalid JSON format") || err.contains("Failed to read protocol JSON file"));
}

#[test]
fn test_json_missing_fields() {
    let mut world = world(
        &[
            ("EDGE_PROTOCOL2.md", Ok("Protocol markdown content")),
            ("EDGE_PROTOCOL2.json", Ok(r#"[{"prompt":"p1"}]"#)),
        ],
        vec![],
    );
    let args = vec!["bin".to_string(), "--protocol".to_string(), "EDGE_PROTOCOL2".to_string()];
    let result = run_protocol_compliance(&args, &mut world);
    assert!(result.is_ok());
}

#[test]
fn test_cli_missing_files() {
    let mut world = world(&[], vec![]);
    let args = vec!["bin".to_string(), "--protocol".to_string(), "missing_cli".to_string()];
    let result = run_protocol_compliance(&args, &mut world);
    assert!(result.is_err());
    assert!(result.unwrap_err().contains("ERROR: Missing protocol markdown file"));
}

#[test]
fn test_cli_valid_files() {
    let document = "[{\"name\":\"t1\",\"prompt\":\"p1\",\"expected_start\":\"e1\",\"forbidden\":[]}]\n";
    let mut world = world(
        &[("CLI_PROTOCOL.md", Ok("Protocol markdown content")), ("CLI_PROTOCOL.json", Ok(document))],
        vec![],
    );
    let args = vec!["bin".to_string(), "--protocol".to_string(), "CLI_PROTOCOL".to_string()];
    let result = run_protocol_compliance(&args, &mut world);
    assert!(result.is_ok());
    assert!(world.shown.iter().any(|line| line.contains("Test: t1")));
}

#[test]
fn missing_policy_fails_before_any_call() {
    let mut world = world(&[("P.json", Ok(ONE_TEST))], vec![replied("e1")]);
    let mut runner = Runner::new("P.md".to_string(), "P.json".to_string());
    let error = drive(&mut runner, &mut world).unwrap_err();
    assert!(matches!(&error, RunError::MissingPolicyDocument(path) if path == "P.md"));
    assert_eq!(error.message(), "ERROR: Missing protocol markdown file: P.md");
    assert_eq!(world.asked.len(), 0);
    assert_eq!(runner.phase(), Phase::Failed);
    assert!(runner.results().is_empty());
    assert!(matches!(runner.failure(), Some(RunError::MissingPolicyDocument(_))));
}

#[test]
fn missing_policy_is_reported_before_missing_test_document() {
    let mut world = world(&[], vec![]);
    let mut runner = Runner::new("P.md".to_string(), "P.json".to_string());
    let error = drive(&mut runner, &mut world).unwrap_err();
    assert!(matches!(error, RunError::MissingPolicyDocument(_)));
}

#[test]
fn missing_test_document_fails_before_any_call() {
    let mut world = world(&[("P.md", Ok("policy"))], vec![]);
    let mut runner = Runner::new("P.md".to_string(), "P.json".to_string());
    let error = drive(&mut runner, &mut world).unwrap_err();
    assert!(matches!(&error, RunError::MissingSpecDocument(path) if path == "P.json"));
    assert_eq!(error.message(), "ERROR: Missing protocol JSON file: P.json");
    assert_eq!(world.asked.len(), 0);
}

#[test]
fn unreadable_policy_fails_before_any_call() {
    let mut world = world(&[("P.md", Err("denied")), ("P.json", Ok(ONE_TEST))], vec![]);
    let mut runner = Runner::new("P.md".to_string(), "P.json".to_string());
    let error = drive(&mut runner, &mut world).unwrap_err();
    assert!(matches!(&error, RunError::UnreadablePolicyDocument(cause) if cause == "denied"));
    assert_eq!(error.message(), "Failed to read protocol markdown file: denied");
    assert_eq!(world.asked.len(), 0);
}

#[test]
fn one_test_takes_two_calls_and_gives_one_result() {
    let mut world = world(
        &[("P.md", Ok("Be kind.")), ("P.json", Ok(ONE_TEST))],
        vec![replied("understood"), replied("e1 and more")],
    );
    let mut runner = Runner::new("P.md".to_string(), "P.json".to_string());
    let results = drive(&mut runner, &mut world).unwrap();
    assert_eq!(
        world.asked,
        vec!["You must enforce the following protocol:\nBe kind.".to_string(), "p1".to_string()]
    );
    assert_eq!(results.len(), 1);
    assert!(results[0].passed);
    assert_eq!(results[0].response, "e1 and more");
    assert_eq!(runner.phase(), Phase::Done);
    assert_eq!(runner.tests().len(), 1);
    assert!(runner.failure().is_none());
    assert_eq!(
        world.shown,
        vec![
            "=== PROTOCOL COMPLIANCE LIVE TESTER ===",
            "Initializing protocol enforcement...",
            "Protocol sent. Beginning compliance tests...",
            "",
            "Test: t1",
            "Result: PASS",
            "AI Response: e1 and more",
            "",
        ]
    );
}

#[test]
fn unreachable_endpoint_fails_the_test_and_not_the_batch() {
    let document = r#"[{"name":"a","prompt":"pa","expected_start":"Hi","forbidden":["error"]},
                       {"name":"b","prompt":"pb","expected_start":"","forbidden":[]}]"#;
    let mut world = world(
        &[("P.md", Ok("policy")), ("P.json", Ok(document))],
        vec![Transport::Failed, Transport::Failed, replied("fine")],
    );
    let mut runner = Runner::new("P.md".to_string(), "P.json".to_string());
    let results = drive(&mut runner, &mut world).unwrap();
    assert_eq!(world.asked.len(), 3);
    assert_eq!(results.len(), 2);
    assert!(!results[0].passed);
    assert_eq!(results[0].response, "ERROR: Could not connect to chat endpoint");
    assert_eq!(
        results[0].violations,
        vec![
            "Missing mandatory response format".to_string(),
            "Contains forbidden behavior: 'error'".to_string(),
        ]
    );
    assert!(results[1].passed);
    assert_eq!(
        &world.shown[4..],
        &[
            "Test: a",
            "Result: FAIL",
            "Violations:",
            "  - Missing mandatory response format",
            "  - Contains forbidden behavior: 'error'",
            "AI Response: ERROR: Could not connect to chat endpoint",
            "",
            "Test: b",
            "Result: PASS",
            "AI Response: fine",
            "",
        ]
    );
    let summary = summarize(&results);
    assert_eq!((summary.total, summary.passed, summary.failed), (2, 1, 1));
}

#[test]
fn results_keep_the_order_of_the_test_document() {
    let document = r#"[{"name":"1","prompt":"one"},{"name":"2","prompt":"two"},{"name":"3","prompt":"three"}]"#;
    let mut world = world(
        &[("P.md", Ok("policy")), ("P.json", Ok(document))],
        vec![replied(""), replied("r1"), replied("r2"), replied("r3")],
    );
    let mut runner = Runner::new("P.md".to_string(), "P.json".to_string());
    let results = drive(&mut runner, &mut world).unwrap();
    assert_eq!(&world.asked[1..], &["one", "two", "three"]);
    let responses: Vec<&str> = results.iter().map(|result| result.response.as_str()).collect();
    assert_eq!(responses, vec!["r1", "r2", "r3"]);
    assert_eq!(runner.into_results().len(), 3);
}

#[test]
fn empty_test_document_finishes_after_the_broadcast() {
    let mut world = world(&[("P.md", Ok("policy")), ("P.json", Ok("[]"))], vec![]);
    let mut runner = Runner::new("P.md".to_string(), "P.json".to_string());
    let results = drive(&mut runner, &mut world).unwrap();
    assert!(results.is_empty());
    assert_eq!(world.asked.len(), 1);
    assert_eq!(runner.phase(), Phase::Done);
}

#[test]
fn malformed_test_document_fails_before_the_broadcast() {
    for text in ["{\"a\":1}", "not a json", "", "[{\"name\":"] {
        let mut world = world(&[("P.md", Ok("policy")), ("P.json", Ok(text))], vec![replied("x")]);
        let mut runner = Runner::new("P.md".to_string(), "P.json".to_string());
        let error = drive(&mut runner, &mut world).unwrap_err();
        assert!(matches!(error, RunError::MalformedInput(_)));
        assert!(error.message().starts_with("Invalid JSON format: "));
        assert_eq!(world.asked.len(), 0);
        assert_eq!(runner.phase(), Phase::Failed);
        assert!(runner.results().is_empty());
        assert_eq!(world.shown, vec!["=== PROTOCOL COMPLIANCE LIVE TESTER ==="]);
    }
    let mut world = world(&[("P.md", Ok("policy")), ("P.json", Ok("{\"a\":1}"))], vec![]);
    let mut runner = Runner::new("P.md".to_string(), "P.json".to_string());
    let error = drive(&mut runner, &mut world).unwrap_err();
    assert_eq!(error.message(), "Invalid JSON format: expected an array of test records");
}

#[test]
fn unreadable_test_document_is_malformed_input() {
    let mut world = world(&[("P.md", Ok("policy")), ("P.json", Err("denied"))], vec![]);
    let mut runner = Runner::new("P.md".to_string(), "P.json".to_string());
    let error = drive(&mut runner, &mut world).unwrap_err();
    assert!(matches!(&error, RunError::MalformedInput(_)));
    assert_eq!(error.message(), "Failed to read protocol JSON file: denied");
    assert_eq!(world.asked.len(), 0);
}

#[test]
fn runner_accepts_only_the_event_it_waits_for() {
    let mut runner = Runner::new("P.md".to_string(), "P.json".to_string());
    assert_eq!(runner.phase(), Phase::Idle);
    assert!(runner.accepts(&Event::Start));
    assert!(!runner.accepts(&Event::Reply(Transport::Failed)));
    assert!(!runner.accepts(&Event::DocumentsChecked { policy_exists: true, spec_exists: true }));
    let step = runner.step(Event::Start);
    assert!(matches!(step.action, Action::CheckDocuments { .. }));
    assert_eq!(runner.phase(), Phase::ValidatingInputs);
    assert!(!runner.accepts(&Event::Start));
    assert!(!runner.accepts(&Event::PolicyRead(Ok(String::new()))));
    let step = runner.step(Event::DocumentsChecked { policy_exists: true, spec_exists: true });
    assert!(matches!(&step.action, Action::ReadPolicy(path) if path == "P.md"));
    assert_eq!(runner.phase(), Phase::ReadingPolicy);
    assert!(!runner.accepts(&Event::SpecRead(Ok(String::new()))));
    let step = runner.step(Event::PolicyRead(Ok("text".to_string())));
    assert!(matches!(&step.action, Action::ReadSpec(path) if path == "P.json"));
    assert!(step.lines.is_empty());
    assert_eq!(runner.phase(), Phase::LoadingTests);
    assert!(!runner.accepts(&Event::Reply(Transport::Failed)));
    let step = runner.step(Event::SpecRead(Ok(ONE_TEST.to_string())));
    assert!(matches!(
        &step.action,
        Action::Ask(prompt) if prompt == "You must enforce the following protocol:\ntext"
    ));
    assert_eq!(step.lines, vec!["Initializing protocol enforcement..."]);
    assert_eq!(runner.phase(), Phase::PolicyBroadcast);
    assert!(!runner.accepts(&Event::SpecRead(Ok(String::new()))));
    let step = runner.step(Event::Reply(Transport::Failed));
    assert!(matches!(&step.action, Action::Ask(prompt) if prompt == "p1"));
    assert_eq!(step.lines, vec!["Protocol sent. Beginning compliance tests...", "", "Test: t1"]);
    assert_eq!(runner.phase(), Phase::Iterating);
    let step = runner.step(Event::Reply(replied("e1")));
    assert!(matches!(step.action, Action::Finish));
    assert_eq!(runner.phase(), Phase::Done);
    assert!(!runner.accepts(&Event::Start));
    assert!(!runner.accepts(&Event::Reply(Transport::Failed)));
}

fn runner_waiting_for_tests(policy: &str) -> Runner {
    let mut runner = Runner::new("P.md".to_string(), "P.json".to_string());
    runner.step(Event::Start);
    runner.step(Event::DocumentsChecked { policy_exists: true, spec_exists: true });
    runner.step(Event::PolicyRead(Ok(policy.to_string())));
    assert_eq!(runner.phase(), Phase::LoadingTests);
    runner
}

#[test]
fn given_tests_and_responses_are_scored_in_turn() {
    let tests = vec![
        ComplianceTest {
            name: "first".to_string(),
            prompt: "one".to_string(),
            forbidden: vec!["No".to_string()],
            expected_start: "Yes".to_string(),
        },
        ComplianceTest {
            name: "second".to_string(),
            prompt: "two".to_string(),
            forbidden: vec![],
            expected_start: String::new(),
        },
    ];
    let mut runner = runner_waiting_for_tests("Be kind.");
    let step = runner.begin_tests(tests);
    assert!(matches!(
        &step.action,
        Action::Ask(prompt) if prompt == "You must enforce the following protocol:\nBe kind."
    ));
    assert_eq!(runner.phase(), Phase::PolicyBroadcast);
    assert_eq!(runner.tests().len(), 2);
    let step = runner.step(Event::Reply(replied("whatever")));
    assert!(matches!(&step.action, Action::Ask(prompt) if prompt == "one"));
    assert_eq!(runner.phase(), Phase::Iterating);
    let step = runner.take_response("Yes, but NO".to_string());
    assert!(matches!(&step.action, Action::Ask(prompt) if prompt == "two"));
    assert_eq!(
        step.lines,
        vec![
            "Result: FAIL",
            "Violations:",
            "  - Contains forbidden behavior: 'No'",
            "AI Response: Yes, but NO",
            "",
            "Test: second",
        ]
    );
    assert_eq!(runner.phase(), Phase::Iterating);
    let step = runner.take_response("anything".to_string());
    assert!(matches!(step.action, Action::Finish));
    assert_eq!(step.lines, vec!["Result: PASS", "AI Response: anything", ""]);
    assert_eq!(runner.phase(), Phase::Done);
    let results = runner.into_results();
    assert_eq!(results.len(), 2);
    assert!(!results[0].passed);
    assert!(results[1].passed);
}

#[test]
fn no_given_tests_finish_after_the_broadcast() {
    let mut runner = runner_waiting_for_tests("policy");
    let step = runner.begin_tests(Vec::new());
    assert!(matches!(step.action, Action::Ask(_)));
    let step = runner.step(Event::Reply(Transport::Failed));
    assert!(matches!(step.action, Action::Finish));
    assert_eq!(step.lines, vec!["Protocol sent. Beginning compliance tests...", ""]);
    assert_eq!(runner.phase(), Phase::Done);
}

#[test]
fn document_paths_follow_the_arguments() {
    let args = |list: &[&str]| list.iter().map(|a| a.to_string()).collect::<Vec<String>>();
    let default = ("COMMUNICATION_PROTOCOL.md".to_string(), "COMMUNICATION_PROTOCOL.json".to_string());
    assert_eq!(document_paths(&args(&["bin", "--protocol", "X"])), ("X.md".to_string(), "X.json".to_string()));
    assert_eq!(document_paths(&args(&["bin", "--protocol", "dir/Y", "more"])), ("dir/Y.md".to_string(), "dir/Y.json".to_string()));
    assert_eq!(document_paths(&args(&[])), default);
    assert_eq!(document_paths(&args(&["bin"])), default);
    assert_eq!(document_paths(&args(&["bin", "--protocol"])), default);
    assert_eq!(document_paths(&args(&["bin", "--other", "X"])), default);
    assert_eq!(document_paths(&args(&["bin", "X", "--protocol"])), default);
}
