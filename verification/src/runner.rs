//! The compliance runner, as a state machine.
//!
//! The runner decides; its driver acts. Each [`Step`] names one thing for the
//! driver to do (look for the documents, read one, put a prompt to the
//! endpoint) and carries the lines to show before doing it. The driver
//! answers with the matching [`Event`], and so on until the runner says
//! [`Action::Finish`] or [`Action::Fail`].
//!
//! Both documents are found, read and decoded before anything is put to the
//! endpoint: a run that is given up has asked nothing.

use vstd::prelude::*;
use vstd::string::StringExecFns;
use crate::endpoint::{reply_response, response_text, Transport};
use crate::errors::{unreadable_spec_message, ErrorModel, RunError};
use crate::evaluator::{evaluate_response, evaluation};
use crate::loader::{build_compliance_tests, loads_to};
use crate::model::{ComplianceTest, ResultModel, TestModel, TestResult};
use crate::progress::{
    announce_line, banner_line, broadcast_prompt, lines_of_result, primed_line, priming_line,
    result_lines,
};
use crate::seqs::{filter_of_none, filter_take_step};
use crate::text::joined;

verus! {

/// Where a run stands.
#[derive(Debug, Clone, Copy, PartialEq, Eq)]
pub enum Phase {
    /// Nothing has happened yet.
    Idle,
    /// Waiting to hear whether the two documents exist.
    ValidatingInputs,
    /// Waiting for the text of the policy document.
    ReadingPolicy,
    /// Waiting for the text of the test document.
    LoadingTests,
    /// The policy is with the endpoint; waiting for its reply.
    PolicyBroadcast,
    /// A test case is with the endpoint; waiting for its reply.
    Iterating,
    /// Every test case has its verdict.
    Done,
    /// The run was given up.
    Failed,
}

/// What the driver reports back.
#[derive(Debug)]
pub enum Event {
    /// The run is to begin.
    Start,
    /// Whether each document exists.
    DocumentsChecked { policy_exists: bool, spec_exists: bool },
    /// The text of the policy document, or why it could not be read.
    PolicyRead(Result<String, String>),
    /// The text of the test document, or why it could not be read.
    SpecRead(Result<String, String>),
    /// What the transport brought back for the prompt last asked.
    Reply(Transport),
}

/// What the driver is to do next.
#[derive(Debug)]
pub enum Action {
    /// Find out whether the two documents exist.
    CheckDocuments { policy_path: String, spec_path: String },
    /// Read the policy document at this path as text.
    ReadPolicy(String),
    /// Put this prompt to the endpoint.
    Ask(String),
    /// Read the test document at this path as text.
    ReadSpec(String),
    /// The run is complete; the verdicts can be collected.
    Finish,
    /// The run is given up for this reason.
    Fail(RunError),
}

/// Mathematical value of an [`Action`].
pub ghost enum ActionModel {
    CheckDocuments { policy_path: Seq<char>, spec_path: Seq<char> },
    ReadPolicy(Seq<char>),
    Ask(Seq<char>),
    ReadSpec(Seq<char>),
    Finish,
    Fail(ErrorModel),
}

impl View for Action {
    type V = ActionModel;

    open spec fn view(&self) -> ActionModel {
        match self {
            Action::CheckDocuments { policy_path, spec_path } => ActionModel::CheckDocuments {
                policy_path: policy_path@,
                spec_path: spec_path@,
            },
            Action::ReadPolicy(path) => ActionModel::ReadPolicy(path@),
            Action::Ask(prompt) => ActionModel::Ask(prompt@),
            Action::ReadSpec(path) => ActionModel::ReadSpec(path@),
            Action::Finish => ActionModel::Finish,
            Action::Fail(error) => ActionModel::Fail(error@),
        }
    }
}

/// One move of the runner: lines of live progress, then an action.
#[derive(Debug)]
pub struct Step {
    /// The lines to show, in order, before acting.
    pub lines: Vec<String>,
    /// What to do next.
    pub action: Action,
}

/// Mathematical value of a [`Step`].
pub ghost struct StepModel {
    pub lines: Seq<Seq<char>>,
    pub action: ActionModel,
}

impl View for Step {
    type V = StepModel;

    open spec fn view(&self) -> StepModel {
        StepModel { lines: self.lines.deep_view(), action: self.action@ }
    }
}

/// Mathematical value of a [`Runner`].
pub ghost struct RunnerModel {
    pub phase: Phase,
    pub policy_path: Seq<char>,
    pub spec_path: Seq<char>,
    pub policy: Seq<char>,
    pub tests: Seq<TestModel>,
    pub results: Seq<ResultModel>,
    pub failure: Option<ErrorModel>,
}

impl RunnerModel {
    /// The state before anything has happened.
    pub open spec fn initial(policy_path: Seq<char>, spec_path: Seq<char>) -> RunnerModel {
        RunnerModel {
            phase: Phase::Idle,
            policy_path,
            spec_path,
            policy: Seq::empty(),
            tests: Seq::empty(),
            results: Seq::empty(),
            failure: None,
        }
    }

    /// What holds of every state a run can be in: verdicts exist for a leading
    /// part of the test cases, each the verdict of its own test case on the
    /// response it records; while the policy is with the endpoint there is
    /// no verdict yet, while iterating a test case is still open, and when
    /// done none is; before the test cases are loaded, and after a failure,
    /// there are none.
    pub open spec fn wf(self) -> bool {
        &&& self.results.len() <= self.tests.len()
        &&& forall|k: int|
            0 <= k < self.results.len() ==> #[trigger] self.results[k] == evaluation(
                self.tests[k],
                self.results[k].response,
            )
        &&& match self.phase {
            Phase::PolicyBroadcast => self.results.len() == 0,
            Phase::Iterating => self.results.len() < self.tests.len(),
            Phase::Done => self.results.len() == self.tests.len(),
            _ => self.tests.len() == 0,
        }
        &&& (self.phase == Phase::Failed <==> self.failure is Some)
    }

    /// How many prompts have been handed to the driver for the endpoint on
    /// the way to this state.
    pub open spec fn calls_issued(self) -> nat {
        match self.phase {
            Phase::Idle
            | Phase::ValidatingInputs
            | Phase::ReadingPolicy
            | Phase::LoadingTests
            | Phase::Failed => 0,
            Phase::PolicyBroadcast => 1,
            Phase::Iterating => self.results.len() + 2,
            Phase::Done => self.tests.len() + 1,
        }
    }
}

/// The run is given up.
pub open spec fn gives_up(s: RunnerModel, error: ErrorModel) -> (RunnerModel, StepModel) {
    (
        RunnerModel { phase: Phase::Failed, failure: Some(error), ..s },
        StepModel { lines: Seq::empty(), action: ActionModel::Fail(error) },
    )
}

/// From idle: show the banner and ask whether the documents exist.
pub open spec fn on_start(s: RunnerModel) -> (RunnerModel, StepModel) {
    (
        RunnerModel { phase: Phase::ValidatingInputs, ..s },
        StepModel {
            lines: seq![banner_line()],
            action: ActionModel::CheckDocuments {
                policy_path: s.policy_path,
                spec_path: s.spec_path,
            },
        },
    )
}

/// On hearing which documents exist: a missing policy document ends the run,
/// else a missing test document does, else the policy is read.
pub open spec fn on_documents_checked(s: RunnerModel, policy_exists: bool, spec_exists: bool) -> (
    RunnerModel,
    StepModel,
) {
    if !policy_exists {
        gives_up(s, ErrorModel::MissingPolicyDocument(s.policy_path))
    } else if !spec_exists {
        gives_up(s, ErrorModel::MissingSpecDocument(s.spec_path))
    } else {
        (
            RunnerModel { phase: Phase::ReadingPolicy, ..s },
            StepModel { lines: Seq::empty(), action: ActionModel::ReadPolicy(s.policy_path) },
        )
    }
}

/// On the policy text: it is kept, and the test document is read. A policy
/// that could not be read ends the run.
pub open spec fn on_policy_read(s: RunnerModel, outcome: Result<Seq<char>, Seq<char>>) -> (
    RunnerModel,
    StepModel,
) {
    match outcome {
        Err(cause) => gives_up(s, ErrorModel::UnreadablePolicyDocument(cause)),
        Ok(policy) => (
            RunnerModel { phase: Phase::LoadingTests, policy, ..s },
            StepModel { lines: Seq::empty(), action: ActionModel::ReadSpec(s.spec_path) },
        ),
    }
}

/// On the loaded test cases: they are kept, and the policy is sent to the
/// endpoint once, behind the instruction to enforce it. A document that
/// could not be loaded ends the run with nothing asked.
pub open spec fn on_tests_loaded(s: RunnerModel, loaded: Result<Seq<TestModel>, Seq<char>>) -> (
    RunnerModel,
    StepModel,
) {
    match loaded {
        Err(description) => gives_up(s, ErrorModel::MalformedInput(description)),
        Ok(tests) => (
            RunnerModel { phase: Phase::PolicyBroadcast, tests, ..s },
            StepModel {
                lines: seq![priming_line()],
                action: ActionModel::Ask(broadcast_prompt(s.policy)),
            },
        ),
    }
}

/// On the reply to the policy: whatever it is, it is dropped. The first test
/// case is announced and asked; with none the run is done at once.
pub open spec fn on_broadcast_reply(s: RunnerModel) -> (RunnerModel, StepModel) {
    if s.tests.len() == 0 {
        (
            RunnerModel { phase: Phase::Done, ..s },
            StepModel { lines: seq![primed_line(), Seq::empty()], action: ActionModel::Finish },
        )
    } else {
        (
            RunnerModel { phase: Phase::Iterating, ..s },
            StepModel {
                lines: seq![primed_line(), Seq::empty(), announce_line(s.tests[0])],
                action: ActionModel::Ask(s.tests[0].prompt),
            },
        )
    }
}

/// On the response to the open test case: its verdict joins the results and
/// is reported; then the next test case is announced and asked, or the run
/// is done.
pub open spec fn on_test_reply(s: RunnerModel, response: Seq<char>) -> (RunnerModel, StepModel) {
    let open_test = s.results.len() as int;
    let result = evaluation(s.tests[open_test], response);
    let results = s.results.push(result);
    if open_test + 1 < s.tests.len() {
        let next = s.tests[open_test + 1];
        (
            RunnerModel { phase: Phase::Iterating, results, ..s },
            StepModel {
                lines: result_lines(result).push(announce_line(next)),
                action: ActionModel::Ask(next.prompt),
            },
        )
    } else {
        (
            RunnerModel { phase: Phase::Done, results, ..s },
            StepModel { lines: result_lines(result), action: ActionModel::Finish },
        )
    }
}

/// The event is the one that the state waits for.
pub open spec fn expects(s: RunnerModel, event: Event) -> bool {
    match s.phase {
        Phase::Idle => event is Start,
        Phase::ValidatingInputs => event is DocumentsChecked,
        Phase::ReadingPolicy => event is PolicyRead,
        Phase::LoadingTests => event is SpecRead,
        Phase::PolicyBroadcast => event is Reply,
        Phase::Iterating => event is Reply,
        Phase::Done | Phase::Failed => false,
    }
}

/// The moves of the machine: from `pre`, on `event`, to `post` with `step`.
pub open spec fn transition(pre: RunnerModel, event: Event, post: RunnerModel, step: StepModel)
    -> bool {
    match event {
        Event::Start => pre.phase == Phase::Idle && (post, step) == on_start(pre),
        Event::DocumentsChecked { policy_exists, spec_exists } => pre.phase
            == Phase::ValidatingInputs && (post, step) == on_documents_checked(
            pre,
            policy_exists,
            spec_exists,
        ),
        Event::PolicyRead(outcome) => pre.phase == Phase::ReadingPolicy && (post, step)
            == on_policy_read(
            pre,
            match outcome {
                Ok(policy) => Ok(policy@),
                Err(cause) => Err(cause@),
            },
        ),
        Event::SpecRead(outcome) => pre.phase == Phase::LoadingTests && match outcome {
            Ok(content) => exists|loaded: Result<Seq<TestModel>, Seq<char>>|
                #[trigger] loads_to(content@, loaded) && (post, step) == on_tests_loaded(
                    pre,
                    loaded,
                ),
            Err(cause) => (post, step) == on_tests_loaded(
                pre,
                Err(unreadable_spec_message(cause@)),
            ),
        },
        Event::Reply(reply) => match pre.phase {
            Phase::PolicyBroadcast => (post, step) == on_broadcast_reply(pre),
            Phase::Iterating => (post, step) == on_test_reply(pre, reply_response(reply)),
            _ => false,
        },
    }
}

/// A run in progress.
#[derive(Debug)]
pub struct Runner {
    phase: Phase,
    policy_path: String,
    spec_path: String,
    policy: String,
    tests: Vec<ComplianceTest>,
    results: Vec<TestResult>,
    failure: Option<RunError>,
}

impl View for Runner {
    type V = RunnerModel;

    closed spec fn view(&self) -> RunnerModel {
        RunnerModel {
            phase: self.phase,
            policy_path: self.policy_path@,
            spec_path: self.spec_path@,
            policy: self.policy@,
            tests: self.tests.deep_view(),
            results: self.results.deep_view(),
            failure: match self.failure {
                Some(error) => Some(error@),
                None => None,
            },
        }
    }
}

impl Runner {
    /// A run that has not begun, for the documents at the two paths.
    pub fn new(policy_path: String, spec_path: String) -> (runner: Runner)
        ensures
            runner@ == RunnerModel::initial(policy_path@, spec_path@),
            runner@.wf(),
    {
        let runner = Runner {
            phase: Phase::Idle,
            policy_path,
            spec_path,
            policy: String::new(),
            tests: Vec::new(),
            results: Vec::new(),
            failure: None,
        };
        assert(runner.tests.deep_view() =~= Seq::<TestModel>::empty());
        assert(runner.results.deep_view() =~= Seq::<ResultModel>::empty());
        runner
    }

    /// Where the run stands.
    pub fn phase(&self) -> (phase: Phase)
        ensures
            phase == self@.phase,
    {
        self.phase
    }

    /// The test cases loaded; none before they are.
    pub fn tests(&self) -> (tests: &Vec<ComplianceTest>)
        ensures
            tests.deep_view() == self@.tests,
    {
        &self.tests
    }

    /// The verdicts so far, in the order of the test cases.
    pub fn results(&self) -> (results: &Vec<TestResult>)
        ensures
            results.deep_view() == self@.results,
    {
        &self.results
    }

    /// The verdicts so far, handed over.
    pub fn into_results(self) -> (results: Vec<TestResult>)
        ensures
            results.deep_view() == self@.results,
    {
        self.results
    }

    /// Why the run was given up, if it was.
    pub fn failure(&self) -> (failure: &Option<RunError>)
        ensures
            match *failure {
                Some(error) => self@.failure == Some(error@),
                None => self@.failure is None,
            },
    {
        &self.failure
    }

    /// Whether `event` is the one this run waits for.
    pub fn accepts(&self, event: &Event) -> (yes: bool)
        ensures
            yes == expects(self@, *event),
    {
        match self.phase {
            Phase::Idle => matches!(event, Event::Start),
            Phase::ValidatingInputs => matches!(event, Event::DocumentsChecked { .. }),
            Phase::ReadingPolicy => matches!(event, Event::PolicyRead(_)),
            Phase::PolicyBroadcast => matches!(event, Event::Reply(_)),
            Phase::LoadingTests => matches!(event, Event::SpecRead(_)),
            Phase::Iterating => matches!(event, Event::Reply(_)),
            Phase::Done => false,
            Phase::Failed => false,
        }
    }

    /// Gives the run up for `error`.
    fn give_up(&mut self, error: RunError) -> (step: Step)
        requires
            old(self)@.wf(),
            old(self)@.tests.len() == 0,
        ensures
            (final(self)@, step@) == gives_up(old(self)@, error@),
            final(self)@.wf(),
    {
        let reported = match &error {
            RunError::MissingPolicyDocument(path) => RunError::MissingPolicyDocument(path.clone()),
            RunError::MissingSpecDocument(path) => RunError::MissingSpecDocument(path.clone()),
            RunError::UnreadablePolicyDocument(cause) => RunError::UnreadablePolicyDocument(
                cause.clone(),
            ),
            RunError::MalformedInput(description) => RunError::MalformedInput(
                description.clone(),
            ),
        };
        self.phase = Phase::Failed;
        self.failure = Some(error);
        let lines: Vec<String> = Vec::new();
        assert(lines.deep_view() =~= Seq::<Seq<char>>::empty());
        Step { lines, action: Action::Fail(reported) }
    }

    /// Takes the loaded test cases in and sends the policy. For a run that
    /// waits for its test document.
    pub fn begin_tests(&mut self, tests: Vec<ComplianceTest>) -> (step: Step)
        requires
            old(self)@.wf(),
            old(self)@.phase == Phase::LoadingTests,
        ensures
            (final(self)@, step@) == on_tests_loaded(
                old(self)@,
                Ok::<Seq<TestModel>, Seq<char>>(tests.deep_view()),
            ),
            final(self)@.wf(),
    {
        let mut lines: Vec<String> = Vec::new();
        lines.push(String::from_str("Initializing protocol enforcement..."));
        assert(lines.deep_view() =~= seq![priming_line()]);
        let prompt = joined("You must enforce the following protocol:\n", self.policy.as_str());
        self.tests = tests;
        self.phase = Phase::PolicyBroadcast;
        Step { lines, action: Action::Ask(prompt) }
    }

    /// Moves on from the policy to the first test case, or finishes.
    fn begin_iterating(&mut self) -> (step: Step)
        requires
            old(self)@.wf(),
            old(self)@.phase == Phase::PolicyBroadcast,
        ensures
            (final(self)@, step@) == on_broadcast_reply(old(self)@),
            final(self)@.wf(),
    {
        let mut lines: Vec<String> = Vec::new();
        lines.push(String::from_str("Protocol sent. Beginning compliance tests..."));
        lines.push(String::new());
        if self.tests.len() == 0 {
            self.phase = Phase::Done;
            assert(lines.deep_view() =~= seq![primed_line(), Seq::empty()]);
            Step { lines, action: Action::Finish }
        } else {
            let first = &self.tests[0];
            lines.push(joined("Test: ", first.name.as_str()));
            let prompt = first.prompt.clone();
            assert(lines.deep_view() =~= seq![
                primed_line(),
                Seq::empty(),
                announce_line(first@),
            ]);
            self.phase = Phase::Iterating;
            Step { lines, action: Action::Ask(prompt) }
        }
    }

    /// Scores the response to the open test case and moves on. For a run
    /// that waits for the reply to a test case.
    pub fn take_response(&mut self, response: String) -> (step: Step)
        requires
            old(self)@.wf(),
            old(self)@.phase == Phase::Iterating,
        ensures
            (final(self)@, step@) == on_test_reply(old(self)@, response@),
            final(self)@.wf(),
    {
        let open_test = self.results.len();
        let total = self.tests.len();
        assert(open_test < total);
        let result = evaluate_response(&self.tests[open_test], response.as_str());
        let mut lines = lines_of_result(&result);
        let ghost before = self.results.deep_view();
        self.results.push(result);
        assert(self.results.deep_view() =~= before.push(result@));
        if open_test + 1 < total {
            let next = &self.tests[open_test + 1];
            let ghost reported = lines.deep_view();
            lines.push(joined("Test: ", next.name.as_str()));
            assert(lines.deep_view() =~= reported.push(announce_line(next@)));
            let prompt = next.prompt.clone();
            Step { lines, action: Action::Ask(prompt) }
        } else {
            self.phase = Phase::Done;
            Step { lines, action: Action::Finish }
        }
    }

    /// Makes the move that `event` calls for: updates the run and says what
    /// the driver is to show and do next.
    pub fn step(&mut self, event: Event) -> (step: Step)
        requires
            old(self)@.wf(),
            expects(old(self)@, event),
        ensures
            transition(old(self)@, event, final(self)@, step@),
            final(self)@.wf(),
    {
        let mut lines: Vec<String> = Vec::new();
        match event {
            Event::Start => {
                self.phase = Phase::ValidatingInputs;
                lines.push(String::from_str("=== PROTOCOL COMPLIANCE LIVE TESTER ==="));
                assert(lines.deep_view() =~= seq![banner_line()]);
                Step {
                    lines,
                    action: Action::CheckDocuments {
                        policy_path: self.policy_path.clone(),
                        spec_path: self.spec_path.clone(),
                    },
                }
            },
            Event::DocumentsChecked { policy_exists, spec_exists } => {
                if !policy_exists {
                    let path = self.policy_path.clone();
                    self.give_up(RunError::MissingPolicyDocument(path))
                } else if !spec_exists {
                    let path = self.spec_path.clone();
                    self.give_up(RunError::MissingSpecDocument(path))
                } else {
                    self.phase = Phase::ReadingPolicy;
                    assert(lines.deep_view() =~= Seq::<Seq<char>>::empty());
                    Step { lines, action: Action::ReadPolicy(self.policy_path.clone()) }
                }
            },
            Event::PolicyRead(outcome) => match outcome {
                Err(cause) => self.give_up(RunError::UnreadablePolicyDocument(cause)),
                Ok(policy) => {
                    self.policy = policy;
                    self.phase = Phase::LoadingTests;
                    assert(lines.deep_view() =~= Seq::<Seq<char>>::empty());
                    Step { lines, action: Action::ReadSpec(self.spec_path.clone()) }
                },
            },
            Event::SpecRead(outcome) => match outcome {
                Err(cause) => {
                    let description = joined("Failed to read protocol JSON file: ", cause.as_str());
                    self.give_up(RunError::MalformedInput(description))
                },
                Ok(content) => match build_compliance_tests(content.as_str()) {
                    Err(description) => {
                        assert(loads_to(content@, Err::<Seq<TestModel>, Seq<char>>(description@)));
                        self.give_up(RunError::MalformedInput(description))
                    },
                    Ok(tests) => {
                        assert(loads_to(
                            content@,
                            Ok::<Seq<TestModel>, Seq<char>>(tests.deep_view()),
                        ));
                        self.begin_tests(tests)
                    },
                },
            },
            Event::Reply(reply) => match self.phase {
                Phase::PolicyBroadcast => self.begin_iterating(),
                _ => {
                    let response = response_text(&reply);
                    self.take_response(response)
                },
            },
        }
    }
}

/// Every move keeps the state well formed.
pub proof fn transition_keeps_wf(
    pre: RunnerModel,
    event: Event,
    post: RunnerModel,
    step: StepModel,
)
    requires
        pre.wf(),
        transition(pre, event, post, step),
    ensures
        post.wf(),
{
}

/// Every prompt handed out for the endpoint is counted, and nothing else is:
/// a move raises the count by one exactly when its action is to ask.
pub proof fn asks_are_counted(pre: RunnerModel, event: Event, post: RunnerModel, step: StepModel)
    requires
        pre.wf(),
        transition(pre, event, post, step),
    ensures
        post.calls_issued() == pre.calls_issued() + if step.action is Ask {
            1nat
        } else {
            0nat
        },
{
}

/// A run that is given up, for whichever reason, has put nothing to the
/// endpoint; a missing policy document is reported whether or not the test
/// document is there.
pub proof fn validation_precedes_calls(
    pre: RunnerModel,
    event: Event,
    post: RunnerModel,
    step: StepModel,
)
    requires
        pre.wf(),
        transition(pre, event, post, step),
    ensures
        post.failure is Some ==> post.calls_issued() == 0,
        step.action is Fail ==> post.calls_issued() == 0,
        (pre.phase == Phase::ValidatingInputs && event is DocumentsChecked
            && !event->policy_exists) ==> {
            &&& step.action == ActionModel::Fail(
                ErrorModel::MissingPolicyDocument(pre.policy_path),
            )
            &&& post.phase == Phase::Failed
            &&& post.calls_issued() == 0
        },
{
}

/// A finished run has put the policy and each test case to the endpoint
/// once, and holds one verdict per test case, in the order of the test
/// cases, each the verdict of its test case on the response recorded.
pub proof fn finished_run_is_complete(s: RunnerModel)
    requires
        s.wf(),
        s.phase == Phase::Done,
    ensures
        s.calls_issued() == s.tests.len() + 1,
        s.results.len() == s.tests.len(),
        forall|k: int|
            0 <= k < s.tests.len() ==> #[trigger] s.results[k] == evaluation(
                s.tests[k],
                s.results[k].response,
            ),
        forall|k: int| 0 <= k < s.results.len() ==> (#[trigger] s.results[k]).wf(),
{
}

/// A run so far: the states it passed through from idle, the events that
/// moved it, and the steps it made, one per event.
pub open spec fn is_run(states: Seq<RunnerModel>, events: Seq<Event>, steps: Seq<StepModel>)
    -> bool {
    &&& states.len() == events.len() + 1
    &&& steps.len() == events.len()
    &&& states[0].phase == Phase::Idle
    &&& states[0].wf()
    &&& forall|i: int|
        0 <= i < events.len() ==> transition(
            states[i],
            events[i],
            states[i + 1],
            #[trigger] steps[i],
        )
}

/// How many of the steps put a prompt to the endpoint.
pub open spec fn asks_among(steps: Seq<StepModel>) -> nat {
    steps.filter(|step: StepModel| step.action is Ask).len()
}

/// Over a whole run the prompts put to the endpoint are exactly those the
/// last state counts. So a run that is done has asked once for the policy and
/// once per test case and holds one verdict per test case; and a run that
/// was given up, for a missing, unreadable or malformed document, has asked
/// nothing.
pub proof fn run_asks_what_it_counts(
    states: Seq<RunnerModel>,
    events: Seq<Event>,
    steps: Seq<StepModel>,
)
    requires
        is_run(states, events, steps),
    ensures
        states.last().wf(),
        asks_among(steps) == states.last().calls_issued(),
        states.last().phase == Phase::Done ==> {
            &&& asks_among(steps) == states.last().tests.len() + 1
            &&& states.last().results.len() == states.last().tests.len()
        },
        states.last().failure is Some ==> asks_among(steps) == 0,
    decreases events.len(),
{
    let asking = |step: StepModel| step.action is Ask;
    if events.len() == 0 {
        filter_of_none(steps, asking);
    } else {
        let n = events.len() - 1;
        let earlier_states = states.take(n + 1);
        let earlier_events = events.take(n);
        let earlier_steps = steps.take(n);
        assert forall|i: int| 0 <= i < earlier_events.len() implies transition(
            earlier_states[i],
            earlier_events[i],
            earlier_states[i + 1],
            #[trigger] earlier_steps[i],
        ) by {
            assert(transition(states[i], events[i], states[i + 1], steps[i]));
        }
        run_asks_what_it_counts(earlier_states, earlier_events, earlier_steps);
        assert(earlier_states.last() == states[n]);
        assert(transition(states[n], events[n], states[n + 1], steps[n]));
        transition_keeps_wf(states[n], events[n], states[n + 1], steps[n]);
        asks_are_counted(states[n], events[n], states[n + 1], steps[n]);
        filter_take_step(steps, asking, n);
        assert(steps.take(n + 1) =~= steps);
    }
}

} // verus!
