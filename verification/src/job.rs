//! The judge loop, as a machine. A job never does anything to the world
//! itself: each turn it says what is to be done next, and it is told how that
//! went. Whoever drives the job loads problems and toolchains, talks to the
//! sandbox service and to the valuer, reads and writes files.

use crate::compile::{
    build_outcome, build_request, command_position, compile_limits, compile_request,
    compile_request_failure, read_build, BuildOutcome, BuildOutcomeView, };
use crate::error::{Error, ErrorKind};
use crate::exec_test::{
    create_request, exec_outcome, request_failure, test_outcome, test_request, test_step_ids,
    ExecOutcome, ExecOutcomeView, StepIds, TestFiles, CHECKER_LOG,
};
use crate::invoke::{InvokeRequest, InvokeRequestView, InvokeResponse};
use crate::judge_log::JudgeLog;
use crate::problem::{Problem, TestId, Valuer};
use crate::processor::{
    fake_events, fill_is_complete, missing_kinds_are_new, resolved, unsent_kinds, Event, EventView,
    FileRefResolver, JudgeOutcome, JudgeOutcomeView, ProtocolSender, Request, Settings,
};
use crate::request_builder::{output_bytes, RequestBuilder};
use crate::text::{copy_texts, decimal, decimal_string};
use crate::toolchain_loader::Toolchain;
use crate::status_codes;
use crate::judge_log::{JudgeLogSubtaskRow, JudgeLogView};
use crate::sorting::{is_sorted, key_of};
use crate::transform_judge_log::{
    all_payloads_decode, find_outcome, first_outcome, has_test, row_number, transform,
    transformed, transformed_is_sorted, RowAssets,
};
use crate::valuer::{
    JudgeLogKind, ProblemInfo, Status, StatusKind, StatusView, TestDoneNotification,
    ValuerResponse, ANSWER, TEST_DATA,
};
use crate::valuer_client::{ChildClientConfig, ChildClientConfigView, ClientConfig};
use vstd::prelude::*;

verus! {

/// The files that a row of a log needs, by their paths.
#[derive(Debug, PartialEq, Eq)]
pub struct RowPlan {
    pub test_data: Option<String>,
    pub answer: Option<String>,
}

pub struct RowPlanView {
    pub test_data: Option<Seq<char>>,
    pub answer: Option<Seq<char>>,
}

impl DeepView for RowPlan {
    type V = RowPlanView;

    open spec fn deep_view(&self) -> RowPlanView {
        RowPlanView { test_data: self.test_data.deep_view(), answer: self.answer.deep_view() }
    }
}

/// What a job asks to be done next.
#[derive(Debug, PartialEq, Eq)]
pub enum Task {
    /// Find the problem of this name. Answered by `Report::Problem`.
    FindProblem { name: String },
    /// Load the toolchain of this name. Answered by `Report::Toolchain`.
    ResolveToolchain { name: String },
    /// Have the sandbox service carry out this request. Answered by
    /// `Report::Response`.
    Invoke(InvokeRequest),
    /// Start the valuer and send it the problem's tests. Answered by
    /// `Report::Done`.
    StartValuer { config: ClientConfig, info: ProblemInfo },
    /// Wait for the next message of the valuer. Answered by
    /// `Report::Message`.
    Poll,
    /// Read the files that the run of a test needs. Answered by
    /// `Report::Files`.
    ReadTestFiles { test: String, checker: String, correct: Option<String> },
    /// Write what the checker logged to the file `name` of the directory
    /// `dir`, which is to be created if need be. Answered by `Report::Done`.
    WriteCheckerLog { dir: String, name: String, contents: Vec<u8> },
    /// Tell the valuer how a test went. Answered by `Report::Done`.
    Notify(TestDoneNotification),
    /// Read the files that the rows of a log show, row by row. Answered by
    /// `Report::Assets`.
    ReadAssets { plan: Vec<RowPlan> },
    /// Nothing: the job is over.
    Complete(JudgeOutcome),
}

pub enum TaskView {
    FindProblem { name: Seq<char> },
    ResolveToolchain { name: Seq<char> },
    Invoke(InvokeRequestView),
    StartValuer { config: ChildClientConfigView, info: Seq<Seq<char>> },
    Poll,
    ReadTestFiles { test: Seq<char>, checker: Seq<char>, correct: Option<Seq<char>> },
    WriteCheckerLog { dir: Seq<char>, name: Seq<char>, contents: Seq<u8> },
    Notify { test_id: TestId, test_status: StatusView },
    ReadAssets { plan: Seq<RowPlanView> },
    Complete(JudgeOutcomeView),
}

impl DeepView for Task {
    type V = TaskView;

    open spec fn deep_view(&self) -> TaskView {
        match self {
            Task::FindProblem { name } => TaskView::FindProblem { name: name@ },
            Task::ResolveToolchain { name } => TaskView::ResolveToolchain { name: name@ },
            Task::Invoke(request) => TaskView::Invoke(request.deep_view()),
            Task::StartValuer { config, info } => TaskView::StartValuer {
                config: config.deep_view(),
                info: info.tests.deep_view(),
            },
            Task::Poll => TaskView::Poll,
            Task::ReadTestFiles { test, checker, correct } => TaskView::ReadTestFiles {
                test: test@,
                checker: checker@,
                correct: correct.deep_view(),
            },
            Task::WriteCheckerLog { dir, name, contents } => TaskView::WriteCheckerLog {
                dir: dir@,
                name: name@,
                contents: contents@,
            },
            Task::Notify(notification) => TaskView::Notify {
                test_id: notification.test_id,
                test_status: notification.test_status.deep_view(),
            },
            Task::ReadAssets { plan } => TaskView::ReadAssets { plan: plan.deep_view() },
            Task::Complete(outcome) => TaskView::Complete(outcome.deep_view()),
        }
    }
}

/// What a job does in one turn: it lets the world see some events, in this
/// order, and then asks for one thing to be done.
#[derive(Debug, PartialEq, Eq)]
pub struct Turn {
    pub events: Vec<Event>,
    pub task: Task,
}

pub struct TurnView {
    pub events: Seq<EventView>,
    pub task: TaskView,
}

impl DeepView for Turn {
    type V = TurnView;

    open spec fn deep_view(&self) -> TurnView {
        TurnView { events: self.events.deep_view(), task: self.task.deep_view() }
    }
}

/// How the task of the last turn went.
#[derive(Debug, PartialEq, Eq)]
pub enum Report {
    /// The problem and the directory of its assets; `None` where no
    /// registry knows the problem.
    Problem(Option<(Problem, String)>),
    Toolchain(Toolchain),
    Response(InvokeResponse),
    /// The task is done and there is nothing to say about it.
    Done,
    Message(ValuerResponse),
    Files(TestFiles),
    /// One entry for each row of the plan, in the order of the plan.
    Assets(Vec<RowAssets>),
    /// The task could not be done.
    Failed(Error),
}

/// What a job is waiting for.
#[derive(Debug, PartialEq, Eq)]
pub enum Phase {
    AwaitProblem,
    AwaitToolchain,
    /// The build commands are running.
    AwaitBuild,
    /// The valuer is being started.
    AwaitValuer,
    /// The valuer is to say what to do next.
    AwaitMessage,
    AwaitTestFiles { test_id: TestId },
    /// The solution is running on a test.
    AwaitTest { test_id: TestId },
    /// The checker's log of a test is being written; the response to the
    /// test's invocation is yet to be read.
    AwaitCheckerLog { test_id: TestId, response: InvokeResponse },
    /// The valuer is being told how a test went.
    AwaitNotified,
    /// The files that a log of the valuer shows are being read.
    AwaitAssets { log: crate::valuer::JudgeLog },
    Finished,
}

/// One judging job.
#[derive(Debug, PartialEq, Eq)]
pub struct Job {
    pub req: Request,
    pub settings: Settings,
    pub phase: Phase,
    pub problem: Option<Problem>,
    pub file_ref_resolver: FileRefResolver,
    pub toolchain: Option<Toolchain>,
    /// Where the build commands stand among the steps of the build.
    pub positions: Vec<usize>,
    pub build: Option<BuildOutcome>,
    /// The tests that were run, in the order in which they were run.
    pub test_results: Vec<(TestId, ExecOutcome)>,
    pub protocol_sender: ProtocolSender,
}

/// The state of a job, without the request and the settings, which never
/// change.
pub struct JobView {
    pub phase: Phase,
    pub problem: Option<Problem>,
    pub assets_dir: Seq<char>,
    pub toolchain: Option<Toolchain>,
    pub positions: Seq<usize>,
    pub build: Option<BuildOutcomeView>,
    pub results: Seq<(TestId, ExecOutcomeView)>,
    /// The kinds of the logs that were created, in the order of their
    /// creation.
    pub sent: Seq<JudgeLogKind>,
}

impl DeepView for Job {
    type V = JobView;

    open spec fn deep_view(&self) -> JobView {
        JobView {
            phase: self.phase,
            problem: self.problem,
            assets_dir: self.file_ref_resolver.problem_assets_dir@,
            toolchain: self.toolchain,
            positions: self.positions@,
            build: self.build.deep_view(),
            results: self.test_results.deep_view(),
            sent: self.protocol_sender.sent@,
        }
    }
}

/// The state in which a job starts.
pub open spec fn initial() -> JobView {
    JobView {
        phase: Phase::AwaitProblem,
        problem: None,
        assets_dir: Seq::empty(),
        toolchain: None,
        positions: Seq::empty(),
        build: None,
        results: Seq::empty(),
        sent: Seq::empty(),
    }
}

/// A turn without events.
pub open spec fn quiet(state: JobView, phase: Phase, task: TaskView) -> (JobView, TurnView) {
    (JobView { phase, ..state }, TurnView { events: Seq::empty(), task })
}

/// The job fails after it has let `events` be seen: a stand-in log with the
/// status of a judge fault is created for each kind of which no log was
/// created, and the job is over.
pub open spec fn fault_after(state: JobView, events: Seq<EventView>, kind: ErrorKind) -> (
    JobView,
    TurnView,
) {
    let missing = unsent_kinds(state.sent);
    (
        JobView { phase: Phase::Finished, sent: state.sent + missing, ..state },
        TurnView {
            events: events + fake_events(missing, Status::judge_fault(), Seq::empty()),
            task: TaskView::Complete(JudgeOutcomeView::Fault { kind }),
        },
    )
}

/// The job fails without having let anything be seen in this turn.
pub open spec fn fault(state: JobView, kind: ErrorKind) -> (JobView, TurnView) {
    fault_after(state, Seq::empty(), kind)
}

/// How to start the valuer of a problem. Its files are looked up among the
/// problem's assets; it runs in the directory of the assets unless the
/// problem names another.
pub open spec fn valuer_config(problem: Problem, assets_dir: Seq<char>) -> ChildClientConfigView {
    match problem.valuer {
        Valuer::Child(child) => ChildClientConfigView {
            exe: resolved(assets_dir, child.exe),
            args: child.extra_args.deep_view(),
            current_dir: match child.current_dir {
                Some(dir) => resolved(assets_dir, dir),
                None => assets_dir,
            },
        },
    }
}

/// The group of each test, in the order of the tests.
pub open spec fn groups(problem: Problem) -> Seq<Seq<char>> {
    Seq::new(problem.tests@.len(), |i: int| problem.tests@[i].group@)
}

/// The files that a row of a log of the valuer needs: the input where it
/// may be seen, the answer where it may be seen and the test has one; none
/// for a test that was not run or that the problem does not have.
pub open spec fn row_plan(
    item: crate::valuer::JudgeLogTestRow,
    results: Seq<(TestId, ExecOutcomeView)>,
    problem: Problem,
    assets_dir: Seq<char>,
) -> RowPlanView {
    let wanted = first_outcome(results, item.test_id) is Some && has_test(problem, item.test_id);
    let test = problem.tests@[item.test_id.0 - 1];
    RowPlanView {
        test_data: if wanted && item.components.shows(TEST_DATA) {
            Some(resolved(assets_dir, test.path))
        } else {
            None
        },
        answer: if wanted && item.components.shows(ANSWER) && test.correct is Some {
            Some(resolved(assets_dir, test.correct->0))
        } else {
            None
        },
    }
}

/// The files that the rows of a log need, row by row.
pub open spec fn asset_plan(
    log: crate::valuer::JudgeLog,
    results: Seq<(TestId, ExecOutcomeView)>,
    problem: Problem,
    assets_dir: Seq<char>,
) -> Seq<RowPlanView> {
    Seq::new(log.tests@.len(), |i: int| row_plan(log.tests@[i], results, problem, assets_dir))
}

/// The problem was looked for.
pub open spec fn on_problem(req: Request, state: JobView, found: Option<(Problem, String)>) -> (
    JobView,
    TurnView,
) {
    match found {
        None => fault(state, ErrorKind::ProblemNotFound),
        Some(found) => (
            JobView {
                phase: Phase::AwaitToolchain,
                problem: Some(found.0),
                assets_dir: found.1@,
                ..state
            },
            TurnView {
                events: Seq::empty(),
                task: TaskView::ResolveToolchain { name: req.toolchain_name@ },
            },
        ),
    }
}

/// The toolchain was loaded: the build starts.
pub open spec fn on_toolchain(req: Request, state: JobView, toolchain: Toolchain) -> (
    JobView,
    TurnView,
) {
    match compile_request_failure(req, toolchain) {
        Some(kind) => fault(state, kind),
        None => (
            JobView {
                phase: Phase::AwaitBuild,
                toolchain: Some(toolchain),
                positions: Seq::new(
                    toolchain.spec.build_commands@.len(),
                    |i: int| command_position(i) as usize,
                ),
                ..state
            },
            TurnView {
                events: Seq::empty(),
                task: TaskView::Invoke(compile_request(req, toolchain)),
            },
        ),
    }
}

/// The build commands have run. A build that failed ends the job, and
/// ends it well: a stand-in log with the status of the build and with what
/// the compiler said is created for each kind. After a build that went well
/// the valuer is started.
pub open spec fn on_build(state: JobView, response: InvokeResponse) -> (JobView, TurnView) {
    match (state.problem, state.toolchain) {
        (Some(problem), Some(toolchain)) => match build_outcome(
            response,
            compile_limits(toolchain),
            state.positions,
        ) {
            Err(kind) => fault(state, kind),
            Ok(outcome) => match outcome.result {
                Err(status) => {
                    let missing = unsent_kinds(state.sent);
                    (
                        JobView {
                            phase: Phase::Finished,
                            build: Some(outcome),
                            sent: state.sent + missing,
                            ..state
                        },
                        TurnView {
                            events: fake_events(missing, status, outcome.log),
                            task: TaskView::Complete(JudgeOutcomeView::Success),
                        },
                    )
                },
                Ok(_) => (
                    JobView { phase: Phase::AwaitValuer, build: Some(outcome), ..state },
                    TurnView {
                        events: Seq::empty(),
                        task: TaskView::StartValuer {
                            config: valuer_config(problem, state.assets_dir),
                            info: groups(problem),
                        },
                    },
                ),
            },
        },
        _ => fault(state, ErrorKind::UnexpectedEvent),
    }
}

/// The valuer has spoken.
pub open spec fn on_message(state: JobView, message: ValuerResponse) -> (JobView, TurnView) {
    match message {
        ValuerResponse::Test { test_id, live } => {
            let events = if live {
                seq![EventView::LiveTest(test_id.0)]
            } else {
                Seq::empty()
            };
            match state.problem {
                None => fault_after(state, events, ErrorKind::UnexpectedEvent),
                Some(problem) => if !has_test(problem, test_id) {
                    fault_after(state, events, ErrorKind::UnknownTest)
                } else {
                    let test = problem.tests@[test_id.0 - 1];
                    (
                        JobView { phase: Phase::AwaitTestFiles { test_id }, ..state },
                        TurnView {
                            events,
                            task: TaskView::ReadTestFiles {
                                test: resolved(state.assets_dir, test.path),
                                checker: resolved(state.assets_dir, problem.checker_exe),
                                correct: match test.correct {
                                    Some(file) => Some(resolved(state.assets_dir, file)),
                                    None => None,
                                },
                            },
                        },
                    )
                },
            }
        },
        ValuerResponse::Finish => (
            JobView { phase: Phase::Finished, ..state },
            TurnView {
                events: Seq::empty(),
                task: TaskView::Complete(JudgeOutcomeView::Success),
            },
        ),
        ValuerResponse::LiveScore { score } => (
            JobView { phase: Phase::AwaitMessage, ..state },
            TurnView { events: seq![EventView::LiveScore(score)], task: TaskView::Poll },
        ),
        ValuerResponse::JudgeLog(log) => match state.problem {
            Some(problem) => if state.sent.contains(log.kind) {
                fault(state, ErrorKind::UnexpectedEvent)
            } else {
                quiet(
                    state,
                    Phase::AwaitAssets { log },
                    TaskView::ReadAssets {
                        plan: asset_plan(log, state.results, problem, state.assets_dir),
                    },
                )
            },
            None => fault(state, ErrorKind::UnexpectedEvent),
        },
    }
}

/// The files of a test were read: the test is run.
pub open spec fn on_files(state: JobView, test_id: TestId, files: TestFiles) -> (
    JobView,
    TurnView,
) {
    match (state.problem, state.toolchain, state.build) {
        (Some(problem), Some(toolchain), Some(build)) => match build.result {
            Ok(binary) => if !has_test(problem, test_id) {
                fault(state, ErrorKind::UnknownTest)
            } else {
                let test = problem.tests@[test_id.0 - 1];
                match request_failure(test, files, binary) {
                    Some(kind) => fault(state, kind),
                    None => quiet(
                        state,
                        Phase::AwaitTest { test_id },
                        TaskView::Invoke(test_request(toolchain, problem, test, files, binary)),
                    ),
                }
            },
            Err(_) => fault(state, ErrorKind::UnexpectedEvent),
        },
        _ => fault(state, ErrorKind::UnexpectedEvent),
    }
}

/// The outcome of a test is read and remembered, and the valuer is told
/// the status.
pub open spec fn on_test_end(state: JobView, test_id: TestId, response: InvokeResponse) -> (
    JobView,
    TurnView,
) {
    match test_outcome(response, test_step_ids()) {
        Err(kind) => fault(state, kind),
        Ok(outcome) => (
            JobView {
                phase: Phase::AwaitNotified,
                results: state.results.push((test_id, outcome)),
                ..state
            },
            TurnView {
                events: Seq::empty(),
                task: TaskView::Notify { test_id, test_status: outcome.status },
            },
        ),
    }
}

/// A test has run. Where the checker's logs are kept, the log of this test
/// is written before anything else is read from the response.
pub open spec fn on_test_response(
    settings: Settings,
    state: JobView,
    test_id: TestId,
    response: InvokeResponse,
) -> (JobView, TurnView) {
    match settings.checker_logs {
        Some(dir) => match output_bytes(response, CHECKER_LOG@) {
            Err(kind) => fault(state, kind),
            Ok(contents) => quiet(
                state,
                Phase::AwaitCheckerLog { test_id, response },
                TaskView::WriteCheckerLog {
                    dir: dir@,
                    name: decimal(test_id.0 as nat),
                    contents,
                },
            ),
        },
        None => on_test_end(state, test_id, response),
    }
}

/// The files that a log of the valuer shows were read: the lasting log is
/// made and let be seen.
pub open spec fn on_assets(
    state: JobView,
    log: crate::valuer::JudgeLog,
    assets: Vec<RowAssets>,
) -> (JobView, TurnView) {
    match (state.problem, state.build) {
        (Some(problem), Some(build)) => if state.sent.contains(log.kind) {
            fault(state, ErrorKind::UnexpectedEvent)
        } else {
            match transformed(log, build.log, state.results, problem, assets@) {
                Err(kind) => fault(state, kind),
                Ok(judge_log) => (
                    JobView {
                        phase: Phase::AwaitMessage,
                        sent: state.sent.push(log.kind),
                        ..state
                    },
                    TurnView {
                        events: seq![EventView::LogCreated(judge_log)],
                        task: TaskView::Poll,
                    },
                ),
            }
        },
        _ => fault(state, ErrorKind::UnexpectedEvent),
    }
}

/// What a job does when it is told how its last task went.
///
/// A job that is over does nothing. A task that could not be done makes
/// the job fail, and so does a report that does not answer the task.
pub open spec fn next(req: Request, settings: Settings, state: JobView, report: Report) -> (
    JobView,
    TurnView,
) {
    match (state.phase, report) {
        (Phase::Finished, _) => (
            state,
            TurnView {
                events: Seq::empty(),
                task: TaskView::Complete(
                    JudgeOutcomeView::Fault { kind: ErrorKind::UnexpectedEvent },
                ),
            },
        ),
        (_, Report::Failed(error)) => fault(state, error.kind),
        (Phase::AwaitProblem, Report::Problem(found)) => on_problem(req, state, found),
        (Phase::AwaitToolchain, Report::Toolchain(toolchain)) => on_toolchain(
            req,
            state,
            toolchain,
        ),
        (Phase::AwaitBuild, Report::Response(response)) => on_build(state, response),
        (Phase::AwaitValuer, Report::Done) => quiet(state, Phase::AwaitMessage, TaskView::Poll),
        (Phase::AwaitMessage, Report::Message(message)) => on_message(state, message),
        (Phase::AwaitTestFiles { test_id }, Report::Files(files)) => on_files(
            state,
            test_id,
            files,
        ),
        (Phase::AwaitTest { test_id }, Report::Response(response)) => on_test_response(
            settings,
            state,
            test_id,
            response,
        ),
        (Phase::AwaitCheckerLog { test_id, response }, Report::Done) => on_test_end(
            state,
            test_id,
            response,
        ),
        (Phase::AwaitNotified, Report::Done) => quiet(state, Phase::AwaitMessage, TaskView::Poll),
        (Phase::AwaitAssets { log }, Report::Assets(assets)) => on_assets(state, log, assets),
        _ => fault(state, ErrorKind::UnexpectedEvent),
    }
}

/// The kinds of the logs whose creation is among `events`, in their order.
pub open spec fn created_kinds(events: Seq<EventView>) -> Seq<JudgeLogKind>
    decreases events.len(),
{
    if events.len() == 0 {
        Seq::empty()
    } else {
        let before = created_kinds(events.drop_last());
        match events.last() {
            EventView::LogCreated(log) => before.push(log.kind),
            _ => before,
        }
    }
}

/// What a job has come to after it was told `reports`, one after the
/// other, and all that it has let be seen on the way.
pub open spec fn run(req: Request, settings: Settings, reports: Seq<Report>) -> (
    JobView,
    Seq<EventView>,
)
    decreases reports.len(),
{
    if reports.len() == 0 {
        (initial(), Seq::empty())
    } else {
        let (state, seen) = run(req, settings, reports.drop_last());
        let (after, turn) = next(req, settings, state, reports.last());
        (after, seen + turn.events)
    }
}

proof fn created_kinds_of_sum(a: Seq<EventView>, b: Seq<EventView>)
    ensures
        created_kinds(a + b) == created_kinds(a) + created_kinds(b),
    decreases b.len(),
{
    if b.len() == 0 {
        assert(a + b =~= a);
        assert(created_kinds(a) + created_kinds(b) =~= created_kinds(a));
    } else {
        created_kinds_of_sum(a, b.drop_last());
        assert((a + b).drop_last() =~= a + b.drop_last());
        assert((a + b).last() == b.last());
        assert(created_kinds(a + b) =~= created_kinds(a) + created_kinds(b));
    }
}

proof fn created_kinds_of_fakes(kinds: Seq<JudgeLogKind>, status: StatusView, log: Seq<char>)
    ensures
        created_kinds(fake_events(kinds, status, log)) == kinds,
    decreases kinds.len(),
{
    let events = fake_events(kinds, status, log);
    if kinds.len() == 0 {
        assert(created_kinds(events) =~= kinds);
    } else {
        created_kinds_of_fakes(kinds.drop_last(), status, log);
        assert(events.drop_last() =~= fake_events(kinds.drop_last(), status, log));
        assert(created_kinds(events) =~= kinds);
    }
}

proof fn unsent_kinds_extend(sent: Seq<JudgeLogKind>)
    requires
        sent.no_duplicates(),
    ensures
        (sent + unsent_kinds(sent)).no_duplicates(),
{
    missing_kinds_are_new(sent, JudgeLogKind::all().len());
    let missing = unsent_kinds(sent);
    let all = sent + missing;
    assert forall|a: int, b: int| 0 <= a < all.len() && 0 <= b < all.len() && a != b implies all[a]
        != all[b] by {
        if a < sent.len() && b >= sent.len() {
            assert(!sent.contains(missing[b - sent.len()]));
        } else if b < sent.len() && a >= sent.len() {
            assert(!sent.contains(missing[a - sent.len()]));
        }
    }
}

proof fn fault_keeps_unique(state: JobView, events: Seq<EventView>, kind: ErrorKind)
    requires
        state.sent.no_duplicates(),
        created_kinds(events) == Seq::<JudgeLogKind>::empty(),
    ensures
        fault_after(state, events, kind).0.sent.no_duplicates(),
        fault_after(state, events, kind).0.sent == state.sent + created_kinds(
            fault_after(state, events, kind).1.events,
        ),
{
    let missing = unsent_kinds(state.sent);
    unsent_kinds_extend(state.sent);
    created_kinds_of_fakes(missing, Status::judge_fault(), Seq::empty());
    created_kinds_of_sum(events, fake_events(missing, Status::judge_fault(), Seq::empty()));
    assert(Seq::<JudgeLogKind>::empty() + missing =~= missing);
}

/// No turn creates a log of a kind of which a log was created before it, or
/// two logs of one kind: the kinds of the logs that a turn creates are new,
/// and they are what the job remembers as sent.
pub proof fn turn_creates_new_kinds(
    req: Request,
    settings: Settings,
    state: JobView,
    report: Report,
)
    requires
        state.sent.no_duplicates(),
    ensures
        next(req, settings, state, report).0.sent.no_duplicates(),
        next(req, settings, state, report).0.sent == state.sent + created_kinds(
            next(req, settings, state, report).1.events,
        ),
{
    let (after, turn) = next(req, settings, state, report);
    let nothing = Seq::<EventView>::empty();
    assert(created_kinds(nothing) =~= Seq::<JudgeLogKind>::empty());
    assert(state.sent + Seq::<JudgeLogKind>::empty() =~= state.sent);
    fault_keeps_unique(state, nothing, ErrorKind::UnexpectedEvent);
    match (state.phase, report) {
        (Phase::Finished, _) => {},
        (_, Report::Failed(error)) => {
            fault_keeps_unique(state, nothing, error.kind);
        },
        (Phase::AwaitProblem, Report::Problem(found)) => {
            fault_keeps_unique(state, nothing, ErrorKind::ProblemNotFound);
        },
        (Phase::AwaitToolchain, Report::Toolchain(toolchain)) => {
            if compile_request_failure(req, toolchain) is Some {
                fault_keeps_unique(state, nothing, compile_request_failure(req, toolchain)->0);
            }
        },
        (Phase::AwaitBuild, Report::Response(response)) => {
            if state.problem is Some && state.toolchain is Some {
                match build_outcome(
                    response,
                    compile_limits(state.toolchain->0),
                    state.positions,
                ) {
                    Err(kind) => {
                        fault_keeps_unique(state, nothing, kind);
                    },
                    Ok(outcome) => {
                        if outcome.result is Err {
                            unsent_kinds_extend(state.sent);
                            created_kinds_of_fakes(
                                unsent_kinds(state.sent),
                                outcome.result->Err_0,
                                outcome.log,
                            );
                        }
                    },
                }
            }
        },
        (Phase::AwaitMessage, Report::Message(message)) => {
            match message {
                ValuerResponse::Test { test_id, live } => {
                    let events = if live {
                        seq![EventView::LiveTest(test_id.0)]
                    } else {
                        nothing
                    };
                    assert(created_kinds(events) =~= Seq::<JudgeLogKind>::empty()) by {
                        if live {
                            assert(events.drop_last() =~= nothing);
                        }
                    }
                    fault_keeps_unique(state, events, ErrorKind::UnexpectedEvent);
                    fault_keeps_unique(state, events, ErrorKind::UnknownTest);
                },
                ValuerResponse::LiveScore { score } => {
                    let events = seq![EventView::LiveScore(score)];
                    assert(events.drop_last() =~= nothing);
                    assert(created_kinds(events) =~= Seq::<JudgeLogKind>::empty());
                },
                _ => {},
            }
        },
        (Phase::AwaitTestFiles { test_id }, Report::Files(files)) => {
            if state.problem is Some && state.toolchain is Some && state.build is Some
                && state.build->0.result is Ok {
                fault_keeps_unique(state, nothing, ErrorKind::UnknownTest);
                let test = state.problem->0.tests@[test_id.0 - 1];
                if request_failure(test, files, state.build->0.result->Ok_0) is Some {
                    fault_keeps_unique(
                        state,
                        nothing,
                        request_failure(test, files, state.build->0.result->Ok_0)->0,
                    );
                }
            }
        },
        (Phase::AwaitTest { test_id }, Report::Response(response)) => {
            if output_bytes(response, CHECKER_LOG@) is Err {
                fault_keeps_unique(state, nothing, output_bytes(response, CHECKER_LOG@)->Err_0);
            }
            if test_outcome(response, test_step_ids()) is Err {
                fault_keeps_unique(
                    state,
                    nothing,
                    test_outcome(response, test_step_ids())->Err_0,
                );
            }
        },
        (Phase::AwaitCheckerLog { test_id, response }, Report::Done) => {
            if test_outcome(response, test_step_ids()) is Err {
                fault_keeps_unique(
                    state,
                    nothing,
                    test_outcome(response, test_step_ids())->Err_0,
                );
            }
        },
        (Phase::AwaitAssets { log }, Report::Assets(assets)) => {
            if state.problem is Some && state.build is Some && !state.sent.contains(log.kind) {
                match transformed(
                    log,
                    state.build->0.log,
                    state.results,
                    state.problem->0,
                    assets@,
                ) {
                    Err(kind) => {
                        fault_keeps_unique(state, nothing, kind);
                    },
                    Ok(judge_log) => {
                        let events = seq![EventView::LogCreated(judge_log)];
                        assert(events.drop_last() =~= nothing);
                        assert(created_kinds(events) =~= seq![log.kind]);
                        assert(state.sent + seq![log.kind] =~= state.sent.push(log.kind));
                        assert(state.sent.push(log.kind).no_duplicates());
                    },
                }
            }
        },
        _ => {},
    }
}

/// Whether the tests and the subtasks of a log stand in the order of their
/// numbers.
pub open spec fn log_is_sorted(log: JudgeLogView) -> bool {
    is_sorted(log.tests, row_number()) && is_sorted(log.subtasks, key_of::<JudgeLogSubtaskRow>())
}

/// Whether every log that is created among `events` is in order.
pub open spec fn logs_are_sorted(events: Seq<EventView>) -> bool {
    forall|i: int|
        0 <= i < events.len() ==> ((#[trigger] events[i]) matches EventView::LogCreated(log)
            ==> log_is_sorted(log))
}

proof fn fakes_are_sorted(kinds: Seq<JudgeLogKind>, status: StatusView, log: Seq<char>)
    ensures
        logs_are_sorted(fake_events(kinds, status, log)),
{
}

proof fn fault_is_sorted(state: JobView, events: Seq<EventView>, kind: ErrorKind)
    requires
        logs_are_sorted(events),
    ensures
        logs_are_sorted(fault_after(state, events, kind).1.events),
{
    let fakes = fake_events(unsent_kinds(state.sent), Status::judge_fault(), Seq::empty());
    fakes_are_sorted(unsent_kinds(state.sent), Status::judge_fault(), Seq::empty());
    let all = events + fakes;
    assert forall|i: int| 0 <= i < all.len() implies ((#[trigger] all[i])
        matches EventView::LogCreated(log) ==> log_is_sorted(log)) by {
        if i < events.len() {
            assert(all[i] == events[i]);
        } else {
            assert(all[i] == fakes[i - events.len()]);
        }
    }
}

/// In every log that a job creates, the tests and the subtasks stand in
/// the order of their numbers.
pub proof fn turn_logs_are_sorted(req: Request, settings: Settings, state: JobView, report: Report)
    ensures
        logs_are_sorted(next(req, settings, state, report).1.events),
{
    let nothing = Seq::<EventView>::empty();
    fault_is_sorted(state, nothing, ErrorKind::UnexpectedEvent);
    match (state.phase, report) {
        (Phase::Finished, _) => {},
        (_, Report::Failed(error)) => {
            fault_is_sorted(state, nothing, error.kind);
        },
        (Phase::AwaitProblem, Report::Problem(found)) => {
            fault_is_sorted(state, nothing, ErrorKind::ProblemNotFound);
        },
        (Phase::AwaitToolchain, Report::Toolchain(toolchain)) => {
            if compile_request_failure(req, toolchain) is Some {
                fault_is_sorted(state, nothing, compile_request_failure(req, toolchain)->0);
            }
        },
        (Phase::AwaitBuild, Report::Response(response)) => {
            if state.problem is Some && state.toolchain is Some {
                match build_outcome(
                    response,
                    compile_limits(state.toolchain->0),
                    state.positions,
                ) {
                    Err(kind) => {
                        fault_is_sorted(state, nothing, kind);
                    },
                    Ok(outcome) => {
                        if outcome.result is Err {
                            fakes_are_sorted(
                                unsent_kinds(state.sent),
                                outcome.result->Err_0,
                                outcome.log,
                            );
                        }
                    },
                }
            }
        },
        (Phase::AwaitMessage, Report::Message(message)) => {
            match message {
                ValuerResponse::Test { test_id, live } => {
                    let events = if live {
                        seq![EventView::LiveTest(test_id.0)]
                    } else {
                        nothing
                    };
                    fault_is_sorted(state, events, ErrorKind::UnexpectedEvent);
                    fault_is_sorted(state, events, ErrorKind::UnknownTest);
                },
                _ => {},
            }
        },
        (Phase::AwaitTestFiles { test_id }, Report::Files(files)) => {
            if state.problem is Some && state.toolchain is Some && state.build is Some
                && state.build->0.result is Ok {
                fault_is_sorted(state, nothing, ErrorKind::UnknownTest);
                let test = state.problem->0.tests@[test_id.0 - 1];
                if request_failure(test, files, state.build->0.result->Ok_0) is Some {
                    fault_is_sorted(
                        state,
                        nothing,
                        request_failure(test, files, state.build->0.result->Ok_0)->0,
                    );
                }
            }
        },
        (Phase::AwaitTest { test_id }, Report::Response(response)) => {
            if output_bytes(response, CHECKER_LOG@) is Err {
                fault_is_sorted(state, nothing, output_bytes(response, CHECKER_LOG@)->Err_0);
            }
            if test_outcome(response, test_step_ids()) is Err {
                fault_is_sorted(state, nothing, test_outcome(response, test_step_ids())->Err_0);
            }
        },
        (Phase::AwaitCheckerLog { test_id, response }, Report::Done) => {
            if test_outcome(response, test_step_ids()) is Err {
                fault_is_sorted(state, nothing, test_outcome(response, test_step_ids())->Err_0);
            }
        },
        (Phase::AwaitAssets { log }, Report::Assets(assets)) => {
            if state.problem is Some && state.build is Some && !state.sent.contains(log.kind) {
                match transformed(
                    log,
                    state.build->0.log,
                    state.results,
                    state.problem->0,
                    assets@,
                ) {
                    Err(kind) => {
                        fault_is_sorted(state, nothing, kind);
                    },
                    Ok(judge_log) => {
                        transformed_is_sorted(
                            log,
                            state.build->0.log,
                            state.results,
                            state.problem->0,
                            assets@,
                        );
                    },
                }
            }
        },
        _ => {},
    }
}

/// A job that ends otherwise than at the valuer's word has created a log
/// of every kind: a job that fails, and a job whose build fails.
pub proof fn ending_leaves_every_kind(
    req: Request,
    settings: Settings,
    state: JobView,
    report: Report,
    kind: JudgeLogKind,
)
    requires
        !(state.phase is Finished),
        next(req, settings, state, report).0.phase is Finished,
        !(state.phase is AwaitMessage && report matches Report::Message(ValuerResponse::Finish)),
    ensures
        next(req, settings, state, report).0.sent.contains(kind),
{
    fill_is_complete(state.sent, kind);
}

/// However a job goes, it never creates two logs of one kind.
pub proof fn log_kinds_are_unique(req: Request, settings: Settings, reports: Seq<Report>)
    ensures
        created_kinds(run(req, settings, reports).1).no_duplicates(),
        created_kinds(run(req, settings, reports).1) == run(req, settings, reports).0.sent,
    decreases reports.len(),
{
    if reports.len() == 0 {
        assert(created_kinds(Seq::<EventView>::empty()) =~= Seq::<JudgeLogKind>::empty());
    } else {
        let (state, seen) = run(req, settings, reports.drop_last());
        log_kinds_are_unique(req, settings, reports.drop_last());
        turn_creates_new_kinds(req, settings, state, reports.last());
        created_kinds_of_sum(seen, next(req, settings, state, reports.last()).1.events);
    }
}

fn make_valuer_config(problem: &Problem, resolver: &FileRefResolver) -> (r: ClientConfig)
    ensures
        r.deep_view() == valuer_config(*problem, resolver.problem_assets_dir@),
{
    match &problem.valuer {
        Valuer::Child(child) => {
            let current_dir = match &child.current_dir {
                Some(dir) => resolver.resolve_asset(dir),
                None => resolver.problem_assets_dir.clone(),
            };
            ClientConfig::Child(
                ChildClientConfig {
                    exe: resolver.resolve_asset(&child.exe),
                    args: copy_texts(&child.extra_args),
                    current_dir,
                },
            )
        },
    }
}

fn make_groups(problem: &Problem) -> (r: Vec<String>)
    ensures
        r.deep_view() == groups(*problem),
{
    let mut r: Vec<String> = Vec::new();
    let mut i: usize = 0;
    while i < problem.tests.len()
        invariant
            i <= problem.tests.len(),
            r.len() == i,
            forall|k: int| 0 <= k < i ==> r[k]@ == problem.tests@[k].group@,
        decreases problem.tests.len() - i,
    {
        r.push(problem.tests[i].group.clone());
        i += 1;
    }
    assert(r.deep_view() =~= groups(*problem));
    r
}

fn make_row_plan(
    item: &crate::valuer::JudgeLogTestRow,
    results: &Vec<(TestId, ExecOutcome)>,
    problem: &Problem,
    resolver: &FileRefResolver,
) -> (r: RowPlan)
    ensures
        r.deep_view() == row_plan(
            *item,
            results.deep_view(),
            *problem,
            resolver.problem_assets_dir@,
        ),
{
    let ran = find_outcome(results, item.test_id).is_some();
    let known = 1 <= item.test_id.0 && item.test_id.0 as usize <= problem.tests.len();
    if !ran || !known {
        return RowPlan { test_data: None, answer: None };
    }
    let test = &problem.tests[item.test_id.to_idx()];
    let test_data = if item.components.contains(TEST_DATA) {
        Some(resolver.resolve_asset(&test.path))
    } else {
        None
    };
    let answer = match &test.correct {
        Some(file) => if item.components.contains(ANSWER) {
            Some(resolver.resolve_asset(file))
        } else {
            None
        },
        None => None,
    };
    RowPlan { test_data, answer }
}

fn make_asset_plan(
    log: &crate::valuer::JudgeLog,
    results: &Vec<(TestId, ExecOutcome)>,
    problem: &Problem,
    resolver: &FileRefResolver,
) -> (r: Vec<RowPlan>)
    ensures
        r.deep_view() == asset_plan(
            *log,
            results.deep_view(),
            *problem,
            resolver.problem_assets_dir@,
        ),
{
    let mut plan: Vec<RowPlan> = Vec::new();
    let mut i: usize = 0;
    while i < log.tests.len()
        invariant
            i <= log.tests.len(),
            plan.len() == i,
            forall|k: int|
                0 <= k < i ==> plan[k].deep_view() == row_plan(
                    log.tests@[k],
                    results.deep_view(),
                    *problem,
                    resolver.problem_assets_dir@,
                ),
        decreases log.tests.len() - i,
    {
        plan.push(make_row_plan(&log.tests[i], results, problem, resolver));
        i += 1;
    }
    assert(plan.deep_view() =~= asset_plan(
        *log,
        results.deep_view(),
        *problem,
        resolver.problem_assets_dir@,
    ));
    plan
}

fn no_events() -> (r: Vec<Event>)
    ensures
        r.deep_view() == Seq::<EventView>::empty(),
        r@.len() == 0,
{
    let r: Vec<Event> = Vec::new();
    assert(r.deep_view() =~= Seq::<EventView>::empty());
    r
}

/// Whether every test of every log that is created among `events` shows
/// in its texts what was supplied for a row of the valuer's log `log`, or
/// what the solution wrote in the first run of that row's test.
pub open spec fn logs_decode(
    events: Seq<Event>,
    log: crate::valuer::JudgeLog,
    results: Seq<(TestId, ExecOutcomeView)>,
    assets: Seq<RowAssets>,
) -> bool {
    forall|i: int|
        0 <= i < events.len() ==> ((#[trigger] events[i]) matches Event::LogCreated(made)
            ==> all_payloads_decode(made.tests.deep_view(), log, results, assets))
}

/// Whether every log that is created among `events` is without tests.
pub open spec fn logs_are_bare(events: Seq<Event>) -> bool {
    forall|i: int|
        0 <= i < events.len() ==> ((#[trigger] events[i]) matches Event::LogCreated(made)
            ==> made.tests@.len() == 0)
}

fn one_event(event: Event) -> (r: Vec<Event>)
    ensures
        r.deep_view() == seq![event.deep_view()],
        r@ == seq![event],
{
    let mut r: Vec<Event> = Vec::new();
    r.push(event);
    assert(r.deep_view() =~= seq![event.deep_view()]);
    r
}

/// Starts a job: the first thing to do is to find the problem.
pub fn judge(req: Request, settings: Settings) -> (r: (Job, Turn))
    ensures
        r.0.req == req,
        r.0.settings == settings,
        r.0.deep_view() == initial(),
        r.1.deep_view() == (TurnView {
            events: Seq::empty(),
            task: TaskView::FindProblem { name: req.problem_id@ },
        }),
{
    let name = req.problem_id.clone();
    let job = Job {
        req,
        settings,
        phase: Phase::AwaitProblem,
        problem: None,
        file_ref_resolver: FileRefResolver { problem_assets_dir: String::new() },
        toolchain: None,
        positions: Vec::new(),
        build: None,
        test_results: Vec::new(),
        protocol_sender: ProtocolSender::new(),
    };
    assert(job.test_results.deep_view() =~= Seq::empty());
    (job, Turn { events: no_events(), task: Task::FindProblem { name } })
}

impl Job {
    fn quiet_turn(self, phase: Phase, task: Task) -> (r: (Job, Turn))
        ensures
            (r.0.deep_view(), r.1.deep_view()) == quiet(self.deep_view(), phase, task.deep_view()),
            r.0.req == self.req,
            r.0.settings == self.settings,
    {
        let mut job = self;
        job.phase = phase;
        (job, Turn { events: no_events(), task })
    }

    fn fail(self, events: Vec<Event>, error: Error) -> (r: (Job, Turn))
        ensures
            (r.0.deep_view(), r.1.deep_view()) == fault_after(
                self.deep_view(),
                events.deep_view(),
                error.kind,
            ),
            r.1.task == Task::Complete(JudgeOutcome::Fault { error }),
            r.0.req == self.req,
            r.0.settings == self.settings,
            logs_are_bare(events@) ==> logs_are_bare(r.1.events@),
    {
        let mut job = self;
        let mut seen = events;
        let status = Status::new(StatusKind::InternalError, status_codes::JUDGE_FAULT);
        proof {
            reveal_strlit("");
            assert(""@ =~= Seq::<char>::empty());
        }
        let mut fakes = job.protocol_sender.send_fake_logs(&status, "");
        let ghost fakes0 = fakes;
        seen.append(&mut fakes);
        assert(seen.deep_view() =~= events.deep_view() + fakes0.deep_view());
        assert(logs_are_bare(events@) ==> logs_are_bare(seen@)) by {
            if logs_are_bare(events@) {
                assert forall|i: int| 0 <= i < seen@.len() implies ((#[trigger] seen@[i])
                    matches Event::LogCreated(made) ==> made.tests@.len() == 0) by {
                    if i < events@.len() {
                        assert(seen@[i] == events@[i]);
                    } else {
                        assert(seen@[i] == fakes0@[i - events@.len()]);
                        assert(fakes0.deep_view()[i - events@.len()] == seen@[i].deep_view());
                        if seen@[i] is LogCreated {
                            assert(seen@[i]->LogCreated_0.tests.deep_view().len() == 0);
                        }
                    }
                }
            }
        }
        job.phase = Phase::Finished;
        (job, Turn { events: seen, task: Task::Complete(JudgeOutcome::Fault { error }) })
    }

    fn unexpected(self) -> (r: (Job, Turn))
        ensures
            (r.0.deep_view(), r.1.deep_view()) == fault(
                self.deep_view(),
                ErrorKind::UnexpectedEvent,
            ),
            r.0.req == self.req,
            r.0.settings == self.settings,
            logs_are_bare(r.1.events@),
    {
        self.fail(no_events(), Error::new(ErrorKind::UnexpectedEvent, "unexpected report"))
    }

    fn got_problem(self, found: Option<(Problem, String)>) -> (r: (Job, Turn))
        ensures
            (r.0.deep_view(), r.1.deep_view()) == on_problem(self.req, self.deep_view(), found),
            r.0.req == self.req,
            r.0.settings == self.settings,
    {
        match found {
            None => self.fail(
                no_events(),
                Error::new(ErrorKind::ProblemNotFound, "problem not found"),
            ),
            Some((problem, assets_dir)) => {
                let name = self.req.toolchain_name.clone();
                let mut job = self;
                job.problem = Some(problem);
                job.file_ref_resolver = FileRefResolver { problem_assets_dir: assets_dir };
                job.phase = Phase::AwaitToolchain;
                (job, Turn { events: no_events(), task: Task::ResolveToolchain { name } })
            },
        }
    }

    fn got_toolchain(self, toolchain: Toolchain) -> (r: (Job, Turn))
        ensures
            (r.0.deep_view(), r.1.deep_view()) == on_toolchain(
                self.req,
                self.deep_view(),
                toolchain,
            ),
            r.0.req == self.req,
            r.0.settings == self.settings,
    {
        match build_request(&self.req, &toolchain) {
            Err(error) => self.fail(no_events(), error.context("failed to prepare the build")),
            Ok((request, positions)) => {
                let mut job = self;
                job.toolchain = Some(toolchain);
                job.positions = positions;
                job.phase = Phase::AwaitBuild;
                (job, Turn { events: no_events(), task: Task::Invoke(request) })
            },
        }
    }

    fn got_build(self, response: InvokeResponse) -> (r: (Job, Turn))
        ensures
            (r.0.deep_view(), r.1.deep_view()) == on_build(self.deep_view(), response),
            r.0.req == self.req,
            r.0.settings == self.settings,
    {
        if self.problem.is_none() || self.toolchain.is_none() {
            return self.unexpected();
        }
        let read = read_build(&response, self.toolchain.as_ref().unwrap(), &self.positions);
        match read {
            Err(error) => self.fail(no_events(), error.context("failed to read the build")),
            Ok(outcome) => {
                let failure = match &outcome.result {
                    Err(status) => Some(status.clone()),
                    Ok(_) => None,
                };
                match failure {
                    Some(status) => {
                        let mut job = self;
                        let events = job.protocol_sender.send_fake_logs(
                            &status,
                            outcome.log.as_str(),
                        );
                        job.build = Some(outcome);
                        job.phase = Phase::Finished;
                        (job, Turn { events, task: Task::Complete(JudgeOutcome::Success) })
                    },
                    None => {
                        let problem = self.problem.as_ref().unwrap();
                        let config = make_valuer_config(problem, &self.file_ref_resolver);
                        let info = ProblemInfo { tests: make_groups(problem) };
                        let mut job = self;
                        job.build = Some(outcome);
                        job.phase = Phase::AwaitValuer;
                        let task = Task::StartValuer { config, info };
                        (job, Turn { events: no_events(), task })
                    },
                }
            },
        }
    }

    fn got_message(self, message: ValuerResponse) -> (r: (Job, Turn))
        ensures
            (r.0.deep_view(), r.1.deep_view()) == on_message(self.deep_view(), message),
            r.0.req == self.req,
            r.0.settings == self.settings,
    {
        match message {
            ValuerResponse::Test { test_id, live } => {
                let events = if live {
                    one_event(Event::LiveTest(test_id.get()))
                } else {
                    no_events()
                };
                let task = match &self.problem {
                    None => Err(Error::new(ErrorKind::UnexpectedEvent, "no problem")),
                    Some(problem) => {
                        if test_id.0 == 0 || test_id.0 as usize > problem.tests.len() {
                            Err(Error::new(ErrorKind::UnknownTest, "unknown test"))
                        } else {
                            let test = &problem.tests[test_id.to_idx()];
                            Ok(
                                Task::ReadTestFiles {
                                    test: self.file_ref_resolver.resolve_asset(&test.path),
                                    checker: self.file_ref_resolver.resolve_asset(
                                        &problem.checker_exe,
                                    ),
                                    correct: match &test.correct {
                                        Some(file) => Some(
                                            self.file_ref_resolver.resolve_asset(file),
                                        ),
                                        None => None,
                                    },
                                },
                            )
                        }
                    },
                };
                match task {
                    Err(error) => self.fail(
                        events,
                        error.context("failed to judge solution on test"),
                    ),
                    Ok(task) => {
                        let mut job = self;
                        job.phase = Phase::AwaitTestFiles { test_id };
                        (job, Turn { events, task })
                    },
                }
            },
            ValuerResponse::Finish => {
                let mut job = self;
                job.phase = Phase::Finished;
                (job, Turn { events: no_events(), task: Task::Complete(JudgeOutcome::Success) })
            },
            ValuerResponse::LiveScore { score } => {
                let mut job = self;
                job.phase = Phase::AwaitMessage;
                (job, Turn { events: one_event(Event::LiveScore(score)), task: Task::Poll })
            },
            ValuerResponse::JudgeLog(log) => {
                if self.problem.is_none() || self.protocol_sender.was_sent(log.kind) {
                    return self.unexpected();
                }
                let plan = make_asset_plan(
                    &log,
                    &self.test_results,
                    self.problem.as_ref().unwrap(),
                    &self.file_ref_resolver,
                );
                self.quiet_turn(Phase::AwaitAssets { log }, Task::ReadAssets { plan })
            },
        }
    }

    fn got_files(self, test_id: TestId, files: TestFiles) -> (r: (Job, Turn))
        ensures
            (r.0.deep_view(), r.1.deep_view()) == on_files(self.deep_view(), test_id, files),
            r.0.req == self.req,
            r.0.settings == self.settings,
    {
        if self.problem.is_none() || self.toolchain.is_none() || self.build.is_none() {
            return self.unexpected();
        }
        let problem = self.problem.as_ref().unwrap();
        let toolchain = self.toolchain.as_ref().unwrap();
        let made = match &self.build.as_ref().unwrap().result {
            Err(_) => Err(Error::new(ErrorKind::UnexpectedEvent, "nothing was built")),
            Ok(built) => {
                if test_id.0 == 0 || test_id.0 as usize > problem.tests.len() {
                    Err(Error::new(ErrorKind::UnknownTest, "unknown test"))
                } else {
                    match create_request(
                        toolchain,
                        problem,
                        &problem.tests[test_id.to_idx()],
                        &files,
                        &RequestBuilder::new(),
                        built,
                    ) {
                        Ok((request, _)) => Ok(request),
                        Err(error) => Err(error),
                    }
                }
            },
        };
        match made {
            Err(error) => self.fail(no_events(), error.context("failed to prepare invoke request")),
            Ok(request) => self.quiet_turn(Phase::AwaitTest { test_id }, Task::Invoke(request)),
        }
    }

    fn got_test_end(self, test_id: TestId, response: InvokeResponse) -> (r: (Job, Turn))
        ensures
            (r.0.deep_view(), r.1.deep_view()) == on_test_end(self.deep_view(), test_id, response),
            r.0.req == self.req,
            r.0.settings == self.settings,
    {
        let step_ids = StepIds { exec_solution: 4, exec_checker: 8 };
        match exec_outcome(&response, step_ids) {
            Err(error) => self.fail(
                no_events(),
                error.context("failed to judge solution on test"),
            ),
            Ok(outcome) => {
                let notification = TestDoneNotification {
                    test_id,
                    test_status: outcome.status.clone(),
                };
                let mut job = self;
                let ghost before = job.test_results;
                job.test_results.push((test_id, outcome));
                assert(job.test_results.deep_view() =~= before.deep_view().push(
                    (test_id, outcome.deep_view()),
                ));
                job.phase = Phase::AwaitNotified;
                (job, Turn { events: no_events(), task: Task::Notify(notification) })
            },
        }
    }

    fn got_test_response(self, test_id: TestId, response: InvokeResponse) -> (r: (Job, Turn))
        ensures
            (r.0.deep_view(), r.1.deep_view()) == on_test_response(
                self.settings,
                self.deep_view(),
                test_id,
                response,
            ),
            r.0.req == self.req,
            r.0.settings == self.settings,
    {
        let dir = match &self.settings.checker_logs {
            Some(dir) => Some(dir.clone()),
            None => None,
        };
        match dir {
            None => self.got_test_end(test_id, response),
            Some(dir) => match RequestBuilder::new().read_output(&response, CHECKER_LOG) {
                Err(error) => self.fail(no_events(), error),
                Ok(contents) => {
                    let name = decimal_string(test_id.get() as u64);
                    self.quiet_turn(
                        Phase::AwaitCheckerLog { test_id, response },
                        Task::WriteCheckerLog { dir, name, contents },
                    )
                },
            },
        }
    }

    fn got_assets(self, log: crate::valuer::JudgeLog, assets: Vec<RowAssets>) -> (r: (Job, Turn))
        ensures
            (r.0.deep_view(), r.1.deep_view()) == on_assets(self.deep_view(), log, assets),
            r.0.req == self.req,
            r.0.settings == self.settings,
            logs_decode(r.1.events@, log, self.test_results.deep_view(), assets@),
    {
        if self.problem.is_none() || self.build.is_none() || self.protocol_sender.was_sent(
            log.kind,
        ) {
            return self.unexpected();
        }
        let made = transform(
            &log,
            self.build.as_ref().unwrap(),
            &self.test_results,
            self.problem.as_ref().unwrap(),
            &assets,
        );
        match made {
            Err(error) => self.fail(
                no_events(),
                error.context("failed to convert valuer judge log to invoker judge log"),
            ),
            Ok(judge_log) => {
                let mut job = self;
                let event = job.protocol_sender.send_log(judge_log);
                job.phase = Phase::AwaitMessage;
                let events = one_event(event);
                assert(events@.len() == 1 && events@[0] == event) by {
                    assert(events.deep_view().len() == 1);
                }
                (job, Turn { events, task: Task::Poll })
            },
        }
    }

    /// Tells the job how its last task went, and learns what it does next.
    ///
    /// A job that is told of a failure ends with that very failure as its
    /// outcome.
    pub fn advance(self, report: Report) -> (r: (Job, Turn))
        ensures
            (r.0.deep_view(), r.1.deep_view()) == next(
                self.req,
                self.settings,
                self.deep_view(),
                report,
            ),
            r.0.req == self.req,
            r.0.settings == self.settings,
            report matches Report::Failed(error) ==> (!(self.phase is Finished) ==> r.1.task
                == Task::Complete(JudgeOutcome::Fault { error })),
            report matches Report::Assets(assets) ==> (self.phase matches Phase::AwaitAssets { log }
                ==> logs_decode(r.1.events@, log, self.test_results.deep_view(), assets@)),
    {
        let Job {
            req,
            settings,
            phase,
            problem,
            file_ref_resolver,
            toolchain,
            positions,
            build,
            test_results,
            protocol_sender,
        } = self;
        let finished = match &phase {
            Phase::Finished => true,
            _ => false,
        };
        let job = Job {
            req,
            settings,
            phase: Phase::Finished,
            problem,
            file_ref_resolver,
            toolchain,
            positions,
            build,
            test_results,
            protocol_sender,
        };
        if finished {
            return (
                job,
                Turn {
                    events: no_events(),
                    task: Task::Complete(
                        JudgeOutcome::Fault {
                            error: Error::new(ErrorKind::UnexpectedEvent, "the job is over"),
                        },
                    ),
                },
            );
        }
        match (phase, report) {
            (_, Report::Failed(error)) => job.fail(no_events(), error),
            (Phase::AwaitProblem, Report::Problem(found)) => job.got_problem(found),
            (Phase::AwaitToolchain, Report::Toolchain(toolchain)) => job.got_toolchain(toolchain),
            (Phase::AwaitBuild, Report::Response(response)) => job.got_build(response),
            (Phase::AwaitValuer, Report::Done) => job.quiet_turn(Phase::AwaitMessage, Task::Poll),
            (Phase::AwaitMessage, Report::Message(message)) => job.got_message(message),
            (Phase::AwaitTestFiles { test_id }, Report::Files(files)) => job.got_files(
                test_id,
                files,
            ),
            (Phase::AwaitTest { test_id }, Report::Response(response)) => job.got_test_response(
                test_id,
                response,
            ),
            (Phase::AwaitCheckerLog { test_id, response }, Report::Done) => job.got_test_end(
                test_id,
                response,
            ),
            (Phase::AwaitNotified, Report::Done) => job.quiet_turn(
                Phase::AwaitMessage,
                Task::Poll,
            ),
            (Phase::AwaitAssets { log }, Report::Assets(assets)) => job.got_assets(log, assets),
            _ => job.unexpected(),
        }
    }
}

} // verus!
