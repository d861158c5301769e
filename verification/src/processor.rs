//! The course of one judging job, from the request to the last judge log.

use crate::error::{Error, ErrorKind};
use crate::invoke::{CommandResult, Limits};
use crate::judge_log::{JudgeLog, JudgeLogView};
use crate::paths::{is_same_path, join, joined_path, same_path};
use crate::problem::{FileRef, FileRefRoot};
use crate::valuer::{JudgeLogKind, Status, StatusView};
use vstd::prelude::*;

verus! {

/// Single judging request.
#[derive(Clone, Debug, PartialEq, Eq)]
pub struct Request {
    /// Name of the toolchain that builds and runs the submission.
    pub toolchain_name: String,
    /// Name of the problem that the submission is for.
    pub problem_id: String,
    /// The submitted source.
    pub run_source: Vec<u8>,
}

/// What a job needs of the world: where the toolchains are, where the
/// problems are, and where the invokers are.
#[derive(Debug, PartialEq, Eq)]
pub struct Clients {
    pub toolchains: crate::toolchain_loader::ToolchainLoader,
    pub problems: crate::problem_loader::Loader,
    pub invokers: crate::invoker_client::Client,
}

/// Settings that do not come from a request.
#[derive(Clone, Debug, PartialEq, Eq)]
pub struct Settings {
    /// Directory that receives, for each test, a file called after the
    /// test's number with what the checker logged.
    pub checker_logs: Option<String>,
}

/// Where nothing that is written is kept.
pub const NO_LOGS: &'static str = "/dev/null";

impl Settings {
    /// The settings of a judge that keeps its logs in the directory `logs`:
    /// the checkers' logs go to `checkers` in there. A judge whose logs go
    /// nowhere keeps none.
    pub fn for_logs(logs: &str) -> (r: Settings)
        ensures
            same_path(logs@, NO_LOGS@) ==> r.checker_logs is None,
            !same_path(logs@, NO_LOGS@) ==> r.checker_logs is Some && r.checker_logs->0@
                == joined_path(logs@, "checkers"@),
    {
        if is_same_path(logs, NO_LOGS) {
            Settings { checker_logs: None }
        } else {
            Settings { checker_logs: Some(join(logs, "checkers")) }
        }
    }
}

/// How a command ended, judged against its limits.
#[derive(Clone, Copy, Debug, PartialEq, Eq, Structural)]
pub enum CommandStatus {
    /// The command could not be started.
    Startup,
    /// Time limit exceeded.
    TimeLimit,
    /// Memory limit exceeded.
    MemLimit,
    /// The command ran and failed.
    Runtime,
    /// The command has finished successfully.
    Success,
}

/// Number of nanoseconds in a millisecond: limits are in milliseconds, usage
/// is in nanoseconds.
pub const NANOS_PER_MILLI: u64 = 1_000_000;

/// The first of these that applies decides: the command did not start; it
/// used more processor time than allowed; it used more memory than allowed;
/// it ended with a non-zero exit code. A command that has used exactly what
/// is allowed is within its limits.
pub open spec fn command_status(limits: Limits, data: CommandResult) -> CommandStatus {
    if data.spawn_error is Some {
        CommandStatus::Startup
    } else if data.cpu_time is Some && data.cpu_time->0 > limits.time * NANOS_PER_MILLI {
        CommandStatus::TimeLimit
    } else if data.memory is Some && data.memory->0 > limits.memory {
        CommandStatus::MemLimit
    } else if data.exit_code != 0 {
        CommandStatus::Runtime
    } else {
        CommandStatus::Success
    }
}

/// A command that has used exactly its time limit has not exceeded it, and
/// neither has one that has used exactly its memory limit.
pub proof fn limit_is_allowed(limits: Limits, data: CommandResult)
    requires
        data.cpu_time is Some ==> data.cpu_time->0 <= limits.time * NANOS_PER_MILLI,
        data.memory is Some ==> data.memory->0 <= limits.memory,
    ensures
        command_status(limits, data) != CommandStatus::TimeLimit,
        command_status(limits, data) != CommandStatus::MemLimit,
{
}

/// The time limit is exceeded by one nanosecond more than is allowed.
pub proof fn over_the_limit(limits: Limits, data: CommandResult)
    requires
        data.spawn_error is None,
        data.cpu_time is Some,
        data.cpu_time->0 > limits.time * NANOS_PER_MILLI,
    ensures
        command_status(limits, data) == CommandStatus::TimeLimit,
{
}

/// Judges how a command ended against the limits it ran under.
pub fn describe_command_result(limits: &Limits, data: &CommandResult) -> (r: CommandStatus)
    ensures
        r == command_status(*limits, *data),
{
    if data.spawn_error.is_some() {
        return CommandStatus::Startup;
    }
    if let Some(usage) = data.cpu_time {
        if (usage as u128) > (limits.time as u128) * (NANOS_PER_MILLI as u128) {
            return CommandStatus::TimeLimit;
        }
    }
    if let Some(usage) = data.memory {
        if usage > limits.memory {
            return CommandStatus::MemLimit;
        }
    }
    if data.exit_code != 0 {
        return CommandStatus::Runtime;
    }
    CommandStatus::Success
}

/// Turns the file references of a problem into paths.
#[derive(Debug, PartialEq, Eq)]
pub struct FileRefResolver {
    pub problem_assets_dir: String,
}

/// The path that a file reference stands for, for a problem whose assets are
/// in `assets_dir`.
pub open spec fn resolved(assets_dir: Seq<char>, file: FileRef) -> Seq<char> {
    joined_path(
        match file.root {
            FileRefRoot::Problem => assets_dir,
            FileRefRoot::Root => "/"@,
        },
        file.path@,
    )
}

impl FileRefResolver {
    /// The path of a file of the problem.
    pub fn resolve_asset(&self, short_path: &FileRef) -> (r: String)
        ensures
            r@ == resolved(self.problem_assets_dir@, *short_path),
    {
        match short_path.root {
            FileRefRoot::Problem => join(
                self.problem_assets_dir.as_str(),
                short_path.path.as_str(),
            ),
            FileRefRoot::Root => join("/", short_path.path.as_str()),
        }
    }
}

/// Part of what a job lets the world see while it runs.
#[derive(Debug, PartialEq, Eq)]
pub enum Event {
    /// A judge log has been created. Comes at most once for each kind.
    LogCreated(JudgeLog),
    /// The run is being judged on this test.
    LiveTest(u32),
    /// The run has reached this score.
    LiveScore(u32),
}

pub enum EventView {
    LogCreated(JudgeLogView),
    LiveTest(u32),
    LiveScore(u32),
}

impl DeepView for Event {
    type V = EventView;

    open spec fn deep_view(&self) -> EventView {
        match self {
            Event::LogCreated(log) => EventView::LogCreated(log.deep_view()),
            Event::LiveTest(test) => EventView::LiveTest(*test),
            Event::LiveScore(score) => EventView::LiveScore(*score),
        }
    }
}

/// How a job ended.
#[derive(Debug, PartialEq, Eq)]
pub enum JudgeOutcome {
    /// The run was judged; every log that was created holds.
    Success,
    /// The run was not judged, because the judge failed. Logs may have been
    /// created; they are neither precise nor complete.
    Fault { error: Error },
}

#[derive(Clone, Copy, Debug, PartialEq, Eq, Structural)]
pub enum JudgeOutcomeView {
    Success,
    Fault { kind: ErrorKind },
}

impl DeepView for JudgeOutcome {
    type V = JudgeOutcomeView;

    open spec fn deep_view(&self) -> JudgeOutcomeView {
        match self {
            JudgeOutcome::Success => JudgeOutcomeView::Success,
            JudgeOutcome::Fault { error } => JudgeOutcomeView::Fault { kind: error.kind },
        }
    }
}

/// The log that stands in for a log that could not be made: no tests, no
/// score, only a status and what the compiler said.
pub open spec fn fake_log(
    kind: JudgeLogKind,
    status: StatusView,
    compile_log: Seq<char>,
) -> JudgeLogView {
    JudgeLogView {
        kind,
        tests: Seq::empty(),
        subtasks: Seq::empty(),
        compile_log,
        score: 0,
        is_full: false,
        status,
    }
}

/// Those of the first `n` kinds that are not among `sent`, in the order of
/// the kinds.
pub open spec fn missing_kinds(sent: Seq<JudgeLogKind>, n: nat) -> Seq<JudgeLogKind>
    decreases n,
{
    if n == 0 {
        Seq::empty()
    } else {
        let kind = JudgeLogKind::all()[n - 1];
        let before = missing_kinds(sent, (n - 1) as nat);
        if sent.contains(kind) {
            before
        } else {
            before.push(kind)
        }
    }
}

/// The kinds of which no log was sent yet.
pub open spec fn unsent_kinds(sent: Seq<JudgeLogKind>) -> Seq<JudgeLogKind> {
    missing_kinds(sent, JudgeLogKind::all().len())
}

/// The creation of one stand-in log for each of `kinds`.
pub open spec fn fake_events(
    kinds: Seq<JudgeLogKind>,
    status: StatusView,
    compile_log: Seq<char>,
) -> Seq<EventView> {
    Seq::new(kinds.len(), |i: int| EventView::LogCreated(fake_log(kinds[i], status, compile_log)))
}

/// Each of the missing kinds is one of the first `n` kinds and is not among
/// `sent`; no kind is missing twice.
pub proof fn missing_kinds_are_new(sent: Seq<JudgeLogKind>, n: nat)
    requires
        n <= JudgeLogKind::all().len(),
    ensures
        forall|k: int|
            0 <= k < missing_kinds(sent, n).len() ==> !sent.contains(
                #[trigger] missing_kinds(sent, n)[k],
            ),
        forall|k: int|
            0 <= k < missing_kinds(sent, n).len() ==> exists|j: int|
                0 <= j < n && JudgeLogKind::all()[j] == #[trigger] missing_kinds(sent, n)[k],
        missing_kinds(sent, n).no_duplicates(),
    decreases n,
{
    if n > 0 {
        let kind = JudgeLogKind::all()[n - 1];
        let before = missing_kinds(sent, (n - 1) as nat);
        missing_kinds_are_new(sent, (n - 1) as nat);
        assert forall|k: int| 0 <= k < missing_kinds(sent, n).len() implies exists|j: int|
            0 <= j < n && JudgeLogKind::all()[j] == #[trigger] missing_kinds(sent, n)[k] by {
            if k < before.len() {
                let j = choose|j: int| 0 <= j < n - 1 && JudgeLogKind::all()[j] == before[k];
                assert(JudgeLogKind::all()[j] == missing_kinds(sent, n)[k]);
            } else {
                assert(JudgeLogKind::all()[n - 1] == missing_kinds(sent, n)[k]);
            }
        }
        assert forall|a: int, b: int|
            0 <= a < missing_kinds(sent, n).len() && 0 <= b < missing_kinds(sent, n).len() && a
                != b implies missing_kinds(sent, n)[a] != missing_kinds(sent, n)[b] by {
            if a < before.len() && b >= before.len() {
                let j = choose|j: int| 0 <= j < n - 1 && JudgeLogKind::all()[j] == before[a];
            } else if b < before.len() && a >= before.len() {
                let j = choose|j: int| 0 <= j < n - 1 && JudgeLogKind::all()[j] == before[b];
            }
        }
    }
}

/// Each of the first `n` kinds is among `sent` or among the missing ones.
pub proof fn missing_kinds_cover(sent: Seq<JudgeLogKind>, n: nat, j: int)
    requires
        0 <= j < n <= JudgeLogKind::all().len(),
    ensures
        sent.contains(JudgeLogKind::all()[j]) || missing_kinds(sent, n).contains(
            JudgeLogKind::all()[j],
        ),
    decreases n,
{
    let kind = JudgeLogKind::all()[j];
    let before = missing_kinds(sent, (n - 1) as nat);
    if j < n - 1 {
        missing_kinds_cover(sent, (n - 1) as nat, j);
        if before.contains(kind) && !sent.contains(JudgeLogKind::all()[n - 1]) {
            let k = choose|k: int| 0 <= k < before.len() && before[k] == kind;
            assert(before.push(JudgeLogKind::all()[n - 1])[k] == kind);
        }
    } else if !sent.contains(kind) {
        assert(before.push(kind)[before.len() as int] == kind);
    }
}

/// Once the stand-in logs are sent, a log of every kind was sent.
pub proof fn fill_is_complete(sent: Seq<JudgeLogKind>, kind: JudgeLogKind)
    ensures
        (sent + unsent_kinds(sent)).contains(kind),
{
    JudgeLogKind::all_is_complete(kind);
    let j = choose|j: int| 0 <= j < JudgeLogKind::all().len() && JudgeLogKind::all()[j] == kind;
    missing_kinds_cover(sent, JudgeLogKind::all().len(), j);
    let all = sent + unsent_kinds(sent);
    if sent.contains(kind) {
        let k = choose|k: int| 0 <= k < sent.len() && sent[k] == kind;
        assert(all[k] == kind);
    } else {
        let k = choose|k: int| 0 <= k < unsent_kinds(sent).len() && unsent_kinds(sent)[k] == kind;
        assert(all[sent.len() + k] == kind);
    }
}

/// Remembers of which kinds a log was sent, so that none is sent twice.
#[derive(Debug, PartialEq, Eq)]
pub struct ProtocolSender {
    pub sent: Vec<JudgeLogKind>,
}

impl ProtocolSender {
    pub fn new() -> (r: ProtocolSender)
        ensures
            r.sent@ == Seq::<JudgeLogKind>::empty(),
    {
        ProtocolSender { sent: Vec::new() }
    }

    /// Whether a log of this kind was sent.
    pub fn was_sent(&self, kind: JudgeLogKind) -> (r: bool)
        ensures
            r == self.sent@.contains(kind),
    {
        let mut i: usize = 0;
        while i < self.sent.len()
            invariant
                i <= self.sent.len(),
                forall|k: int| 0 <= k < i ==> self.sent@[k] != kind,
            decreases self.sent.len() - i,
        {
            if self.sent[i] == kind {
                return true;
            }
            i += 1;
        }
        false
    }

    /// Records a log as sent and makes the event that announces it.
    pub fn send_log(&mut self, log: JudgeLog) -> (r: Event)
        requires
            !old(self).sent@.contains(log.kind),
        ensures
            final(self).sent@ == old(self).sent@.push(log.kind),
            r == Event::LogCreated(log),
    {
        self.sent.push(log.kind);
        Event::LogCreated(log)
    }

    /// Sends a stand-in log of each kind of which none was sent.
    pub fn send_fake_logs(&mut self, status: &Status, compile_log: &str) -> (r: Vec<Event>)
        ensures
            final(self).sent@ == old(self).sent@ + unsent_kinds(old(self).sent@),
            r.deep_view() == fake_events(
                unsent_kinds(old(self).sent@),
                status.deep_view(),
                compile_log@,
            ),
    {
        let kinds = JudgeLogKind::list();
        let mut events: Vec<Event> = Vec::new();
        let mut i: usize = 0;
        let ghost before = self.sent@;
        assert(events.deep_view() =~= fake_events(
            missing_kinds(before, 0),
            status.deep_view(),
            compile_log@,
        ));
        assert(self.sent@ =~= before + missing_kinds(before, 0));
        while i < kinds.len()
            invariant
                i <= kinds.len(),
                kinds@ == JudgeLogKind::all(),
                self.sent@ == before + missing_kinds(before, i as nat),
                events.deep_view() == fake_events(
                    missing_kinds(before, i as nat),
                    status.deep_view(),
                    compile_log@,
                ),
            decreases kinds.len() - i,
        {
            let kind = kinds[i];
            proof {
                missing_kinds_are_new(before, i as nat);
                if missing_kinds(before, i as nat).contains(kind) {
                    let k = choose|k: int|
                        0 <= k < missing_kinds(before, i as nat).len() && missing_kinds(
                            before,
                            i as nat,
                        )[k] == kind;
                    let j = choose|j: int|
                        0 <= j < i && JudgeLogKind::all()[j] == missing_kinds(before, i as nat)[k];
                    assert(false);
                }
                assert(self.sent@.contains(kind) <==> before.contains(kind)) by {
                    if self.sent@.contains(kind) {
                        let k = choose|k: int| 0 <= k < self.sent@.len() && self.sent@[k] == kind;
                        if k < before.len() {
                            assert(before[k] == kind);
                        } else {
                            assert(missing_kinds(before, i as nat)[k - before.len()] == kind);
                        }
                    }
                    if before.contains(kind) {
                        let k = choose|k: int| 0 <= k < before.len() && before[k] == kind;
                        assert(self.sent@[k] == kind);
                    }
                }
            }
            if !self.was_sent(kind) {
                let fake = JudgeLog {
                    kind,
                    tests: Vec::new(),
                    subtasks: Vec::new(),
                    compile_log: String::from_str(compile_log),
                    score: 0,
                    is_full: false,
                    status: status.clone(),
                };
                assert(fake.tests.deep_view() =~= Seq::empty());
                assert(fake.deep_view() == fake_log(kind, status.deep_view(), compile_log@));
                let ghost events0 = events;
                let event = self.send_log(fake);
                events.push(event);
                assert(events.deep_view() =~= events0.deep_view().push(event.deep_view()));
                assert(events.deep_view() =~= fake_events(
                    missing_kinds(before, (i + 1) as nat),
                    status.deep_view(),
                    compile_log@,
                ));
                assert(self.sent@ =~= before + missing_kinds(before, (i + 1) as nat));
            }
            i += 1;
        }
        events
    }
}

} // verus!
