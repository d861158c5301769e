//! The vocabulary shared with the valuer, the scoring engine of a problem:
//! statuses, log kinds, visibility flags and the messages of its protocol.

use crate::problem::TestId;
use crate::status_codes;
use vstd::prelude::*;

verus! {

#[derive(Clone, Copy, Debug, PartialEq, Eq, Structural)]
pub enum StatusKind {
    Queue,
    /// Wrong answer, time limit exceeded and the like.
    Rejected,
    CompilationError,
    Accepted,
    NotSet,
    InternalError,
    Skipped,
}

/// How something was judged: a coarse kind, and a code that tells the cases of a kind apart.
#[derive(Debug, PartialEq, Eq)]
pub struct Status {
    pub kind: StatusKind,
    pub code: String,
}

pub struct StatusView {
    pub kind: StatusKind,
    pub code: Seq<char>,
}

impl DeepView for Status {
    type V = StatusView;

    open spec fn deep_view(&self) -> StatusView {
        StatusView { kind: self.kind, code: self.code@ }
    }
}

impl Clone for Status {
    fn clone(&self) -> (r: Self)
        ensures
            r.deep_view() == self.deep_view(),
    {
        Status { kind: self.kind, code: self.code.clone() }
    }
}

impl Status {
    pub fn new(kind: StatusKind, code: &str) -> (r: Status)
        ensures
            r.deep_view() == (StatusView { kind, code: code@ }),
    {
        Status { kind, code: String::from_str(code) }
    }

    /// The status of anything that went wrong inside the judge.
    pub open spec fn judge_fault() -> StatusView {
        StatusView { kind: StatusKind::InternalError, code: status_codes::JUDGE_FAULT@ }
    }
}

/// A tier of disclosure of a judge log.
#[derive(Clone, Copy, Debug, PartialEq, Eq, Structural, Hash)]
pub enum JudgeLogKind {
    /// Safe to be shown to the contestant.
    Contestant,
    /// Everything that is known about the run.
    Full,
}

impl DeepView for JudgeLogKind {
    type V = JudgeLogKind;

    open spec fn deep_view(&self) -> JudgeLogKind {
        *self
    }
}

impl JudgeLogKind {
    /// Every kind, in the order in which logs are made up where the valuer
    /// sends none.
    pub open spec fn all() -> Seq<JudgeLogKind> {
        seq![JudgeLogKind::Contestant, JudgeLogKind::Full]
    }

    /// The name of the kind, as it stands in addresses and file names.
    pub open spec fn name(self) -> Seq<char> {
        match self {
            JudgeLogKind::Contestant => "contestant"@,
            JudgeLogKind::Full => "full"@,
        }
    }

    pub fn as_str(self) -> (r: &'static str)
        ensures
            r@ == self.name(),
    {
        match self {
            JudgeLogKind::Contestant => "contestant",
            JudgeLogKind::Full => "full",
        }
    }

    pub fn list() -> (r: Vec<JudgeLogKind>)
        ensures
            r@ == JudgeLogKind::all(),
    {
        let mut r: Vec<JudgeLogKind> = Vec::new();
        r.push(JudgeLogKind::Contestant);
        r.push(JudgeLogKind::Full);
        assert(r@ =~= JudgeLogKind::all());
        r
    }

    /// Every kind occurs in `all`.
    pub proof fn all_is_complete(kind: JudgeLogKind)
        ensures
            JudgeLogKind::all().contains(kind),
    {
        assert(JudgeLogKind::all()[0] == JudgeLogKind::Contestant);
        assert(JudgeLogKind::all()[1] == JudgeLogKind::Full);
    }
}

/// Number of a subtask, counted from one.
#[derive(Clone, Copy, Debug, PartialEq, Eq, Structural, Hash)]
pub struct SubtaskId(pub u32);

impl SubtaskId {
    pub fn make(value: u32) -> (r: SubtaskId)
        requires
            value != 0,
        ensures
            r == SubtaskId(value),
    {
        SubtaskId(value)
    }
}

/// The input of the test.
pub const TEST_DATA: u32 = 1;

/// What the solution wrote to its standard output and standard error.
pub const OUTPUT: u32 = 2;

/// The reference answer.
pub const ANSWER: u32 = 4;

/// The status of the test.
pub const STATUS: u32 = 8;

/// The time and the memory that the solution used.
pub const RESOURCE_USAGE: u32 = 16;

/// Which parts of a test a judge log may show: a set of the flags above.
#[derive(Clone, Copy, Debug, PartialEq, Eq, Structural)]
pub struct TestVisibleComponents {
    pub bits: u32,
}

impl TestVisibleComponents {
    /// Whether every flag of `flags` is set.
    pub open spec fn shows(self, flags: u32) -> bool {
        self.bits & flags == flags
    }

    #[verifier::when_used_as_spec(shows)]
    pub fn contains(self, flags: u32) -> (r: bool)
        ensures
            r == self.shows(flags),
    {
        self.bits & flags == flags
    }

    pub fn empty() -> (r: TestVisibleComponents)
        ensures
            r.bits == 0,
    {
        TestVisibleComponents { bits: 0 }
    }

    pub fn from_bits(bits: u32) -> (r: TestVisibleComponents)
        ensures
            r.bits == bits,
    {
        TestVisibleComponents { bits }
    }
}

/// A row of a valuer's judge log: one test, its status, and what of it may
/// be shown.
#[derive(Debug, PartialEq, Eq)]
pub struct JudgeLogTestRow {
    pub test_id: TestId,
    pub status: Status,
    pub components: TestVisibleComponents,
}

#[derive(Clone, Copy, Debug, PartialEq, Eq, Structural)]
pub struct JudgeLogSubtaskRow {
    pub subtask_id: SubtaskId,
    pub score: u32,
}

/// A judge log as the valuer sends it.
#[derive(Debug, PartialEq, Eq)]
pub struct JudgeLog {
    pub kind: JudgeLogKind,
    pub tests: Vec<JudgeLogTestRow>,
    pub subtasks: Vec<JudgeLogSubtaskRow>,
    pub score: u32,
    pub is_full: bool,
}

/// What the judge tells the valuer about the problem, once, before anything
/// else: the group of each test, in the order of the tests.
#[derive(Debug, PartialEq, Eq)]
pub struct ProblemInfo {
    pub tests: Vec<String>,
}

/// What the judge tells the valuer after each test.
#[derive(Debug, PartialEq, Eq)]
pub struct TestDoneNotification {
    pub test_id: TestId,
    pub test_status: Status,
}

/// What the valuer asks of the judge.
#[derive(Debug, PartialEq, Eq)]
pub enum ValuerResponse {
    /// Run this test; announce it to onlookers where `live` is set.
    Test { test_id: TestId, live: bool },
    /// Nothing more will come.
    Finish,
    /// Announce this score to onlookers.
    LiveScore { score: u32 },
    /// A judge log is complete.
    JudgeLog(JudgeLog),
}

} // verus!
