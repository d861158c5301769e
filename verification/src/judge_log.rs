//! Judge logs: the lasting record of how a run was judged, one per kind.

use crate::problem::TestId;
use crate::sorting::Keyed;
use crate::valuer::{JudgeLogKind, Status, StatusKind, StatusView, SubtaskId};
use vstd::prelude::*;

verus! {

/// One test of a judge log. A field that may not be shown, or that is not
/// known, is left out. The four texts are base64.
#[derive(Clone, Debug, PartialEq, Eq)]
pub struct JudgeLogTestRow {
    pub test_id: TestId,
    pub status: Option<Status>,
    pub test_stdin: Option<String>,
    pub test_stdout: Option<String>,
    pub test_stderr: Option<String>,
    pub test_answer: Option<String>,
    pub time_usage: Option<u64>,
    pub memory_usage: Option<u64>,
}

pub struct JudgeLogTestRowView {
    pub test_id: TestId,
    pub status: Option<StatusView>,
    pub test_stdin: Option<Seq<char>>,
    pub test_stdout: Option<Seq<char>>,
    pub test_stderr: Option<Seq<char>>,
    pub test_answer: Option<Seq<char>>,
    pub time_usage: Option<u64>,
    pub memory_usage: Option<u64>,
}

impl DeepView for JudgeLogTestRow {
    type V = JudgeLogTestRowView;

    open spec fn deep_view(&self) -> JudgeLogTestRowView {
        JudgeLogTestRowView {
            test_id: self.test_id,
            status: self.status.deep_view(),
            test_stdin: self.test_stdin.deep_view(),
            test_stdout: self.test_stdout.deep_view(),
            test_stderr: self.test_stderr.deep_view(),
            test_answer: self.test_answer.deep_view(),
            time_usage: self.time_usage,
            memory_usage: self.memory_usage,
        }
    }
}

impl Keyed for JudgeLogTestRow {
    open spec fn key_spec(&self) -> u32 {
        self.test_id.0
    }

    fn key(&self) -> (r: u32) {
        self.test_id.0
    }
}

#[derive(Clone, Copy, Debug, PartialEq, Eq, Structural)]
pub struct JudgeLogSubtaskRow {
    pub subtask_id: SubtaskId,
    pub score: Option<u32>,
}

impl Keyed for JudgeLogSubtaskRow {
    open spec fn key_spec(&self) -> u32 {
        self.subtask_id.0
    }

    fn key(&self) -> (r: u32) {
        self.subtask_id.0
    }
}

#[derive(Clone, Debug, PartialEq, Eq)]
pub struct JudgeLog {
    pub kind: JudgeLogKind,
    pub tests: Vec<JudgeLogTestRow>,
    pub subtasks: Vec<JudgeLogSubtaskRow>,
    pub compile_log: String,
    pub score: u32,
    pub is_full: bool,
    pub status: Status,
}

pub struct JudgeLogView {
    pub kind: JudgeLogKind,
    pub tests: Seq<JudgeLogTestRowView>,
    pub subtasks: Seq<JudgeLogSubtaskRow>,
    pub compile_log: Seq<char>,
    pub score: u32,
    pub is_full: bool,
    pub status: StatusView,
}

impl DeepView for JudgeLog {
    type V = JudgeLogView;

    open spec fn deep_view(&self) -> JudgeLogView {
        JudgeLogView {
            kind: self.kind,
            tests: self.tests.deep_view(),
            subtasks: self.subtasks@,
            compile_log: self.compile_log@,
            score: self.score,
            is_full: self.is_full,
            status: self.status.deep_view(),
        }
    }
}

impl Default for JudgeLog {
    fn default() -> (r: JudgeLog)
        ensures
            r.deep_view() == (JudgeLogView {
                kind: JudgeLogKind::Contestant,
                tests: Seq::empty(),
                subtasks: Seq::empty(),
                compile_log: Seq::empty(),
                score: 0,
                is_full: false,
                status: StatusView { kind: StatusKind::NotSet, code: Seq::empty() },
            }),
    {
        let r = JudgeLog {
            kind: JudgeLogKind::Contestant,
            tests: Vec::new(),
            subtasks: Vec::new(),
            compile_log: String::new(),
            score: 0,
            is_full: false,
            status: Status { code: String::new(), kind: StatusKind::NotSet },
        };
        assert(r.tests.deep_view() =~= Seq::empty());
        r
    }
}

} // verus!
