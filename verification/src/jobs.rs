//! What the judge's front keeps of each job: what the job has let be seen
//! so far, and how it ended.

use crate::judge_log::{JudgeLog, JudgeLogView};
use crate::live::LiveJudgeStatus;
use crate::paths::{join, joined_path};
use crate::processor::{Event, JudgeOutcome, Request, Settings};
use crate::rest::{JudgeJobView, JudgeRequest};
use crate::text::{copy_pairs, same_text};
use crate::valuer::JudgeLogKind;
use vstd::prelude::*;

verus! {

#[derive(Debug, PartialEq, Eq)]
pub struct RestConfig {
    /// The port to listen on.
    pub port: u16,
}

/// What is kept of one job.
#[derive(Debug, PartialEq, Eq)]
pub struct JudgeJob {
    /// The job's UUID, as a number.
    pub id: u128,
    pub live_test: Option<u32>,
    pub live_score: Option<u32>,
    /// The logs that were created, at most one of each kind.
    pub logs: Vec<(JudgeLogKind, JudgeLog)>,
    pub annotations: Vec<(String, String)>,
    /// How the job ended, once it is over.
    pub outcome: Option<JudgeOutcome>,
}

/// Position of the first log of this kind, or the number of logs.
pub open spec fn log_position(logs: Seq<(JudgeLogKind, JudgeLogView)>, kind: JudgeLogKind) -> int
    decreases logs.len(),
{
    if logs.len() == 0 {
        0
    } else if logs[0].0 == kind {
        0
    } else {
        1 + log_position(logs.drop_first(), kind)
    }
}

/// The position is that of a log of the kind, and no log before it is of
/// the kind.
pub proof fn log_position_bounds(logs: Seq<(JudgeLogKind, JudgeLogView)>, kind: JudgeLogKind)
    ensures
        0 <= log_position(logs, kind) <= logs.len(),
        log_position(logs, kind) < logs.len() ==> logs[log_position(logs, kind)].0 == kind,
        forall|k: int| 0 <= k < log_position(logs, kind) ==> (#[trigger] logs[k]).0 != kind,
    decreases logs.len(),
{
    if logs.len() != 0 && logs[0].0 != kind {
        let rest = logs.drop_first();
        log_position_bounds(rest, kind);
        assert forall|k: int| 0 <= k < log_position(logs, kind) implies (#[trigger] logs[k]).0
            != kind by {
            if k > 0 {
                assert(rest[k - 1] == logs[k]);
            }
        }
    }
}

/// The logs with one more: it takes the place of the log of its kind, or
/// comes last where there is none.
pub open spec fn with_log(logs: Seq<(JudgeLogKind, JudgeLogView)>, log: JudgeLogView) -> Seq<
    (JudgeLogKind, JudgeLogView),
> {
    let at = log_position(logs, log.kind);
    if at < logs.len() {
        logs.update(at, (log.kind, log))
    } else {
        logs.push((log.kind, log))
    }
}

/// The names of the kinds of the logs, in the order of the logs.
pub open spec fn log_names(logs: Seq<(JudgeLogKind, JudgeLogView)>) -> Seq<Seq<char>> {
    Seq::new(logs.len(), |i: int| logs[i].0.name())
}

impl JudgeJob {
    /// The record of a job that has just started.
    pub fn new(id: u128, annotations: Vec<(String, String)>) -> (r: JudgeJob)
        ensures
            r.id == id,
            r.live_test is None,
            r.live_score is None,
            r.logs@.len() == 0,
            r.annotations == annotations,
            r.outcome is None,
    {
        JudgeJob {
            id,
            live_test: None,
            live_score: None,
            logs: Vec::new(),
            annotations,
            outcome: None,
        }
    }

    fn find_log(&self, kind: JudgeLogKind) -> (r: usize)
        ensures
            r == log_position(self.logs.deep_view(), kind),
    {
        let ghost logs = self.logs.deep_view();
        proof {
            log_position_bounds(logs, kind);
        }
        let mut i: usize = 0;
        while i < self.logs.len()
            invariant
                i <= self.logs.len(),
                logs == self.logs.deep_view(),
                i <= log_position(logs, kind) <= logs.len(),
                log_position(logs, kind) < logs.len() ==> logs[log_position(logs, kind)].0 == kind,
                forall|k: int| 0 <= k < log_position(logs, kind) ==> (#[trigger] logs[k]).0 != kind,
            decreases self.logs.len() - i,
        {
            assert(logs[i as int].0 == self.logs@[i as int].0);
            if self.logs[i].0 == kind {
                return i;
            }
            i += 1;
        }
        i
    }

    /// Takes note of something that the job has let be seen.
    pub fn record(&mut self, event: Event)
        ensures
            final(self).id == old(self).id,
            final(self).annotations == old(self).annotations,
            final(self).outcome == old(self).outcome,
            final(self).live_test == match event {
                Event::LiveTest(test) => Some(test),
                _ => old(self).live_test,
            },
            final(self).live_score == match event {
                Event::LiveScore(score) => Some(score),
                _ => old(self).live_score,
            },
            final(self).logs.deep_view() == match event {
                Event::LogCreated(log) => with_log(old(self).logs.deep_view(), log.deep_view()),
                _ => old(self).logs.deep_view(),
            },
    {
        match event {
            Event::LiveScore(score) => {
                self.live_score = Some(score);
            },
            Event::LiveTest(test) => {
                self.live_test = Some(test);
            },
            Event::LogCreated(log) => {
                let at = self.find_log(log.kind);
                let ghost before = self.logs.deep_view();
                let kind = log.kind;
                if at < self.logs.len() {
                    self.logs.remove(at);
                    self.logs.insert(at, (kind, log));
                    assert(self.logs.deep_view() =~= before.update(
                        at as int,
                        (kind, log.deep_view()),
                    ));
                } else {
                    self.logs.push((kind, log));
                    assert(self.logs.deep_view() =~= before.push((kind, log.deep_view())));
                }
            },
        }
    }

    /// Takes note of how the job ended.
    pub fn complete(&mut self, outcome: JudgeOutcome)
        ensures
            *final(self) == (JudgeJob { outcome: Some(outcome), ..*old(self) }),
    {
        self.outcome = Some(outcome);
    }

    /// What the job's record says to the outside: the job is completed if
    /// and only if it has an outcome, and it has an error if and only if that
    /// outcome is a fault.
    pub fn as_rest(&self) -> (r: crate::rest::JudgeJob)
        ensures
            r.deep_view() == (JudgeJobView {
                id: self.id,
                logs: log_names(self.logs.deep_view()),
                annotations: self.annotations.deep_view(),
                completed: self.outcome is Some,
                live: LiveJudgeStatus { test: self.live_test, score: self.live_score },
                error: match self.outcome {
                    Some(JudgeOutcome::Fault { error }) => Some(error.detail@),
                    _ => None,
                },
            }),
    {
        let error = match &self.outcome {
            Some(JudgeOutcome::Fault { error }) => Some(error.message()),
            _ => None,
        };
        let mut logs: Vec<String> = Vec::new();
        let mut i: usize = 0;
        while i < self.logs.len()
            invariant
                i <= self.logs.len(),
                logs.len() == i,
                forall|k: int| 0 <= k < i ==> logs[k]@ == self.logs@[k].0.name(),
            decreases self.logs.len() - i,
        {
            logs.push(String::from_str(self.logs[i].0.as_str()));
            i += 1;
        }
        assert(logs.deep_view() =~= log_names(self.logs.deep_view()));
        crate::rest::JudgeJob {
            id: self.id,
            logs,
            annotations: copy_pairs(&self.annotations),
            completed: self.outcome.is_some(),
            live: LiveJudgeStatus { test: self.live_test, score: self.live_score },
            error,
        }
    }

    /// The log of the kind of this name, if it was created.
    pub fn log(&self, kind: &str) -> (r: Option<&JudgeLog>)
        ensures
            match r {
                Some(log) => exists|i: int|
                    0 <= i < self.logs@.len() && self.logs@[i].0.name() == kind@ && self.logs@[i].1
                        == *log,
                None => forall|i: int|
                    0 <= i < self.logs@.len() ==> (#[trigger] self.logs@[i]).0.name() != kind@,
            },
    {
        let mut i: usize = 0;
        while i < self.logs.len()
            invariant
                i <= self.logs.len(),
                forall|k: int| 0 <= k < i ==> (#[trigger] self.logs@[k]).0.name() != kind@,
            decreases self.logs.len() - i,
        {
            if same_text(self.logs[i].0.as_str(), kind) {
                return Some(&self.logs[i].1);
            }
            i += 1;
        }
        None
    }
}

/// The request that the judge core takes, made of the request that the
/// front has taken.
pub fn request_of(req: JudgeRequest) -> (r: (Request, Vec<(String, String)>))
    ensures
        r.0.toolchain_name == req.toolchain_name,
        r.0.problem_id == req.problem_id,
        r.0.run_source == req.run_source.0,
        r.1 == req.annotations,
{
    (
        Request {
            toolchain_name: req.toolchain_name,
            problem_id: req.problem_id,
            run_source: req.run_source.0,
        },
        req.annotations,
    )
}

/// The settings of one job: the checker's logs of a job go to a directory
/// of their own, called after the job.
pub fn settings_for(settings: &Settings, job_id: &str) -> (r: Settings)
    ensures
        match settings.checker_logs {
            Some(dir) => r.checker_logs is Some && r.checker_logs->0@ == joined_path(dir@, job_id@),
            None => r.checker_logs is None,
        },
{
    match &settings.checker_logs {
        Some(dir) => Settings { checker_logs: Some(join(dir.as_str(), job_id)) },
        None => Settings { checker_logs: None },
    }
}

} // verus!
