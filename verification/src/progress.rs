//! Telling a user how a job is coming along.

use crate::live::LiveJudgeStatus;
use crate::text::{decimal, decimal_string};
use vstd::prelude::*;

verus! {

/// Remembers what the user was told last, so that nothing is told twice.
#[derive(Debug, PartialEq, Eq)]
pub struct ProgressPrinter {
    pub last_test: Option<u32>,
    pub last_score: Option<u32>,
}

/// The line that announces a test.
pub open spec fn test_line(test: u32) -> Seq<char> {
    "Running on test "@ + decimal(test as nat)
}

/// The line that announces a score.
pub open spec fn score_line(score: u32) -> Seq<char> {
    "Current score: "@ + decimal(score as nat)
}

/// The lines that a status is worth: one for the test, if it is known and
/// is not the test that was announced last, then one for the score, likewise.
pub open spec fn lines_for(printer: ProgressPrinter, live: LiveJudgeStatus) -> Seq<Seq<char>> {
    let test = if live.test is Some && live.test != printer.last_test {
        seq![test_line(live.test->0)]
    } else {
        Seq::empty()
    };
    let score = if live.score is Some && live.score != printer.last_score {
        seq![score_line(live.score->0)]
    } else {
        Seq::empty()
    };
    test + score
}

/// The logs of a job that were fetched already, by the names of their
/// kinds.
#[derive(Debug, PartialEq, Eq)]
pub struct ReceivedLogs {
    pub names: Vec<String>,
}

/// Whether `name` is among `names`.
pub open spec fn has_name(names: Seq<Seq<char>>, name: Seq<char>) -> bool {
    names.contains(name)
}

/// Those of the first `n` of `logs` that are not among `received` and do
/// not stand earlier in `logs`, in their order.
pub open spec fn new_names(received: Seq<Seq<char>>, logs: Seq<Seq<char>>, n: nat) -> Seq<
    Seq<char>,
>
    decreases n,
{
    if n == 0 {
        Seq::empty()
    } else {
        let before = new_names(received, logs, (n - 1) as nat);
        let name = logs[n - 1];
        if has_name(received + before, name) {
            before
        } else {
            before.push(name)
        }
    }
}

/// Name of the file that keeps the log of a kind.
pub open spec fn log_file(kind: Seq<char>) -> Seq<char> {
    "log-"@ + kind + ".json"@
}

/// Name of the file that keeps the log of a kind.
pub fn log_file_name(kind: &str) -> (r: String)
    ensures
        r@ == log_file(kind@),
{
    let mut name = String::from_str("log-");
    name.append(kind);
    name.append(".json");
    name
}

impl ReceivedLogs {
    pub fn new() -> (r: Self)
        ensures
            r.names@.len() == 0,
    {
        ReceivedLogs { names: Vec::new() }
    }

    fn has(&self, name: &str) -> (r: bool)
        ensures
            r == has_name(self.names.deep_view(), name@),
    {
        let wanted = String::from_str(name);
        let mut i: usize = 0;
        while i < self.names.len()
            invariant
                i <= self.names.len(),
                wanted@ == name@,
                forall|k: int| 0 <= k < i ==> self.names.deep_view()[k] != name@,
            decreases self.names.len() - i,
        {
            if self.names[i] == wanted {
                assert(self.names.deep_view()[i as int] == name@);
                return true;
            }
            i += 1;
        }
        false
    }

    /// Takes note of the logs that a job has, and gives those that are to
    /// be fetched: the ones that were not there before, each once.
    pub fn add(&mut self, logs: &Vec<String>) -> (r: Vec<String>)
        ensures
            r.deep_view() == new_names(
                old(self).names.deep_view(),
                logs.deep_view(),
                logs@.len(),
            ),
            final(self).names.deep_view() == old(self).names.deep_view() + r.deep_view(),
    {
        let ghost received = self.names.deep_view();
        let mut fresh: Vec<String> = Vec::new();
        let mut i: usize = 0;
        assert(fresh.deep_view() =~= new_names(received, logs.deep_view(), 0));
        assert(self.names.deep_view() =~= received + fresh.deep_view());
        while i < logs.len()
            invariant
                i <= logs.len(),
                fresh.deep_view() == new_names(received, logs.deep_view(), i as nat),
                self.names.deep_view() == received + fresh.deep_view(),
            decreases logs.len() - i,
        {
            assert(logs.deep_view()[i as int] == logs@[i as int]@);
            if !self.has(logs[i].as_str()) {
                let ghost names0 = self.names.deep_view();
                let ghost fresh0 = fresh.deep_view();
                self.names.push(logs[i].clone());
                fresh.push(logs[i].clone());
                assert(fresh.deep_view() =~= fresh0.push(logs@[i as int]@));
                assert(self.names.deep_view() =~= names0.push(logs@[i as int]@));
                assert(self.names.deep_view() =~= received + fresh.deep_view());
            }
            i += 1;
        }
        fresh
    }
}

impl ProgressPrinter {
    pub fn new() -> (r: Self)
        ensures
            r.last_test is None,
            r.last_score is None,
    {
        ProgressPrinter { last_test: None, last_score: None }
    }

    /// Takes note of a status and gives the lines to print.
    pub fn add(&mut self, live_status: &LiveJudgeStatus) -> (r: Vec<String>)
        ensures
            r.deep_view() == lines_for(*old(self), *live_status),
            final(self).last_test == if live_status.test is Some {
                live_status.test
            } else {
                old(self).last_test
            },
            final(self).last_score == if live_status.score is Some {
                live_status.score
            } else {
                old(self).last_score
            },
    {
        let mut lines: Vec<String> = Vec::new();
        if let Some(test) = live_status.test {
            if Some(test) != self.last_test {
                self.last_test = Some(test);
                let mut line = String::from_str("Running on test ");
                line.append(decimal_string(test as u64).as_str());
                lines.push(line);
            }
        }
        if let Some(score) = live_status.score {
            if Some(score) != self.last_score {
                self.last_score = Some(score);
                let mut line = String::from_str("Current score: ");
                line.append(decimal_string(score as u64).as_str());
                lines.push(line);
            }
        }
        assert(lines.deep_view() =~= lines_for(*old(self), *live_status));
        lines
    }
}

} // verus!
