//! Turning a judge log of the valuer into a judge log for keeps. The valuer
//! says which tests a log shows and what of each may be seen; the judge adds
//! what it knows of those tests and leaves the rest out.

use crate::codec::{base64_bytes, base64_encode, base64_text, encodable_len};
use crate::compile::BuildOutcome;
use crate::error::{Error, ErrorKind};
use crate::exec_test::{ExecOutcome, ExecOutcomeView, ResourceUsage};
use crate::judge_log::{
    JudgeLog, JudgeLogSubtaskRow, JudgeLogTestRow, JudgeLogTestRowView, JudgeLogView,
};
use crate::problem::{Problem, TestId};
use crate::sorting::{
    distinct_keys, is_sorted, is_strictly_sorted, key_of, sort_by_key, stable_sort,
    stable_sort_is_sorted, stable_sort_is_strict, stable_sort_keeps_items, stable_sort_len,
    stable_sort_maps,
};
use crate::status_codes;
use crate::valuer::{
    Status, StatusKind, StatusView, ANSWER, OUTPUT, RESOURCE_USAGE, STATUS, TEST_DATA,
};
use vstd::prelude::*;
use vstd::utf8::*;

verus! {

/// The contents of the files that a row of a log may show.
#[derive(Debug, PartialEq, Eq)]
pub struct RowAssets {
    /// The input of the row's test.
    pub test_data: Option<Vec<u8>>,
    /// The reference answer of the row's test.
    pub answer: Option<Vec<u8>>,
}

/// The outcome of the first run of a test, if it was run.
pub open spec fn first_outcome(results: Seq<(TestId, ExecOutcomeView)>, id: TestId) -> Option<
    ExecOutcomeView,
>
    decreases results.len(),
{
    if results.len() == 0 {
        None
    } else if results[0].0 == id {
        Some(results[0].1)
    } else {
        first_outcome(results.drop_first(), id)
    }
}

/// What the last run of a test used, if it was run.
pub open spec fn last_usage(results: Seq<(TestId, ExecOutcomeView)>, id: TestId) -> Option<
    ResourceUsage,
>
    decreases results.len(),
{
    if results.len() == 0 {
        None
    } else if results.last().0 == id {
        Some(results.last().1.resource_usage)
    } else {
        last_usage(results.drop_last(), id)
    }
}

/// The status of a log: accepted where the valuer calls the solution full,
/// else a partial solution.
pub open spec fn log_status(is_full: bool) -> StatusView {
    if is_full {
        StatusView { kind: StatusKind::Accepted, code: status_codes::ACCEPTED@ }
    } else {
        StatusView { kind: StatusKind::Rejected, code: status_codes::PARTIAL_SOLUTION@ }
    }
}

/// Whether the problem has a test of this number.
pub open spec fn has_test(problem: Problem, id: TestId) -> bool {
    1 <= id.0 <= problem.tests@.len()
}

/// A payload field that shows these bytes.
pub open spec fn encoded(bytes: Seq<u8>) -> Result<Option<Seq<char>>, ErrorKind> {
    if encodable_len(bytes.len()) {
        Ok(Some(base64_text(bytes)))
    } else {
        Err(ErrorKind::PayloadTooLarge)
    }
}

/// The field for the input of the test of a row that was run.
pub open spec fn stdin_field(
    item: crate::valuer::JudgeLogTestRow,
    problem: Problem,
    assets: RowAssets,
) -> Result<Option<Seq<char>>, ErrorKind> {
    if !item.components.shows(TEST_DATA) {
        Ok(None)
    } else if !has_test(problem, item.test_id) {
        Err(ErrorKind::UnknownTest)
    } else {
        match assets.test_data {
            None => Err(ErrorKind::MissingAsset),
            Some(data) => encoded(data@),
        }
    }
}

/// The field for something that the solution wrote.
pub open spec fn output_field(item: crate::valuer::JudgeLogTestRow, written: Seq<char>) -> Result<
    Option<Seq<char>>,
    ErrorKind,
> {
    if !item.components.shows(OUTPUT) {
        Ok(None)
    } else {
        encoded(encode_utf8(written))
    }
}

/// The field for the reference answer of the test of a row that was run.
pub open spec fn answer_field(
    item: crate::valuer::JudgeLogTestRow,
    problem: Problem,
    assets: RowAssets,
) -> Result<Option<Seq<char>>, ErrorKind> {
    if !item.components.shows(ANSWER) {
        Ok(None)
    } else if !has_test(problem, item.test_id) {
        Err(ErrorKind::UnknownTest)
    } else if problem.tests@[item.test_id.0 - 1].correct is None {
        Ok(None)
    } else {
        match assets.answer {
            None => Err(ErrorKind::MissingAsset),
            Some(answer) => encoded(answer@),
        }
    }
}

/// The row that has nothing but the number of the test and, where it may
/// be shown, the status.
pub open spec fn bare_row(item: crate::valuer::JudgeLogTestRow) -> JudgeLogTestRowView {
    JudgeLogTestRowView {
        test_id: item.test_id,
        status: if item.components.shows(STATUS) {
            Some(item.status.deep_view())
        } else {
            None
        },
        test_stdin: None,
        test_stdout: None,
        test_stderr: None,
        test_answer: None,
        time_usage: None,
        memory_usage: None,
    }
}

/// The row of the lasting log that a row of the valuer's log becomes.
/// `outcome` is how the test went, if it was run; `usage` what it used.
pub open spec fn exported_row(
    item: crate::valuer::JudgeLogTestRow,
    outcome: Option<ExecOutcomeView>,
    usage: Option<ResourceUsage>,
    problem: Problem,
    assets: RowAssets,
) -> Result<JudgeLogTestRowView, ErrorKind> {
    match outcome {
        None => Ok(bare_row(item)),
        Some(outcome) => match stdin_field(item, problem, assets) {
            Err(kind) => Err(kind),
            Ok(test_stdin) => match output_field(item, outcome.stdout) {
                Err(kind) => Err(kind),
                Ok(test_stdout) => match output_field(item, outcome.stderr) {
                    Err(kind) => Err(kind),
                    Ok(test_stderr) => match answer_field(item, problem, assets) {
                        Err(kind) => Err(kind),
                        Ok(test_answer) => {
                            let shown = item.components.shows(RESOURCE_USAGE) && usage is Some;
                            Ok(
                                JudgeLogTestRowView {
                                    test_stdin,
                                    test_stdout,
                                    test_stderr,
                                    test_answer,
                                    time_usage: if shown {
                                        usage->0.time
                                    } else {
                                        None
                                    },
                                    memory_usage: if shown {
                                        usage->0.memory
                                    } else {
                                        None
                                    },
                                    ..bare_row(item)
                                },
                            )
                        },
                    },
                },
            },
        },
    }
}

/// Each text of the row, decoded, is what it shows: the input and the
/// answer as they were supplied, the output as the solution wrote it.
pub open spec fn payloads_decode(
    row: JudgeLogTestRowView,
    outcome: Option<ExecOutcomeView>,
    assets: RowAssets,
) -> bool {
    &&& row.test_stdin matches Some(text) ==> assets.test_data is Some && base64_bytes(text)
        == Some(assets.test_data->0@)
    &&& row.test_answer matches Some(text) ==> assets.answer is Some && base64_bytes(text) == Some(
        assets.answer->0@,
    )
    &&& row.test_stdout matches Some(text) ==> outcome is Some && base64_bytes(text) == Some(
        encode_utf8(outcome->0.stdout),
    )
    &&& row.test_stderr matches Some(text) ==> outcome is Some && base64_bytes(text) == Some(
        encode_utf8(outcome->0.stderr),
    )
}

fn encode(bytes: &[u8]) -> (r: Result<Option<String>, Error>)
    ensures
        match encoded(bytes@) {
            Ok(field) => r is Ok && r->Ok_0.deep_view() == field,
            Err(kind) => r is Err && r->Err_0.kind == kind,
        },
        r matches Ok(Some(text)) ==> base64_bytes(text@) == Some(bytes@),
{
    if bytes.len() / 3 >= usize::MAX / 4 {
        return Err(Error::new(ErrorKind::PayloadTooLarge, "payload too large"));
    }
    Ok(Some(base64_encode(bytes)))
}

/// Makes the lasting row of one row of the valuer's log.
pub fn export_test(
    item: &crate::valuer::JudgeLogTestRow,
    exec_outcome: Option<&ExecOutcome>,
    resource_usage: Option<ResourceUsage>,
    problem: &Problem,
    assets: &RowAssets,
) -> (r: Result<JudgeLogTestRow, Error>)
    ensures
        match exported_row(
            *item,
            match exec_outcome {
                Some(outcome) => Some(outcome.deep_view()),
                None => None,
            },
            resource_usage,
            *problem,
            *assets,
        ) {
            Ok(row) => r is Ok && r->Ok_0.deep_view() == row,
            Err(kind) => r is Err && r->Err_0.kind == kind,
        },
        r matches Ok(row) ==> payloads_decode(
            row.deep_view(),
            match exec_outcome {
                Some(outcome) => Some(outcome.deep_view()),
                None => None,
            },
            *assets,
        ),
{
    let mut new_item = JudgeLogTestRow {
        test_id: item.test_id,
        test_answer: None,
        test_stdout: None,
        test_stderr: None,
        test_stdin: None,
        status: None,
        time_usage: None,
        memory_usage: None,
    };
    if item.components.contains(STATUS) {
        new_item.status = Some(item.status.clone());
    }
    let exec_outcome = match exec_outcome {
        Some(outcome) => outcome,
        None => {
            return Ok(new_item);
        },
    };
    let known = 1 <= item.test_id.0 && item.test_id.0 as usize <= problem.tests.len();
    if item.components.contains(TEST_DATA) {
        if !known {
            return Err(Error::new(ErrorKind::UnknownTest, "unknown test"));
        }
        match &assets.test_data {
            None => {
                return Err(Error::new(ErrorKind::MissingAsset, "failed to read test data"));
            },
            Some(data) => {
                new_item.test_stdin = encode(data.as_slice())?;
            },
        }
    }
    if item.components.contains(OUTPUT) {
        new_item.test_stdout = encode(exec_outcome.stdout.as_str().as_bytes())?;
        new_item.test_stderr = encode(exec_outcome.stderr.as_str().as_bytes())?;
    }
    if item.components.contains(ANSWER) {
        if !known {
            return Err(Error::new(ErrorKind::UnknownTest, "unknown test"));
        }
        if problem.tests[item.test_id.to_idx()].correct.is_some() {
            match &assets.answer {
                None => {
                    return Err(
                        Error::new(ErrorKind::MissingAsset, "failed to read correct answer"),
                    );
                },
                Some(answer) => {
                    new_item.test_answer = encode(answer.as_slice())?;
                },
            }
        }
    }
    if let Some(usage) = resource_usage {
        if item.components.contains(RESOURCE_USAGE) {
            new_item.memory_usage = usage.memory;
            new_item.time_usage = usage.time;
        }
    }
    Ok(new_item)
}

/// What was supplied for the row number `i`: nothing, where the list is
/// too short.
pub open spec fn supplied(assets: Seq<RowAssets>, i: int) -> RowAssets {
    if 0 <= i < assets.len() {
        assets[i]
    } else {
        RowAssets { test_data: None, answer: None }
    }
}

/// The first `n` rows of the valuer's log, made lasting, in the valuer's
/// order; or the kind of the first failure.
pub open spec fn exported_rows(
    log: crate::valuer::JudgeLog,
    results: Seq<(TestId, ExecOutcomeView)>,
    problem: Problem,
    assets: Seq<RowAssets>,
    n: nat,
) -> Result<Seq<JudgeLogTestRowView>, ErrorKind>
    decreases n,
{
    if n == 0 {
        Ok(Seq::empty())
    } else {
        match exported_rows(log, results, problem, assets, (n - 1) as nat) {
            Err(kind) => Err(kind),
            Ok(rows) => {
                let item = log.tests@[n - 1];
                match exported_row(
                    item,
                    first_outcome(results, item.test_id),
                    last_usage(results, item.test_id),
                    problem,
                    supplied(assets, n - 1),
                ) {
                    Err(kind) => Err(kind),
                    Ok(row) => Ok(rows.push(row)),
                }
            },
        }
    }
}

/// The number of the test of a row.
pub open spec fn row_number() -> spec_fn(JudgeLogTestRowView) -> u32 {
    |row: JudgeLogTestRowView| row.test_id.0
}

/// The subtasks of the valuer's log, in the valuer's order. Which subtasks
/// a log shows is up to the valuer.
pub open spec fn exported_subtasks(log: crate::valuer::JudgeLog) -> Seq<JudgeLogSubtaskRow> {
    Seq::new(
        log.subtasks@.len(),
        |i: int|
            JudgeLogSubtaskRow {
                subtask_id: log.subtasks@[i].subtask_id,
                score: Some(log.subtasks@[i].score),
            },
    )
}

/// The lasting log that a log of the valuer becomes: tests and subtasks in
/// the order of their numbers, kind and score as the valuer gave them, the
/// compile log of the build. A lasting log is never marked full.
pub open spec fn transformed(
    log: crate::valuer::JudgeLog,
    compile_log: Seq<char>,
    results: Seq<(TestId, ExecOutcomeView)>,
    problem: Problem,
    assets: Seq<RowAssets>,
) -> Result<JudgeLogView, ErrorKind> {
    match exported_rows(log, results, problem, assets, log.tests@.len()) {
        Err(kind) => Err(kind),
        Ok(rows) => Ok(
            JudgeLogView {
                kind: log.kind,
                tests: stable_sort(rows, row_number()),
                subtasks: stable_sort(exported_subtasks(log), key_of::<JudgeLogSubtaskRow>()),
                compile_log,
                score: log.score,
                is_full: false,
                status: log_status(log.is_full),
            },
        ),
    }
}

/// The row shows, in each of its texts, what was supplied for some row of
/// the valuer's log or written in the first run of that row's test.
pub open spec fn row_decodes(
    row: JudgeLogTestRowView,
    log: crate::valuer::JudgeLog,
    results: Seq<(TestId, ExecOutcomeView)>,
    assets: Seq<RowAssets>,
) -> bool {
    exists|i: int|
        0 <= i < log.tests@.len() && #[trigger] payloads_decode(
            row,
            first_outcome(results, log.tests@[i].test_id),
            supplied(assets, i),
        )
}

/// Every row of `tests` decodes to what it shows.
pub open spec fn all_payloads_decode(
    tests: Seq<JudgeLogTestRowView>,
    log: crate::valuer::JudgeLog,
    results: Seq<(TestId, ExecOutcomeView)>,
    assets: Seq<RowAssets>,
) -> bool {
    forall|k: int| 0 <= k < tests.len() ==> row_decodes(#[trigger] tests[k], log, results, assets)
}

/// A field of a lasting row is filled if and only if the valuer lets it be
/// seen and the judge has what it shows: the test was run, and, for the
/// answer, the test has one; for the time and the memory, the last run of
/// the test has measured them.
pub proof fn visibility_is_honored(
    item: crate::valuer::JudgeLogTestRow,
    outcome: Option<ExecOutcomeView>,
    usage: Option<ResourceUsage>,
    problem: Problem,
    assets: RowAssets,
)
    requires
        exported_row(item, outcome, usage, problem, assets) is Ok,
    ensures
        ({
            let row = exported_row(item, outcome, usage, problem, assets)->Ok_0;
            let seen = item.components;
            &&& row.test_id == item.test_id
            &&& row.status is Some <==> seen.shows(STATUS)
            &&& row.test_stdin is Some <==> seen.shows(TEST_DATA) && outcome is Some
            &&& row.test_stdout is Some <==> seen.shows(OUTPUT) && outcome is Some
            &&& row.test_stderr is Some <==> seen.shows(OUTPUT) && outcome is Some
            &&& row.test_answer is Some <==> seen.shows(ANSWER) && outcome is Some && has_test(
                problem,
                item.test_id,
            ) && problem.tests@[item.test_id.0 - 1].correct is Some
            &&& row.time_usage is Some <==> seen.shows(RESOURCE_USAGE) && outcome is Some && usage
                is Some && usage->0.time is Some
            &&& row.memory_usage is Some <==> seen.shows(RESOURCE_USAGE) && outcome is Some
                && usage is Some && usage->0.memory is Some
        }),
{
}

/// The lasting rows are as many as the valuer's, and each has the number
/// of the valuer's row that it was made from.
pub proof fn exported_rows_numbers(
    log: crate::valuer::JudgeLog,
    results: Seq<(TestId, ExecOutcomeView)>,
    problem: Problem,
    assets: Seq<RowAssets>,
    n: nat,
)
    requires
        n <= log.tests@.len(),
        exported_rows(log, results, problem, assets, n) is Ok,
    ensures
        exported_rows(log, results, problem, assets, n)->Ok_0.len() == n,
        forall|k: int|
            0 <= k < n ==> (#[trigger] exported_rows(log, results, problem, assets, n)->Ok_0[
                k]).test_id == log.tests@[k].test_id,
    decreases n,
{
    if n > 0 {
        exported_rows_numbers(log, results, problem, assets, (n - 1) as nat);
    }
}

/// In every lasting log the tests stand in the order of their numbers, and
/// so do the subtasks.
pub proof fn transformed_is_sorted(
    log: crate::valuer::JudgeLog,
    compile_log: Seq<char>,
    results: Seq<(TestId, ExecOutcomeView)>,
    problem: Problem,
    assets: Seq<RowAssets>,
)
    requires
        transformed(log, compile_log, results, problem, assets) is Ok,
    ensures
        is_sorted(
            transformed(log, compile_log, results, problem, assets)->Ok_0.tests,
            row_number(),
        ),
        is_sorted(
            transformed(log, compile_log, results, problem, assets)->Ok_0.subtasks,
            key_of::<JudgeLogSubtaskRow>(),
        ),
{
    let rows = exported_rows(log, results, problem, assets, log.tests@.len())->Ok_0;
    stable_sort_is_sorted(rows, row_number());
    stable_sort_is_sorted(exported_subtasks(log), key_of::<JudgeLogSubtaskRow>());
}

/// Where the valuer's log names no test twice, every test of the lasting
/// log has a greater number than the one before it.
pub proof fn transformed_is_strictly_sorted(
    log: crate::valuer::JudgeLog,
    compile_log: Seq<char>,
    results: Seq<(TestId, ExecOutcomeView)>,
    problem: Problem,
    assets: Seq<RowAssets>,
)
    requires
        transformed(log, compile_log, results, problem, assets) is Ok,
        forall|i: int, j: int|
            0 <= i < j < log.tests@.len() ==> (#[trigger] log.tests@[i]).test_id
                != (#[trigger] log.tests@[j]).test_id,
    ensures
        is_strictly_sorted(
            transformed(log, compile_log, results, problem, assets)->Ok_0.tests,
            row_number(),
        ),
{
    let rows = exported_rows(log, results, problem, assets, log.tests@.len())->Ok_0;
    exported_rows_numbers(log, results, problem, assets, log.tests@.len());
    assert(distinct_keys(rows, row_number())) by {
        assert forall|i: int, j: int| 0 <= i < j < rows.len() implies (row_number())(
            #[trigger] rows[i],
        ) != (row_number())(#[trigger] rows[j]) by {
            assert(rows[i].test_id == log.tests@[i].test_id);
            assert(rows[j].test_id == log.tests@[j].test_id);
        }
    }
    stable_sort_is_strict(rows, row_number());
}

/// Once a row fails, the rows after it are not looked at.
proof fn failure_stays(
    log: crate::valuer::JudgeLog,
    results: Seq<(TestId, ExecOutcomeView)>,
    problem: Problem,
    assets: Seq<RowAssets>,
    m: nat,
    n: nat,
)
    requires
        m <= n,
        exported_rows(log, results, problem, assets, m) is Err,
    ensures
        exported_rows(log, results, problem, assets, n) == exported_rows(
            log,
            results,
            problem,
            assets,
            m,
        ),
    decreases n,
{
    if m < n {
        failure_stays(log, results, problem, assets, m, (n - 1) as nat);
    }
}

/// The outcome of the first run of a test, if it was run.
pub fn find_outcome<'a>(results: &'a Vec<(TestId, ExecOutcome)>, id: TestId) -> (r: Option<
    &'a ExecOutcome,
>)
    ensures
        first_outcome(results.deep_view(), id) == match r {
            Some(outcome) => Some(outcome.deep_view()),
            None => None,
        },
{
    let mut i: usize = 0;
    let ghost all = results.deep_view();
    assert(all.skip(0) =~= all);
    while i < results.len()
        invariant
            i <= results.len(),
            all == results.deep_view(),
            first_outcome(all, id) == first_outcome(all.skip(i as int), id),
        decreases results.len() - i,
    {
        assert(all.skip(i as int).drop_first() =~= all.skip(i + 1));
        assert(all.skip(i as int)[0] == results@[i as int].deep_view());
        if results[i].0 == id {
            return Some(&results[i].1);
        }
        i += 1;
    }
    None
}

fn find_usage(results: &Vec<(TestId, ExecOutcome)>, id: TestId) -> (r: Option<ResourceUsage>)
    ensures
        r == last_usage(results.deep_view(), id),
{
    let mut n: usize = results.len();
    let ghost all = results.deep_view();
    assert(all.take(n as int) =~= all);
    while n > 0
        invariant
            n <= results.len(),
            all == results.deep_view(),
            last_usage(all, id) == last_usage(all.take(n as int), id),
        decreases n,
    {
        assert(all.take(n as int).drop_last() =~= all.take(n - 1));
        assert(all.take(n as int).last() == results@[n - 1].deep_view());
        if results[n - 1].0 == id {
            return Some(results[n - 1].1.resource_usage);
        }
        n -= 1;
    }
    None
}

fn log_status_of(is_full: bool) -> (r: Status)
    ensures
        r.deep_view() == log_status(is_full),
{
    if is_full {
        Status::new(StatusKind::Accepted, status_codes::ACCEPTED)
    } else {
        Status::new(StatusKind::Rejected, status_codes::PARTIAL_SOLUTION)
    }
}

fn export_subtasks(log: &crate::valuer::JudgeLog) -> (r: Vec<JudgeLogSubtaskRow>)
    ensures
        r@ == exported_subtasks(*log),
{
    let mut rows: Vec<JudgeLogSubtaskRow> = Vec::new();
    let mut i: usize = 0;
    while i < log.subtasks.len()
        invariant
            i <= log.subtasks.len(),
            rows@.len() == i,
            forall|k: int| 0 <= k < i ==> rows@[k] == exported_subtasks(*log)[k],
        decreases log.subtasks.len() - i,
    {
        rows.push(
            JudgeLogSubtaskRow {
                subtask_id: log.subtasks[i].subtask_id,
                score: Some(log.subtasks[i].score),
            },
        );
        i += 1;
    }
    assert(rows@ =~= exported_subtasks(*log));
    rows
}

/// Goes from a judge log of the valuer to a lasting judge log.
///
/// `test_results` holds the tests that were run, in the order in which they
/// were run; `assets` holds, for each row of the valuer's log, the contents
/// of the files that the row may show.
pub fn transform(
    valuer_log: &crate::valuer::JudgeLog,
    compile_result: &BuildOutcome,
    test_results: &Vec<(TestId, ExecOutcome)>,
    problem: &Problem,
    assets: &Vec<RowAssets>,
) -> (r: Result<JudgeLog, Error>)
    ensures
        match transformed(
            *valuer_log,
            compile_result.log@,
            test_results.deep_view(),
            *problem,
            assets@,
        ) {
            Ok(log) => r is Ok && r->Ok_0.deep_view() == log,
            Err(kind) => r is Err && r->Err_0.kind == kind,
        },
        r matches Ok(log) ==> all_payloads_decode(
            log.tests.deep_view(),
            *valuer_log,
            test_results.deep_view(),
            assets@,
        ),
{
    let nothing = RowAssets { test_data: None, answer: None };
    let mut rows: Vec<JudgeLogTestRow> = Vec::new();
    let mut i: usize = 0;
    assert(rows.deep_view() =~= Seq::empty());
    while i < valuer_log.tests.len()
        invariant
            i <= valuer_log.tests.len(),
            nothing == (RowAssets { test_data: None, answer: None }),
            exported_rows(
                *valuer_log,
                test_results.deep_view(),
                *problem,
                assets@,
                i as nat,
            ) == Ok::<Seq<JudgeLogTestRowView>, ErrorKind>(rows.deep_view()),
            rows@.len() == i,
            forall|k: int|
                0 <= k < i ==> payloads_decode(
                    #[trigger] rows@[k].deep_view(),
                    first_outcome(test_results.deep_view(), valuer_log.tests@[k].test_id),
                    supplied(assets@, k),
                ),
        decreases valuer_log.tests.len() - i,
    {
        let item = &valuer_log.tests[i];
        let given = if i < assets.len() {
            &assets[i]
        } else {
            &nothing
        };
        let exec_outcome = find_outcome(test_results, item.test_id);
        let usage = find_usage(test_results, item.test_id);
        let ghost before = rows;
        let new_item = match export_test(item, exec_outcome, usage, problem, given) {
            Ok(new_item) => new_item,
            Err(error) => {
                proof {
                    failure_stays(
                        *valuer_log,
                        test_results.deep_view(),
                        *problem,
                        assets@,
                        (i + 1) as nat,
                        valuer_log.tests@.len(),
                    );
                }
                return Err(error);
            },
        };
        rows.push(new_item);
        assert(rows.deep_view() =~= before.deep_view().push(new_item.deep_view()));
        i += 1;
    }
    let ghost unsorted = rows;
    let tests = sort_by_key(rows);
    let subtasks = sort_by_key(export_subtasks(valuer_log));
    proof {
        let change = |row: JudgeLogTestRow| row.deep_view();
        assert forall|row: JudgeLogTestRow| (row_number())(#[trigger] change(row)) == (key_of::<
            JudgeLogTestRow,
        >())(row) by {}
        stable_sort_maps(unsorted@, key_of::<JudgeLogTestRow>(), change, row_number());
        assert(unsorted.deep_view() =~= unsorted@.map_values(change));
        assert(tests.deep_view() =~= tests@.map_values(change));
        stable_sort_len(unsorted@, key_of::<JudgeLogTestRow>());
        assert forall|k: int| 0 <= k < tests.deep_view().len() implies row_decodes(
            #[trigger] tests.deep_view()[k],
            *valuer_log,
            test_results.deep_view(),
            assets@,
        ) by {
            stable_sort_keeps_items(unsorted@, key_of::<JudgeLogTestRow>(), k);
            let i = choose|i: int| 0 <= i < unsorted@.len() && #[trigger] unsorted@[i] == tests@[k];
            assert(payloads_decode(
                unsorted@[i].deep_view(),
                first_outcome(test_results.deep_view(), valuer_log.tests@[i].test_id),
                supplied(assets@, i),
            ));
        }
    }
    Ok(
        JudgeLog {
            kind: valuer_log.kind,
            tests,
            subtasks,
            compile_log: compile_result.log.clone(),
            score: valuer_log.score,
            is_full: false,
            status: log_status_of(valuer_log.is_full),
        },
    )
}

} // verus!
