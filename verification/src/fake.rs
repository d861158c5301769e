//! The fake mode: judge logs that look real and mean nothing, for trying
//! out whatever stands in front of the judge. The logs of a run depend on its
//! toolchain, its source and the kind of the log, and on nothing else: the
//! same run gets the same logs every time.

use crate::chacha::{
    draw_alphanumeric, draw_choice, draw_u32, draw_u64, drawn_alphanumeric, drawn_choice,
    drawn_u32, drawn_u64, is_alphanumeric,
};
use crate::codec::utf8_lossy;
use crate::judge_log::{
    JudgeLog, JudgeLogSubtaskRow, JudgeLogTestRow, JudgeLogTestRowView, JudgeLogView,
};
use crate::problem::TestId;
use crate::sorting::is_strictly_sorted;
use crate::transform_judge_log::row_number;
use crate::processor::{Event, EventView, ProtocolSender, Request};
use crate::status_codes;
use crate::valuer::{JudgeLogKind, Status, StatusKind, StatusView, SubtaskId};
use vstd::prelude::*;
use vstd::utf8::*;

verus! {

#[derive(Clone, Copy, Debug, PartialEq, Eq, Structural)]
pub struct FakeSettings {}

/// What hashing the toolchain, the source and the name of a kind with the
/// standard library's default hasher gives: the hasher of the standard
/// library that the program is built with.
pub uninterp spec fn hashed(toolchain_name: Seq<char>, run_source: Seq<u8>, kind: Seq<char>) -> u64;

/// `DefaultHasher::new`, `Hash::hash` on the three values as a tuple, and
/// `Hasher::finish`. Every hasher made by `new` is the same, so equal values
/// give equal hashes.
#[verifier::external_body]
fn stable_hash(toolchain_name: &String, run_source: &Vec<u8>, kind: &str) -> (r: u64)
    ensures
        r == hashed(toolchain_name@, run_source@, kind@),
{
    let mut hasher = std::collections::hash_map::DefaultHasher::new();
    std::hash::Hash::hash(&(toolchain_name, run_source, kind), &mut hasher);
    std::hash::Hasher::finish(&hasher)
}

/// A generator of pseudo-random values: a seed, and how far into the
/// seed's stream the draws have come.
#[derive(Debug, PartialEq, Eq)]
pub struct FakeRng {
    pub seed: u64,
    pub position: u128,
}

impl FakeRng {
    pub fn seed_from_u64(seed: u64) -> (r: FakeRng)
        ensures
            r.seed == seed,
            r.position == 0,
    {
        FakeRng { seed, position: 0 }
    }

    fn sample_u32(&mut self, low: u32, high: u32) -> (r: u32)
        requires
            low < high,
        ensures
            (r, final(self).position) == drawn_u32(old(self).seed, old(self).position, low, high),
            final(self).seed == old(self).seed,
            low <= r < high,
    {
        let (value, position) = draw_u32(self.seed, self.position, low, high);
        self.position = position;
        value
    }

    fn sample_u64(&mut self, low: u64, high: u64) -> (r: u64)
        requires
            low < high,
        ensures
            (r, final(self).position) == drawn_u64(old(self).seed, old(self).position, low, high),
            final(self).seed == old(self).seed,
            low <= r < high,
    {
        let (value, position) = draw_u64(self.seed, self.position, low, high);
        self.position = position;
        value
    }

    fn sample_alphanumeric(&mut self) -> (r: u8)
        ensures
            (r, final(self).position) == drawn_alphanumeric(old(self).seed, old(self).position),
            final(self).seed == old(self).seed,
            is_alphanumeric(r),
    {
        let (value, position) = draw_alphanumeric(self.seed, self.position);
        self.position = position;
        value
    }

    fn pick(&mut self, len: usize) -> (r: usize)
        requires
            len > 0,
        ensures
            (r, final(self).position) == drawn_choice(old(self).seed, old(self).position, len),
            final(self).seed == old(self).seed,
            r < len,
    {
        let (value, position) = draw_choice(self.seed, self.position, len);
        self.position = position;
        value
    }
}

/// `n` letters and digits drawn one after the other, and the position
/// after them.
pub open spec fn drawn_letters(seed: u64, position: u128, n: nat) -> (Seq<u8>, u128)
    decreases n,
{
    if n == 0 {
        (Seq::empty(), position)
    } else {
        let (before, then) = drawn_letters(seed, position, (n - 1) as nat);
        let (letter, after) = drawn_alphanumeric(seed, then);
        (before.push(letter), after)
    }
}

/// The text whose characters are these ASCII bytes.
pub open spec fn ascii_text(bytes: Seq<u8>) -> Seq<char> {
    Seq::new(bytes.len(), |i: int| bytes[i] as char)
}

/// A text of letters and digits: first its length is drawn, at least
/// `low` and less than `high`, then its characters.
pub open spec fn drawn_text(seed: u64, position: u128, low: u64, high: u64) -> (Seq<char>, u128) {
    let (len, then) = drawn_u64(seed, position, low, high);
    let (letters, after) = drawn_letters(seed, then, len as nat);
    (ascii_text(letters), after)
}

/// The kinds that a made-up status may have.
pub open spec fn fake_kinds() -> Seq<StatusKind> {
    seq![StatusKind::Accepted, StatusKind::Rejected]
}

/// The codes that a made-up status may have.
pub open spec fn fake_codes() -> Seq<Seq<char>> {
    seq![
        status_codes::WRONG_ANSWER@,
        status_codes::TEST_PASSED@,
        status_codes::TIME_LIMIT_EXCEEDED@,
        status_codes::RUNTIME_ERROR@,
    ]
}

/// A status: its kind is chosen, then its code. The two need not fit.
pub open spec fn drawn_status(seed: u64, position: u128) -> (StatusView, u128) {
    let (kind, then) = drawn_choice(seed, position, 2);
    let (code, after) = drawn_choice(seed, then, 4);
    (StatusView { kind: fake_kinds()[kind as int], code: fake_codes()[code as int] }, after)
}

/// The row of the test number `id`: a status, four texts of 3 to 99
/// characters, and a time and a memory between a million and a billion.
pub open spec fn drawn_test(seed: u64, position: u128, id: u32) -> (JudgeLogTestRowView, u128) {
    let (status, at_a) = drawn_status(seed, position);
    let (test_stdin, at_b) = drawn_text(seed, at_a, 3, 100);
    let (test_stdout, at_c) = drawn_text(seed, at_b, 3, 100);
    let (test_stderr, at_d) = drawn_text(seed, at_c, 3, 100);
    let (test_answer, at_e) = drawn_text(seed, at_d, 3, 100);
    let (time_usage, at_f) = drawn_u64(seed, at_e, 1_000_000, 1_000_000_000);
    let (memory_usage, at_g) = drawn_u64(seed, at_f, 1_000_000, 1_000_000_000);
    (
        JudgeLogTestRowView {
            test_id: TestId(id),
            status: Some(status),
            test_stdin: Some(test_stdin),
            test_stdout: Some(test_stdout),
            test_stderr: Some(test_stderr),
            test_answer: Some(test_answer),
            time_usage: Some(time_usage),
            memory_usage: Some(memory_usage),
        },
        at_g,
    )
}

/// The rows of the tests 1 to `n`.
pub open spec fn drawn_tests(seed: u64, position: u128, n: nat) -> (Seq<JudgeLogTestRowView>, u128)
    decreases n,
{
    if n == 0 {
        (Seq::empty(), position)
    } else {
        let (before, then) = drawn_tests(seed, position, (n - 1) as nat);
        let (row, after) = drawn_test(seed, then, n as u32);
        (before.push(row), after)
    }
}

/// The rows of the subtasks 1 to `n`, each with a score below 100.
pub open spec fn drawn_subtasks(seed: u64, position: u128, n: nat) -> (
    Seq<JudgeLogSubtaskRow>,
    u128,
)
    decreases n,
{
    if n == 0 {
        (Seq::empty(), position)
    } else {
        let (before, then) = drawn_subtasks(seed, position, (n - 1) as nat);
        let (score, after) = drawn_u32(seed, then, 0, 100);
        let row = JudgeLogSubtaskRow { subtask_id: SubtaskId(n as u32), score: Some(score) };
        (before.push(row), after)
    }
}

/// The made-up log of a kind, drawn from a seed at a position: 3 to 19
/// tests, 1 to 9 subtasks, a score below 100, a status, and a compile log
/// of 10 to 199 characters.
pub open spec fn drawn_log(kind: JudgeLogKind, seed: u64, position: u128) -> (JudgeLogView, u128) {
    let (test_count, at_a) = drawn_u32(seed, position, 3, 20);
    let (tests, at_b) = drawn_tests(seed, at_a, test_count as nat);
    let (subtask_count, at_c) = drawn_u32(seed, at_b, 1, 10);
    let (subtasks, at_d) = drawn_subtasks(seed, at_c, subtask_count as nat);
    let (score, at_e) = drawn_u32(seed, at_d, 0, 100);
    let (status, at_f) = drawn_status(seed, at_e);
    let (compile_log, at_g) = drawn_text(seed, at_f, 10, 200);
    (JudgeLogView { kind, tests, subtasks, compile_log, score, is_full: false, status }, at_g)
}

/// The made-up log of a run, of one kind.
pub open spec fn fake_log_of(req: Request, kind: JudgeLogKind) -> JudgeLogView {
    drawn_log(kind, hashed(req.toolchain_name@, req.run_source@, kind.name()), 0).0
}

/// The tests of a made-up log are numbered from one, without a gap.
pub proof fn drawn_tests_are_numbered(seed: u64, position: u128, n: nat)
    requires
        n <= u32::MAX,
    ensures
        drawn_tests(seed, position, n).0.len() == n,
        forall|k: int|
            0 <= k < n ==> (#[trigger] drawn_tests(seed, position, n).0[k]).test_id == TestId(
                (k + 1) as u32,
            ),
    decreases n,
{
    if n > 0 {
        drawn_tests_are_numbered(seed, position, (n - 1) as nat);
    }
}

/// In every made-up log each test has a greater number than the one before
/// it.
pub proof fn fake_log_is_sorted(kind: JudgeLogKind, seed: u64, position: u128)
    ensures
        is_strictly_sorted(drawn_log(kind, seed, position).0.tests, row_number()),
{
    let (test_count, at_a) = drawn_u32(seed, position, 3, 20);
    drawn_tests_are_numbered(seed, at_a, test_count as nat);
}

proof fn ascii_text_decodes(bytes: Seq<u8>)
    requires
        forall|i: int| 0 <= i < bytes.len() ==> is_alphanumeric(#[trigger] bytes[i]),
    ensures
        valid_utf8(bytes),
        decode_utf8(bytes) == ascii_text(bytes),
{
    let text = ascii_text(bytes);
    assert(is_ascii_chars(text)) by {
        assert forall|i: int| 0 <= i < text.len() implies (#[trigger] text[i]) as u32 <= 0x7f by {
            assert(is_alphanumeric(bytes[i]));
        }
    }
    is_ascii_chars_encode_utf8(text);
    assert(encode_utf8(text) =~= bytes) by {
        assert forall|i: int| 0 <= i < bytes.len() implies text[i] as u8 == bytes[i] by {
            assert(is_alphanumeric(bytes[i]));
        }
    }
    encode_utf8_valid_utf8(text);
    encode_utf8_decode_utf8(text);
}

fn generate_string(len_lo: u64, len_hi: u64, rng: &mut FakeRng) -> (r: String)
    requires
        len_lo < len_hi,
    ensures
        (r@, final(rng).position) == drawn_text(
            old(rng).seed,
            old(rng).position,
            len_lo,
            len_hi,
        ),
        final(rng).seed == old(rng).seed,
{
    let ghost seed = rng.seed;
    let len = rng.sample_u64(len_lo, len_hi);
    let ghost start = rng.position;
    let mut letters: Vec<u8> = Vec::new();
    let mut i: u64 = 0;
    while i < len
        invariant
            i <= len,
            rng.seed == seed,
            (letters@, rng.position) == drawn_letters(seed, start, i as nat),
            forall|k: int| 0 <= k < letters@.len() ==> is_alphanumeric(#[trigger] letters@[k]),
        decreases len - i,
    {
        let letter = rng.sample_alphanumeric();
        letters.push(letter);
        i += 1;
    }
    proof {
        ascii_text_decodes(letters@);
    }
    utf8_lossy(letters.as_slice())
}

fn make_status(rng: &mut FakeRng) -> (r: Status)
    ensures
        (r.deep_view(), final(rng).position) == drawn_status(old(rng).seed, old(rng).position),
        final(rng).seed == old(rng).seed,
{
    let kind = if rng.pick(2) == 0 {
        StatusKind::Accepted
    } else {
        StatusKind::Rejected
    };
    let code: usize = rng.pick(4);
    let code = if code == 0 {
        status_codes::WRONG_ANSWER
    } else if code == 1 {
        status_codes::TEST_PASSED
    } else if code == 2 {
        status_codes::TIME_LIMIT_EXCEEDED
    } else {
        status_codes::RUNTIME_ERROR
    };
    Status::new(kind, code)
}

fn generate_test(id: u32, rng: &mut FakeRng) -> (r: JudgeLogTestRow)
    requires
        id != 0,
    ensures
        (r.deep_view(), final(rng).position) == drawn_test(old(rng).seed, old(rng).position, id),
        final(rng).seed == old(rng).seed,
{
    JudgeLogTestRow {
        test_id: TestId::make(id),
        status: Some(make_status(rng)),
        test_stdin: Some(generate_string(3, 100, rng)),
        test_stdout: Some(generate_string(3, 100, rng)),
        test_stderr: Some(generate_string(3, 100, rng)),
        test_answer: Some(generate_string(3, 100, rng)),
        time_usage: Some(rng.sample_u64(1_000_000, 1_000_000_000)),
        memory_usage: Some(rng.sample_u64(1_000_000, 1_000_000_000)),
    }
}

/// Makes up a log of a kind.
pub fn generate_judge_log(kind: JudgeLogKind, rng: &mut FakeRng) -> (r: JudgeLog)
    ensures
        (r.deep_view(), final(rng).position) == drawn_log(
            kind,
            old(rng).seed,
            old(rng).position,
        ),
        final(rng).seed == old(rng).seed,
{
    let ghost seed = rng.seed;
    let test_count = rng.sample_u32(3, 20);
    let ghost at_a = rng.position;
    let mut tests: Vec<JudgeLogTestRow> = Vec::new();
    let mut id: u32 = 0;
    assert(tests.deep_view() =~= drawn_tests(seed, at_a, 0).0);
    while id < test_count
        invariant
            id <= test_count < 20,
            rng.seed == seed,
            (tests.deep_view(), rng.position) == drawn_tests(seed, at_a, id as nat),
        decreases test_count - id,
    {
        let ghost before = tests;
        let row = generate_test(id + 1, rng);
        tests.push(row);
        assert(tests.deep_view() =~= before.deep_view().push(row.deep_view()));
        id += 1;
    }
    let subtask_count = rng.sample_u32(1, 10);
    let ghost at_c = rng.position;
    let mut subtasks: Vec<JudgeLogSubtaskRow> = Vec::new();
    let mut id: u32 = 0;
    while id < subtask_count
        invariant
            id <= subtask_count < 10,
            rng.seed == seed,
            (subtasks@, rng.position) == drawn_subtasks(seed, at_c, id as nat),
        decreases subtask_count - id,
    {
        let score = rng.sample_u32(0, 100);
        subtasks.push(
            JudgeLogSubtaskRow { subtask_id: SubtaskId::make(id + 1), score: Some(score) },
        );
        id += 1;
    }
    JudgeLog {
        kind,
        tests,
        subtasks,
        score: rng.sample_u32(0, 100),
        status: make_status(rng),
        compile_log: generate_string(10, 200, rng),
        is_full: false,
    }
}

/// The events of a fake run: one made-up log of each kind, in the order
/// of the kinds.
pub open spec fn fake_run(req: Request) -> Seq<EventView> {
    Seq::new(
        JudgeLogKind::all().len(),
        |i: int| EventView::LogCreated(fake_log_of(req, JudgeLogKind::all()[i])),
    )
}

/// Judges a run in fake mode: makes up a log of each kind. Such a run
/// always ends well.
pub fn judge(req: &Request, settings: FakeSettings) -> (r: Vec<Event>)
    ensures
        r.deep_view() == fake_run(*req),
{
    let mut protocol_sender = ProtocolSender::new();
    let kinds = JudgeLogKind::list();
    let mut events: Vec<Event> = Vec::new();
    let mut i: usize = 0;
    while i < kinds.len()
        invariant
            i <= kinds.len(),
            kinds@ == JudgeLogKind::all(),
            protocol_sender.sent@ == kinds@.take(i as int),
            events@.len() == i,
            forall|k: int|
                0 <= k < i ==> (#[trigger] events@[k]).deep_view() == EventView::LogCreated(
                    fake_log_of(*req, JudgeLogKind::all()[k]),
                ),
        decreases kinds.len() - i,
    {
        let kind = kinds[i];
        let seed = stable_hash(&req.toolchain_name, &req.run_source, kind.as_str());
        let mut rng = FakeRng::seed_from_u64(seed);
        let log = generate_judge_log(kind, &mut rng);
        assert(!kinds@.take(i as int).contains(kind)) by {
            if kinds@.take(i as int).contains(kind) {
                let k = choose|k: int| 0 <= k < i && kinds@.take(i as int)[k] == kind;
                assert(kinds@[k] == kinds@[i as int]);
            }
        }
        let event = protocol_sender.send_log(log);
        events.push(event);
        assert(protocol_sender.sent@ =~= kinds@.take(i + 1));
        i += 1;
    }
    assert(events.deep_view() =~= fake_run(*req));
    events
}

/// Two runs with the same toolchain and the same source get the same
/// made-up logs, whatever else differs between them.
pub proof fn fake_logs_repeat(first: Request, second: Request, kind: JudgeLogKind)
    requires
        first.toolchain_name@ == second.toolchain_name@,
        first.run_source@ == second.run_source@,
    ensures
        fake_log_of(first, kind) == fake_log_of(second, kind),
        fake_run(first) == fake_run(second),
{
    assert(fake_run(first) =~= fake_run(second)) by {
        assert forall|i: int| 0 <= i < JudgeLogKind::all().len() implies fake_log_of(
            first,
            JudgeLogKind::all()[i],
        ) == fake_log_of(second, JudgeLogKind::all()[i]) by {}
    }
}

} // verus!
