use judge::fake::{generate_judge_log, judge, FakeRng, FakeSettings};
use judge::judge_log::{JudgeLog, JudgeLogSubtaskRow, JudgeLogTestRow};
use judge::problem::TestId;
use judge::processor::{Event, Request};
use judge::valuer::{JudgeLogKind, Status, StatusKind, SubtaskId};
use rand::distributions::{Alphanumeric, Uniform};
use rand::prelude::SliceRandom;
use rand::{Rng, SeedableRng};
use rand_chacha::ChaChaRng;
use std::hash::{Hash, Hasher};

fn request(toolchain: &str, problem: &str, source: &[u8]) -> Request {
    Request { toolchain_name: toolchain.to_string(), problem_id: problem.to_string(), run_source: source.to_vec() }
}

fn logs(events: Vec<Event>) -> Vec<JudgeLog> {
    events
        .into_iter()
        .map(|event| match event {
            Event::LogCreated(log) => log,
            other => panic!("unexpected {:?}", other),
        })
        .collect()
}

fn reference_string(low: usize, high: usize, rng: &mut ChaChaRng) -> String {
    let len = rng.sample(Uniform::new(low, high));
    (0..len).map(|_| rng.sample(Alphanumeric) as char).collect()
}

fn reference_status(rng: &mut ChaChaRng) -> Status {
    Status {
        kind: [StatusKind::Accepted, StatusKind::Rejected].choose(&mut *rng).copied().unwrap(),
        code: ["WRONG_ANSWER", "TEST_PASSED", "TIME_LIMIT_EXCEEDED", "RUNTIME_ERROR"]
            .choose(&mut *rng)
            .copied()
            .unwrap()
            .to_owned(),
    }
}

/// One stream of draws from one generator, in the order of the fields.
fn reference_log(kind: JudgeLogKind, rng: &mut ChaChaRng) -> JudgeLog {
    let test_count = rng.sample(Uniform::new(3_u32, 20));
    let mut tests = Vec::new();
    for id in 0..test_count {
        tests.push(JudgeLogTestRow {
            test_id: TestId(id + 1),
            status: Some(reference_status(rng)),
            test_stdin: Some(reference_string(3, 100, rng)),
            test_stdout: Some(reference_string(3, 100, rng)),
            test_stderr: Some(reference_string(3, 100, rng)),
            test_answer: Some(reference_string(3, 100, rng)),
            time_usage: Some(rng.sample(Uniform::new(1_000_000u64, 1_000_000_000))),
            memory_usage: Some(rng.sample(Uniform::new(1_000_000u64, 1_000_000_000))),
        });
    }
    let subtask_count = rng.sample(Uniform::new(1_u32, 10));
    let mut subtasks = Vec::new();
    for id in 0..subtask_count {
        subtasks.push(JudgeLogSubtaskRow {
            subtask_id: SubtaskId(id + 1),
            score: Some(rng.sample(Uniform::new(0u32, 100))),
        });
    }
    JudgeLog {
        kind,
        tests,
        subtasks,
        score: rng.sample(Uniform::new(0u32, 100)),
        status: reference_status(rng),
        compile_log: reference_string(10, 200, rng),
        is_full: false,
    }
}

fn reference_hash(toolchain: &String, source: &Vec<u8>, kind: &str) -> u64 {
    let mut hasher = std::collections::hash_map::DefaultHasher::new();
    (toolchain, source, kind).hash(&mut hasher);
    hasher.finish()
}

#[test]
fn fake_logs_are_the_same_every_time() {
    let first = judge(&request("gcc", "a-plus-b", b"int main(){}"), FakeSettings {});
    let second = judge(&request("gcc", "a-plus-b", b"int main(){}"), FakeSettings {});
    assert_eq!(first, second);
    let other_problem = judge(&request("gcc", "other", b"int main(){}"), FakeSettings {});
    assert_eq!(first, other_problem);
}

#[test]
fn fake_logs_depend_on_toolchain_source_and_kind() {
    let base = logs(judge(&request("gcc", "p", b"int main(){}"), FakeSettings {}));
    let other_source = logs(judge(&request("gcc", "p", b"int main(){ }"), FakeSettings {}));
    let other_toolchain = logs(judge(&request("clang", "p", b"int main(){}"), FakeSettings {}));
    assert_ne!(base[0].compile_log, other_source[0].compile_log);
    assert_ne!(base[0].compile_log, other_toolchain[0].compile_log);
    assert_ne!(base[0].compile_log, base[1].compile_log);
}

#[test]
fn fake_run_has_a_log_of_each_kind() {
    let made = logs(judge(&request("gcc", "p", b"x"), FakeSettings {}));
    let kinds: Vec<JudgeLogKind> = made.iter().map(|log| log.kind).collect();
    assert_eq!(kinds, vec![JudgeLogKind::Contestant, JudgeLogKind::Full]);
}

#[test]
fn fake_logs_are_what_one_stream_of_draws_gives() {
    for (toolchain, source) in [("gcc", &b"int main(){}"[..]), ("python", &b""[..]), ("", &b"\x00\xff"[..])] {
        let req = request(toolchain, "p", source);
        let made = logs(judge(&req, FakeSettings {}));
        for (log, kind) in made.iter().zip([JudgeLogKind::Contestant, JudgeLogKind::Full]) {
            let seed = reference_hash(&req.toolchain_name, &req.run_source, kind.as_str());
            let mut rng = ChaChaRng::seed_from_u64(seed);
            assert_eq!(*log, reference_log(kind, &mut rng));
        }
    }
}

#[test]
fn generator_keeps_its_place_in_the_stream() {
    for seed in [0u64, 1, 42, u64::MAX] {
        let mut fake = FakeRng::seed_from_u64(seed);
        let mut rng = ChaChaRng::seed_from_u64(seed);
        assert_eq!(fake.position, 0);
        for kind in [JudgeLogKind::Full, JudgeLogKind::Contestant, JudgeLogKind::Full] {
            let made = generate_judge_log(kind, &mut fake);
            assert_eq!(made, reference_log(kind, &mut rng));
            assert_eq!(fake.position, rng.get_word_pos());
            assert_eq!(fake.seed, seed);
        }
    }
}

#[test]
fn fake_logs_have_the_promised_shape() {
    for seed in 0u64..50 {
        let mut rng = FakeRng::seed_from_u64(seed);
        let log = generate_judge_log(JudgeLogKind::Full, &mut rng);
        assert_eq!(log.kind, JudgeLogKind::Full);
        assert!(!log.is_full);
        assert!(log.score < 100);
        assert!((3..20).contains(&log.tests.len()));
        assert!((1..10).contains(&log.subtasks.len()));
        assert!((10..200).contains(&log.compile_log.len()));
        assert!(log.compile_log.chars().all(|c| c.is_ascii_alphanumeric()));
        assert!([StatusKind::Accepted, StatusKind::Rejected].contains(&log.status.kind));
        for (i, row) in log.tests.iter().enumerate() {
            assert_eq!(row.test_id, TestId(i as u32 + 1));
            for payload in [&row.test_stdin, &row.test_stdout, &row.test_stderr, &row.test_answer] {
                let payload = payload.as_ref().unwrap();
                assert!((3..100).contains(&payload.len()));
                assert!(payload.chars().all(|c| c.is_ascii_alphanumeric()));
            }
            assert!((1_000_000..1_000_000_000).contains(&row.time_usage.unwrap()));
            assert!((1_000_000..1_000_000_000).contains(&row.memory_usage.unwrap()));
            let status = row.status.as_ref().unwrap();
            assert!(["WRONG_ANSWER", "TEST_PASSED", "TIME_LIMIT_EXCEEDED", "RUNTIME_ERROR"]
                .contains(&status.code.as_str()));
        }
        for (i, row) in log.subtasks.iter().enumerate() {
            assert_eq!(row.subtask_id, SubtaskId(i as u32 + 1));
            assert!(row.score.unwrap() < 100);
        }
    }
}
