use judge::checker_proto::{parse, Outcome, Output as Decision};
use judge::compile::BuiltRun;
use judge::error::ErrorKind;
use judge::exec_test::{
    create_request, exec_outcome, find_test, map_checker_outcome_to_status, ResourceUsage,
    StepIds, TestFiles,
};
use judge::invoke::{
    Action, ActionResult, CommandResult, EnvVarValue, FileId, InputSource, InvokeResponse,
    Limits, Output, OutputData, PathPrefix, SharedDirectoryMode,
};
use judge::problem::{ChildValuerCfg, FileRef, FileRefRoot, Problem, Test, TestId, Valuer};
use judge::problem;
use judge::request_builder::RequestBuilder;
use judge::toolchain_loader::{Command, Toolchain, ToolchainSpec};
use judge::valuer::StatusKind;

fn text(s: &str) -> String {
    s.to_string()
}

fn file(path: &str) -> FileRef {
    FileRef { root: FileRefRoot::Problem, path: text(path) }
}

fn toolchain() -> Toolchain {
    Toolchain {
        spec: ToolchainSpec {
            title: text("Python"),
            name: text("python"),
            filename: text("source.py"),
            build_commands: Vec::new(),
            run_command: Command {
                env: vec![(text("PYTHONPATH"), text("/lib")), (text("A"), text("b"))],
                argv: vec![text("python3"), text("/compile-out/bin")],
                cwd: text("/jjs"),
            },
            limits: problem::Limits { memory: None, time: None, process_count: None, work_dir_size: None },
            env: Vec::new(),
        },
        image: text("python:3"),
    }
}

fn test_spec(correct: bool) -> Test {
    Test {
        path: file("tests/1.in"),
        correct: if correct { Some(file("tests/1.out")) } else { None },
        limits: problem::Limits { memory: Some(64), time: Some(2000), process_count: None, work_dir_size: None },
        group: text("samples"),
    }
}

fn problem_with(tests: Vec<Test>) -> Problem {
    Problem {
        tests,
        checker_exe: file("checker"),
        checker_cmd: vec![text("--strict"), text("-v")],
        valuer: Valuer::Child(ChildValuerCfg { exe: file("valuer"), extra_args: Vec::new(), current_dir: None }),
    }
}

fn files(correct: Option<&[u8]>) -> TestFiles {
    TestFiles { test_data: b"1 2\n".to_vec(), checker: b"#!checker".to_vec(), correct: correct.map(|c| c.to_vec()) }
}

fn built() -> BuiltRun {
    BuiltRun { binary: b"binary".to_vec() }
}

fn ids() -> StepIds {
    StepIds { exec_solution: 4, exec_checker: 8 }
}

fn output(name: &str, data: &[u8]) -> Output {
    Output { name: text(name), data: OutputData::InlineBase64(base64::encode(data)) }
}

fn command(exit_code: i64) -> CommandResult {
    CommandResult { spawn_error: None, cpu_time: Some(1234), memory: Some(5678), exit_code }
}

fn response(solution: CommandResult, checker: CommandResult, decision: &[u8]) -> InvokeResponse {
    let mut actions = Vec::new();
    for i in 0..9 {
        if i == 4 {
            actions.push(ActionResult::ExecuteCommand(CommandResult {
                spawn_error: solution.spawn_error.clone(),
                cpu_time: solution.cpu_time,
                memory: solution.memory,
                exit_code: solution.exit_code,
            }));
        } else if i == 8 {
            actions.push(ActionResult::ExecuteCommand(CommandResult {
                spawn_error: checker.spawn_error.clone(),
                cpu_time: checker.cpu_time,
                memory: checker.memory,
                exit_code: checker.exit_code,
            }));
        } else {
            actions.push(ActionResult::Other);
        }
    }
    InvokeResponse {
        actions,
        outputs: vec![
            output("checker-logs", b"checker says hi"),
            output("checker-decision", decision),
            output("solution-output", b"3\n"),
            output("solution-error", b"warn\xff"),
        ],
    }
}

#[test]
fn request_without_answer_does_not_declare_it() {
    let problem = problem_with(vec![test_spec(false)]);
    let (request, step_ids) =
        create_request(&toolchain(), &problem, &problem.tests[0], &files(None), &RequestBuilder::new(), &built()).unwrap();
    assert_eq!(step_ids, ids());
    assert_eq!(request.inputs.len(), 1);
    assert_eq!(request.inputs[0].file_id.0, "test-data");
    match &request.steps[8].action {
        Action::ExecuteCommand(checker) => {
            let names: Vec<&str> = checker.env.iter().map(|v| v.name.as_str()).collect();
            assert_eq!(names, vec!["JJS_SOL", "JJS_TEST", "JJS_CHECKER_OUT", "JJS_CHECKER_COMMENT"]);
            assert!(!names.contains(&"JJS_CORR"));
        }
        other => panic!("unexpected {:?}", other),
    }
}

#[test]
fn request_ignores_an_answer_that_the_test_does_not_name() {
    let problem = problem_with(vec![test_spec(false)]);
    let (request, _) =
        create_request(&toolchain(), &problem, &problem.tests[0], &files(Some(b"3\n")), &RequestBuilder::new(), &built())
            .unwrap();
    assert_eq!(request.inputs.len(), 1);
    match &request.steps[8].action {
        Action::ExecuteCommand(checker) => assert!(checker.env.iter().all(|v| v.name != "JJS_CORR")),
        other => panic!("unexpected {:?}", other),
    }
}

#[test]
fn request_with_answer_declares_it() {
    let problem = problem_with(vec![test_spec(true)]);
    let (request, _) =
        create_request(&toolchain(), &problem, &problem.tests[0], &files(Some(b"3\n")), &RequestBuilder::new(), &built())
            .unwrap();
    assert_eq!(request.inputs.len(), 2);
    assert_eq!(request.inputs[1].file_id.0, "correct");
    assert_eq!(request.inputs[1].source, InputSource::InlineBase64 { data: text("Mwo=") });
    match &request.steps[8].action {
        Action::ExecuteCommand(checker) => {
            assert_eq!(checker.env.len(), 5);
            assert_eq!(checker.env[4].name, "JJS_CORR");
            assert_eq!(checker.env[4].value, EnvVarValue::File(FileId(text("correct"))));
        }
        other => panic!("unexpected {:?}", other),
    }
}

#[test]
fn request_needs_the_answer_that_the_test_names() {
    let problem = problem_with(vec![test_spec(true)]);
    let error =
        create_request(&toolchain(), &problem, &problem.tests[0], &files(None), &RequestBuilder::new(), &built())
            .unwrap_err();
    assert_eq!(error.kind, ErrorKind::MissingAsset);
}

#[test]
fn request_has_three_stages() {
    let problem = problem_with(vec![test_spec(false)]);
    let (request, _) =
        create_request(&toolchain(), &problem, &problem.tests[0], &files(None), &RequestBuilder::new(), &built()).unwrap();
    assert_eq!(request.id, 0);
    let stages: Vec<u32> = request.steps.iter().map(|s| s.stage).collect();
    assert_eq!(stages, vec![0, 1, 1, 1, 1, 2, 2, 2, 2]);
    match &request.steps[0].action {
        Action::OpenNullFile { id } => assert_eq!(id.0, "empty"),
        other => panic!("unexpected {:?}", other),
    }
    let created: Vec<String> = request
        .steps
        .iter()
        .filter_map(|s| match &s.action {
            Action::CreateFile { id, readable: true, writeable: true } => Some(id.0.clone()),
            _ => None,
        })
        .collect();
    assert_eq!(created, vec!["solution-output", "solution-error", "checker-decision", "checker-logs"]);
    match &request.steps[3].action {
        Action::CreateSandbox(sandbox) => {
            assert_eq!(sandbox.name, "exec-sandbox");
            assert_eq!(sandbox.image, "python:3");
            assert_eq!(sandbox.limits, Limits { memory: 64, time: 2000, process_count: Some(16) });
            assert_eq!(sandbox.expose.len(), 1);
            assert_eq!(sandbox.expose[0].host_path.prefix, PathPrefix::Extension { name: text("extraFiles") });
            assert_eq!(sandbox.expose[0].host_path.path, "compile-out");
            assert_eq!(sandbox.expose[0].sandbox_path, "/compile-out");
            assert_eq!(sandbox.expose[0].mode, SharedDirectoryMode::ReadOnly);
        }
        other => panic!("unexpected {:?}", other),
    }
    match &request.steps[4].action {
        Action::ExecuteCommand(solution) => {
            assert_eq!(solution.sandbox_name, "exec-sandbox");
            assert_eq!(solution.argv, vec![text("python3"), text("/compile-out/bin")]);
            assert_eq!(solution.cwd, "/jjs");
            assert_eq!(solution.stdio.stdin.0, "test-data");
            assert_eq!(solution.stdio.stdout.0, "solution-output");
            assert_eq!(solution.stdio.stderr.0, "solution-error");
            assert_eq!(solution.env.len(), 2);
            assert_eq!(solution.env[0].name, "PYTHONPATH");
            assert_eq!(solution.env[0].value, EnvVarValue::Plain(text("/lib")));
            assert_eq!(solution.env[1].name, "A");
        }
        other => panic!("unexpected {:?}", other),
    }
    match &request.steps[7].action {
        Action::CreateSandbox(sandbox) => {
            assert_eq!(sandbox.name, "checker-sandbox");
            assert_eq!(sandbox.image, "gcr.io/distroless/cc:latest");
            assert_eq!(sandbox.expose[0].host_path.path, "check");
            assert_eq!(sandbox.expose[0].sandbox_path, "/check");
        }
        other => panic!("unexpected {:?}", other),
    }
    match &request.steps[8].action {
        Action::ExecuteCommand(checker) => {
            assert_eq!(checker.sandbox_name, "checker-sandbox");
            assert_eq!(checker.argv, vec![text("/check/checker"), text("--strict"), text("-v")]);
            assert_eq!(checker.cwd, "/");
            assert_eq!(checker.stdio.stdin.0, "empty");
            assert_eq!(checker.stdio.stdout.0, "checker-logs");
            assert_eq!(checker.stdio.stderr.0, "checker-logs");
            assert_eq!(checker.env[0].value, EnvVarValue::File(FileId(text("solution-output"))));
            assert_eq!(checker.env[1].value, EnvVarValue::File(FileId(text("test-data"))));
            assert_eq!(checker.env[2].value, EnvVarValue::File(FileId(text("checker-decision"))));
            assert_eq!(checker.env[3].value, EnvVarValue::File(FileId(text("checker-logs"))));
        }
        other => panic!("unexpected {:?}", other),
    }
}

#[test]
fn request_carries_files_and_asks_for_outputs() {
    let problem = problem_with(vec![test_spec(false)]);
    let (request, _) =
        create_request(&toolchain(), &problem, &problem.tests[0], &files(None), &RequestBuilder::new(), &built()).unwrap();
    let extra: Vec<(&str, bool, String)> = request
        .ext
        .extra_files
        .iter()
        .map(|(name, file)| {
            let InputSource::InlineBase64 { data } = &file.contents;
            (name.as_str(), file.executable, data.clone())
        })
        .collect();
    assert_eq!(
        extra,
        vec![
            ("exec/test", false, base64::encode(b"1 2\n")),
            ("compile-out/bin", true, base64::encode(b"binary")),
            ("check/checker", true, base64::encode(b"#!checker")),
        ]
    );
    assert_eq!(extra[0].2, "MSAyCg==");
    assert_eq!(request.ext.substitutions, vec![(text("Run.BinaryFilePath"), text("/compile-out/bin"))]);
    assert_eq!(request.inputs[0].source, InputSource::InlineBase64 { data: text("MSAyCg==") });
    let outputs: Vec<&str> = request.outputs.iter().map(|o| o.name.as_str()).collect();
    assert_eq!(outputs, vec!["checker-logs", "checker-decision", "solution-output", "solution-error"]);
}

#[test]
fn find_test_counts_from_one() {
    let problem = problem_with(vec![test_spec(false), test_spec(true)]);
    assert!(find_test(&problem, TestId(1)).unwrap().correct.is_none());
    assert!(find_test(&problem, TestId(2)).unwrap().correct.is_some());
    assert_eq!(find_test(&problem, TestId(0)).unwrap_err().kind, ErrorKind::UnknownTest);
    assert_eq!(find_test(&problem, TestId(3)).unwrap_err().kind, ErrorKind::UnknownTest);
    assert_eq!(find_test(&problem, TestId(u32::MAX)).unwrap_err().kind, ErrorKind::UnknownTest);
}

#[test]
fn accepted_test_carries_usage_and_output() {
    let outcome = exec_outcome(&response(command(0), command(0), b"outcome=Ok"), ids()).unwrap();
    assert_eq!(outcome.status.kind, StatusKind::Accepted);
    assert_eq!(outcome.status.code, "TEST_PASSED");
    assert_eq!(outcome.resource_usage, ResourceUsage { memory: Some(5678), time: Some(1234) });
    assert_eq!(outcome.stdout, "3\n");
    assert_eq!(outcome.stderr, "warn\u{fffd}");
}

#[test]
fn solution_exit_code_does_not_decide() {
    let outcome = exec_outcome(&response(command(1), command(0), b"outcome=WrongAnswer\n"), ids()).unwrap();
    assert_eq!(outcome.status.kind, StatusKind::Rejected);
    assert_eq!(outcome.status.code, "WRONG_ANSWER");
}

#[test]
fn checker_crash_is_a_judge_fault() {
    let outcome = exec_outcome(&response(command(0), command(1), b"outcome=Ok"), ids()).unwrap();
    assert_eq!(outcome.status.kind, StatusKind::InternalError);
    assert_eq!(outcome.status.code, "JUDGE_FAULT");
    assert_eq!(outcome.resource_usage, ResourceUsage { memory: None, time: None });
    assert_eq!(outcome.stdout, "");
    assert_eq!(outcome.stderr, "");
}

#[test]
fn checker_decisions_map_to_statuses() {
    let cases: Vec<(&[u8], StatusKind, &str)> = vec![
        (b"outcome=Ok\n", StatusKind::Accepted, "TEST_PASSED"),
        (b"outcome=Ok\r\n", StatusKind::Accepted, "TEST_PASSED"),
        (b"outcome=WrongAnswer", StatusKind::Rejected, "WRONG_ANSWER"),
        (b"outcome=PresentationError\n", StatusKind::Rejected, "PRESENTATION_ERROR"),
        (b"outcome=BadChecker\n", StatusKind::InternalError, "JUDGE_FAULT"),
    ];
    for (decision, kind, code) in cases {
        let outcome = exec_outcome(&response(command(0), command(0), decision), ids()).unwrap();
        assert_eq!(outcome.status.kind, kind);
        assert_eq!(outcome.status.code, code);
    }
}

#[test]
fn malformed_decisions_are_judge_faults() {
    let cases: Vec<&[u8]> = vec![
        b"",
        b"\n",
        b"outcome=Ok\n\n",
        b"\noutcome=Ok",
        b" outcome=Ok",
        b"outcome=Ok ",
        b"outcome=ok",
        b"outcome=Ok\r",
        b"outcome=Ok\noutcome=Ok\n",
        b"outcome=Ok\ncomment=fine\n",
        b"outcome",
        b"outcome=",
        b"outcome=Ok\xff",
        b"\xffoutcome=Ok",
    ];
    for decision in cases {
        let outcome = exec_outcome(&response(command(0), command(0), decision), ids()).unwrap();
        assert_eq!(outcome.status.kind, StatusKind::InternalError, "{:?}", decision);
        assert_eq!(outcome.status.code, "JUDGE_FAULT");
        assert_eq!(outcome.stdout, "");
    }
}

#[test]
fn response_without_results_is_an_error() {
    let mut short = response(command(0), command(0), b"outcome=Ok");
    short.actions.truncate(8);
    assert_eq!(exec_outcome(&short, ids()).unwrap_err().kind, ErrorKind::InvalidStepIndex);
    short.actions.truncate(4);
    assert_eq!(exec_outcome(&short, ids()).unwrap_err().kind, ErrorKind::InvalidStepIndex);
    let mut wrong = response(command(0), command(0), b"outcome=Ok");
    wrong.actions[4] = ActionResult::Other;
    assert_eq!(exec_outcome(&wrong, ids()).unwrap_err().kind, ErrorKind::UnexpectedActionResult);
    let mut wrong = response(command(0), command(0), b"outcome=Ok");
    wrong.actions[8] = ActionResult::Other;
    assert_eq!(exec_outcome(&wrong, ids()).unwrap_err().kind, ErrorKind::UnexpectedActionResult);
}

#[test]
fn response_without_outputs_is_an_error() {
    for missing in 1..4 {
        let mut res = response(command(0), command(0), b"outcome=Ok");
        res.outputs.remove(missing);
        assert_eq!(exec_outcome(&res, ids()).unwrap_err().kind, ErrorKind::OutputNotFound);
    }
    let mut res = response(command(0), command(0), b"outcome=Ok");
    res.outputs[2].data = OutputData::InlineBase64(text("%%%"));
    assert_eq!(exec_outcome(&res, ids()).unwrap_err().kind, ErrorKind::InvalidBase64);
}

#[test]
fn decision_is_not_read_when_the_checker_crashed() {
    let mut res = response(command(0), command(2), b"outcome=Ok");
    res.outputs.remove(1);
    let outcome = exec_outcome(&res, ids()).unwrap();
    assert_eq!(outcome.status.code, "JUDGE_FAULT");
}

#[test]
fn first_output_of_a_name_is_read() {
    let mut res = response(command(0), command(0), b"outcome=Ok");
    res.outputs.push(output("solution-output", b"other"));
    assert_eq!(exec_outcome(&res, ids()).unwrap().stdout, "3\n");
    let builder = RequestBuilder::new();
    assert_eq!(builder.read_output(&res, "solution-output").unwrap(), b"3\n".to_vec());
    assert_eq!(builder.read_output(&res, "checker-logs").unwrap(), b"checker says hi".to_vec());
    assert_eq!(builder.read_output(&res, "nothing").unwrap_err().kind, ErrorKind::OutputNotFound);
}

#[test]
fn interned_bytes_decode_to_themselves() {
    let builder = RequestBuilder::new();
    let data: Vec<u8> = (0u8..=255).collect();
    let InputSource::InlineBase64 { data: encoded } = builder.intern(&data).unwrap();
    assert_eq!(base64::decode(&encoded).unwrap(), data);
    assert_eq!(builder.read_output_data(&OutputData::InlineBase64(encoded)).unwrap(), data);
    let InputSource::InlineBase64 { data: hello } = builder.intern(b"hello").unwrap();
    assert_eq!(hello, "aGVsbG8=");
    let InputSource::InlineBase64 { data: nothing } = builder.intern(b"").unwrap();
    assert_eq!(nothing, "");
}

#[test]
fn decisions_parse_exactly() {
    assert_eq!(parse("outcome=Ok"), Some(Decision { outcome: Outcome::OK }));
    assert_eq!(parse("outcome=WrongAnswer\n"), Some(Decision { outcome: Outcome::WrongAnswer }));
    assert_eq!(parse("outcome=PresentationError\r\n"), Some(Decision { outcome: Outcome::PresentationError }));
    assert_eq!(parse("outcome=BadChecker"), Some(Decision { outcome: Outcome::BadChecker }));
    assert_eq!(parse("outcome=Ok\n\r"), None);
    assert_eq!(parse("outcome=OkWrongAnswer"), None);
    assert_eq!(parse("Outcome=Ok"), None);
    assert_eq!(parse(""), None);
}

#[test]
fn outcomes_map_to_statuses() {
    let ok = map_checker_outcome_to_status(Decision { outcome: Outcome::OK });
    assert_eq!((ok.kind, ok.code.as_str()), (StatusKind::Accepted, "TEST_PASSED"));
    let wrong = map_checker_outcome_to_status(Decision { outcome: Outcome::WrongAnswer });
    assert_eq!((wrong.kind, wrong.code.as_str()), (StatusKind::Rejected, "WRONG_ANSWER"));
    let presentation = map_checker_outcome_to_status(Decision { outcome: Outcome::PresentationError });
    assert_eq!((presentation.kind, presentation.code.as_str()), (StatusKind::Rejected, "PRESENTATION_ERROR"));
    let bad = map_checker_outcome_to_status(Decision { outcome: Outcome::BadChecker });
    assert_eq!((bad.kind, bad.code.as_str()), (StatusKind::InternalError, "JUDGE_FAULT"));
}
