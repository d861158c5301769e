use judge::compile::{build_request, read_build, BuildOutcome};
use judge::error::ErrorKind;
use judge::invoke::{
    Action, ActionResult, CommandResult, EnvVarValue, InputSource, InvokeResponse, Limits,
    Output, OutputData, OutputRequestTarget, PathPrefix, SharedDirectoryMode,
};
use judge::problem;
use judge::processor::{describe_command_result, CommandStatus, Request};
use judge::toolchain_loader::{Command, Toolchain, ToolchainSpec};
use judge::valuer::StatusKind;

fn text(s: &str) -> String {
    s.to_string()
}

fn toolchain(build_commands: usize, time: Option<u64>) -> Toolchain {
    let mut commands = Vec::new();
    for i in 0..build_commands {
        commands.push(Command {
            env: vec![(text("LANG"), text("C"))],
            argv: vec![text("cc"), format!("-o{}", i)],
            cwd: text("/jjs"),
        });
    }
    Toolchain {
        spec: ToolchainSpec {
            title: text("GNU C"),
            name: text("gcc"),
            filename: text("source.c"),
            build_commands: commands,
            run_command: Command { env: Vec::new(), argv: vec![text("/compile-out/bin")], cwd: text("/jjs") },
            limits: problem::Limits { memory: Some(1000), time, process_count: Some(4), work_dir_size: Some(77) },
            env: Vec::new(),
        },
        image: text("gcc:latest"),
    }
}

fn request() -> Request {
    Request { toolchain_name: text("gcc"), problem_id: text("a-plus-b"), run_source: b"int main(){}".to_vec() }
}

fn finished(exit_code: i64, cpu_time: Option<u64>, memory: Option<u64>) -> CommandResult {
    CommandResult { spawn_error: None, cpu_time, memory, exit_code }
}

fn output(name: &str, data: &[u8]) -> Output {
    Output { name: text(name), data: OutputData::InlineBase64(base64::encode(data)) }
}

fn response(results: Vec<CommandResult>, outputs: Vec<Output>) -> InvokeResponse {
    let mut actions = vec![ActionResult::Other, ActionResult::Other, ActionResult::Other];
    for result in results {
        actions.push(ActionResult::Other);
        actions.push(ActionResult::Other);
        actions.push(ActionResult::ExecuteCommand(result));
    }
    InvokeResponse { actions, outputs }
}

fn two_step_outputs() -> Vec<Output> {
    vec![
        output("step-0-stdout", b"out0"),
        output("step-0-stderr", b"err0"),
        output("step-1-stdout", b"out1"),
        output("step-1-stderr", b"err1"),
        output("artifact", b"\x7fELF"),
    ]
}

fn read(toolchain: &Toolchain, response: &InvokeResponse) -> Result<BuildOutcome, judge::error::Error> {
    let (_, positions) = build_request(&request(), toolchain).unwrap();
    read_build(response, toolchain, &positions)
}

#[test]
fn compile_failure_on_first_step() {
    let toolchain = toolchain(2, Some(1000));
    let response = response(vec![finished(1, Some(5), Some(5)), finished(0, Some(5), Some(5))], two_step_outputs());
    let outcome = read(&toolchain, &response).unwrap();
    let status = outcome.result.unwrap_err();
    assert_eq!(status.kind, StatusKind::CompilationError);
    assert_eq!(status.code, "COMPILER_FAILED");
    assert!(outcome.log.contains("------ step 0 ------"));
    assert!(!outcome.log.contains("------ step 1 ------"));
    assert_eq!(outcome.log, "------ step 0 ------\n--- stdout ---\nout0\n--- stderr ---\nerr0\n");
}

#[test]
fn compile_time_limit_exceeded_by_one_nanosecond() {
    let toolchain = toolchain(1, Some(1000));
    let response = response(vec![finished(0, Some(1000 * 1_000_000 + 1), None)], two_step_outputs());
    let outcome = read(&toolchain, &response).unwrap();
    let status = outcome.result.unwrap_err();
    assert_eq!(status.kind, StatusKind::CompilationError);
    assert_eq!(status.code, "COMPILATION_TIMED_OUT");
}

#[test]
fn compile_exactly_at_time_limit_succeeds() {
    let toolchain = toolchain(1, Some(1000));
    let response = response(vec![finished(0, Some(1000 * 1_000_000), Some(1000))], two_step_outputs());
    let outcome = read(&toolchain, &response).unwrap();
    assert_eq!(outcome.result.unwrap().binary, b"\x7fELF".to_vec());
}

#[test]
fn compile_default_time_limit_is_three_seconds() {
    let toolchain = toolchain(1, None);
    let at_limit = response(vec![finished(0, Some(3000 * 1_000_000), None)], two_step_outputs());
    assert!(read(&toolchain, &at_limit).unwrap().result.is_ok());
    let over = response(vec![finished(0, Some(3000 * 1_000_000 + 1), None)], two_step_outputs());
    assert_eq!(read(&toolchain, &over).unwrap().result.unwrap_err().code, "COMPILATION_TIMED_OUT");
}

#[test]
fn compile_memory_limit_and_spawn_error_are_compiler_failures() {
    let toolchain = toolchain(1, Some(1000));
    let memory = response(vec![finished(0, None, Some(1001))], two_step_outputs());
    assert_eq!(read(&toolchain, &memory).unwrap().result.unwrap_err().code, "COMPILER_FAILED");
    let spawn = response(
        vec![CommandResult { spawn_error: Some(text("no such file")), cpu_time: None, memory: None, exit_code: 0 }],
        two_step_outputs(),
    );
    assert_eq!(read(&toolchain, &spawn).unwrap().result.unwrap_err().code, "COMPILER_FAILED");
}

#[test]
fn compile_log_frames_are_exact_when_outputs_are_empty() {
    let toolchain = toolchain(1, Some(1000));
    let outputs = vec![output("step-0-stdout", b""), output("step-0-stderr", b""), output("artifact", b"x")];
    let response = response(vec![finished(0, None, None)], outputs);
    let outcome = read(&toolchain, &response).unwrap();
    assert_eq!(outcome.log, "------ step 0 ------\n--- stdout ---\n\n--- stderr ---\n\n");
    assert!(outcome.result.is_ok());
}

#[test]
fn compile_log_holds_every_step_in_order() {
    let toolchain = toolchain(2, Some(1000));
    let response = response(vec![finished(0, None, None), finished(0, None, None)], two_step_outputs());
    let outcome = read(&toolchain, &response).unwrap();
    assert_eq!(
        outcome.log,
        "------ step 0 ------\n--- stdout ---\nout0\n--- stderr ---\nerr0\n\
         ------ step 1 ------\n--- stdout ---\nout1\n--- stderr ---\nerr1\n"
    );
    assert_eq!(outcome.result.unwrap().binary, b"\x7fELF".to_vec());
}

#[test]
fn compile_log_replaces_malformed_bytes() {
    let toolchain = toolchain(1, Some(1000));
    let outputs = vec![output("step-0-stdout", b"a\xffb"), output("step-0-stderr", b""), output("artifact", b"x")];
    let response = response(vec![finished(0, None, None)], outputs);
    let outcome = read(&toolchain, &response).unwrap();
    assert_eq!(outcome.log, "------ step 0 ------\n--- stdout ---\na\u{fffd}b\n--- stderr ---\n\n");
}

#[test]
fn compile_without_build_commands_only_reads_the_artifact() {
    let toolchain = toolchain(0, Some(1000));
    let response = response(Vec::new(), vec![output("artifact", b"bin")]);
    let outcome = read(&toolchain, &response).unwrap();
    assert_eq!(outcome.log, "");
    assert_eq!(outcome.result.unwrap().binary, b"bin".to_vec());
}

#[test]
fn compile_missing_output_is_an_error() {
    let toolchain = toolchain(1, Some(1000));
    let outputs = vec![output("step-0-stdout", b""), output("artifact", b"x")];
    let response = response(vec![finished(0, None, None)], outputs);
    let error = read(&toolchain, &response).unwrap_err();
    assert_eq!(error.kind, ErrorKind::OutputNotFound);
    assert_eq!(error.detail, "output step-0-stderr not found");
}

#[test]
fn compile_missing_artifact_is_an_error() {
    let toolchain = toolchain(1, Some(1000));
    let outputs = vec![output("step-0-stdout", b""), output("step-0-stderr", b"")];
    let response = response(vec![finished(0, None, None)], outputs);
    assert_eq!(read(&toolchain, &response).unwrap_err().kind, ErrorKind::OutputNotFound);
}

#[test]
fn compile_invalid_base64_is_an_error() {
    let toolchain = toolchain(1, Some(1000));
    let outputs = vec![
        Output { name: text("step-0-stdout"), data: OutputData::InlineBase64(text("!!!")) },
        output("step-0-stderr", b""),
        output("artifact", b"x"),
    ];
    let response = response(vec![finished(0, None, None)], outputs);
    assert_eq!(read(&toolchain, &response).unwrap_err().kind, ErrorKind::InvalidBase64);
}

#[test]
fn compile_short_response_is_an_error() {
    let toolchain = toolchain(1, Some(1000));
    let response = InvokeResponse { actions: vec![ActionResult::Other], outputs: two_step_outputs() };
    assert_eq!(read(&toolchain, &response).unwrap_err().kind, ErrorKind::InvalidStepIndex);
}

#[test]
fn compile_wrong_action_result_is_an_error() {
    let toolchain = toolchain(1, Some(1000));
    let mut response = response(vec![finished(0, None, None)], two_step_outputs());
    response.actions[5] = ActionResult::Other;
    assert_eq!(read(&toolchain, &response).unwrap_err().kind, ErrorKind::UnexpectedActionResult);
}

#[test]
fn build_request_lists_steps_outputs_and_positions() {
    let toolchain = toolchain(2, Some(1000));
    let (invocation, positions) = build_request(&request(), &toolchain).unwrap();
    assert_eq!(positions, vec![5, 8]);
    assert_eq!(invocation.id, 0);
    assert!(invocation.inputs.is_empty());
    assert_eq!(invocation.steps.len(), 9);
    let stages: Vec<u32> = invocation.steps.iter().map(|step| step.stage).collect();
    assert_eq!(stages, vec![0, 0, 0, 0, 0, 0, 1, 1, 1]);
    match &invocation.steps[0].action {
        Action::OpenNullFile { id } => assert_eq!(id.0, "empty"),
        other => panic!("unexpected {:?}", other),
    }
    match &invocation.steps[1].action {
        Action::CreateVolume(volume) => {
            assert_eq!(volume.name, "work");
            assert_eq!(volume.limit, Some(77));
        }
        other => panic!("unexpected {:?}", other),
    }
    match &invocation.steps[2].action {
        Action::CreateSandbox(sandbox) => {
            assert_eq!(sandbox.name, "compile-sandbox");
            assert_eq!(sandbox.image, "gcc:latest");
            assert_eq!(sandbox.base_image, "");
            assert_eq!(sandbox.limits, Limits { memory: 1000, time: 1000, process_count: Some(4) });
            assert_eq!(sandbox.expose.len(), 2);
            assert_eq!(sandbox.expose[0].sandbox_path, "/compile-input");
            assert_eq!(sandbox.expose[0].mode, SharedDirectoryMode::ReadOnly);
            assert_eq!(sandbox.expose[0].host_path.prefix, PathPrefix::Extension { name: text("extraFiles") });
            assert_eq!(sandbox.expose[0].host_path.path, "");
            assert_eq!(sandbox.expose[1].sandbox_path, "/compile-output");
            assert_eq!(sandbox.expose[1].mode, SharedDirectoryMode::ReadWrite);
            assert_eq!(sandbox.expose[1].host_path.prefix, PathPrefix::Volume(text("work")));
            assert!(!sandbox.expose[0].create && !sandbox.expose[1].create);
        }
        other => panic!("unexpected {:?}", other),
    }
    match &invocation.steps[6].action {
        Action::CreateFile { id, readable, writeable } => {
            assert_eq!(id.0, "step-1-stdout");
            assert!(*readable && *writeable);
        }
        other => panic!("unexpected {:?}", other),
    }
    match &invocation.steps[7].action {
        Action::CreateFile { id, .. } => assert_eq!(id.0, "step-1-stderr"),
        other => panic!("unexpected {:?}", other),
    }
    match &invocation.steps[8].action {
        Action::ExecuteCommand(command) => {
            assert_eq!(command.sandbox_name, "compile-sandbox");
            assert_eq!(command.argv, vec![text("cc"), text("-o1")]);
            assert_eq!(command.cwd, "/");
            assert_eq!(command.stdio.stdin.0, "empty");
            assert_eq!(command.stdio.stdout.0, "step-1-stdout");
            assert_eq!(command.stdio.stderr.0, "step-1-stderr");
            assert_eq!(command.env.len(), 1);
            assert_eq!(command.env[0].name, "LANG");
            assert_eq!(command.env[0].value, EnvVarValue::Plain(text("C")));
        }
        other => panic!("unexpected {:?}", other),
    }
    let names: Vec<&str> = invocation.outputs.iter().map(|output| output.name.as_str()).collect();
    assert_eq!(names, vec!["step-0-stdout", "step-0-stderr", "step-1-stdout", "step-1-stderr", "artifact"]);
    match &invocation.outputs[4].target {
        OutputRequestTarget::Path(path) => {
            assert_eq!(path.prefix, PathPrefix::Volume(text("work")));
            assert_eq!(path.path, "bin");
        }
        other => panic!("unexpected {:?}", other),
    }
    assert_eq!(invocation.outputs[0].target, OutputRequestTarget::File(judge::invoke::FileId(text("step-0-stdout"))));
}

#[test]
fn build_request_publishes_source_and_substitutions() {
    let toolchain = toolchain(1, Some(1000));
    let (invocation, _) = build_request(&request(), &toolchain).unwrap();
    assert_eq!(invocation.ext.extra_files.len(), 1);
    assert_eq!(invocation.ext.extra_files[0].0, "source.c");
    assert!(!invocation.ext.extra_files[0].1.executable);
    assert_eq!(
        invocation.ext.extra_files[0].1.contents,
        InputSource::InlineBase64 { data: text("aW50IG1haW4oKXt9") }
    );
    assert_eq!(
        invocation.ext.substitutions,
        vec![
            (text("Run.SourceFilePath"), text("/compile-input/source.c")),
            (text("Run.BinaryFilePath"), text("/compile-output/bin")),
        ]
    );
}

#[test]
fn build_request_numbers_steps_in_decimal() {
    let toolchain = toolchain(11, Some(1000));
    let (invocation, positions) = build_request(&request(), &toolchain).unwrap();
    assert_eq!(positions[10], 35);
    assert_eq!(invocation.outputs[20].name, "step-10-stdout");
    assert_eq!(invocation.steps[35].stage, 10);
}

#[test]
fn command_result_rules_apply_in_order() {
    let limits = Limits { memory: 100, time: 2, process_count: None };
    let all_wrong = CommandResult { spawn_error: Some(text("x")), cpu_time: Some(u64::MAX), memory: Some(u64::MAX), exit_code: 9 };
    assert_eq!(describe_command_result(&limits, &all_wrong), CommandStatus::Startup);
    assert_eq!(describe_command_result(&limits, &finished(9, Some(2_000_001), Some(101))), CommandStatus::TimeLimit);
    assert_eq!(describe_command_result(&limits, &finished(9, Some(2_000_000), Some(101))), CommandStatus::MemLimit);
    assert_eq!(describe_command_result(&limits, &finished(9, Some(2_000_000), Some(100))), CommandStatus::Runtime);
    assert_eq!(describe_command_result(&limits, &finished(-1, None, None)), CommandStatus::Runtime);
    assert_eq!(describe_command_result(&limits, &finished(0, Some(2_000_000), Some(100))), CommandStatus::Success);
    assert_eq!(describe_command_result(&limits, &finished(0, None, None)), CommandStatus::Success);
}

#[test]
fn command_result_with_huge_limit_does_not_wrap() {
    let limits = Limits { memory: 0, time: u64::MAX, process_count: None };
    assert_eq!(describe_command_result(&limits, &finished(0, Some(u64::MAX), None)), CommandStatus::Success);
}
