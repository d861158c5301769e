//! Building a submission: the invocation that runs the build commands of a
//! toolchain, and the reading of its results.

use crate::codec::{encodable_len, lossy_text, utf8_lossy};
use crate::error::{Error, ErrorKind};
use crate::exec_test::{command_at, get_command, inline_payload};
use crate::invoke::{
    create_file, extra_files_dir, file_output, open_null_file, plain_variables, volume_dir,
    Action, ActionView, Command, CommandView, EnvironmentVariable, ExtraFile,
    ExtraFileView, FileId, InvokeRequest, InvokeRequestView, InvokeResponse, Limits,
    OutputRequest, OutputRequestTarget, OutputRequestTargetView, OutputRequestView, PathPrefix,
    PathPrefixView, PrefixedPath, PrefixedPathView, RequestExtensions, RequestExtensionsView,
    SandboxSettings, SandboxSettingsView, SharedDir, Stdio, StdioView, Step, StepView,
    VolumeSettings, VolumeSettingsView, NIL_ID,
};
use crate::processor::{command_status, describe_command_result, CommandStatus, Request};
use crate::request_builder::{output_bytes, RequestBuilder};
use crate::status_codes;
use crate::text::{copy_texts, decimal, decimal_string};
use crate::toolchain_loader::Toolchain;
use crate::valuer::{Status, StatusKind, StatusView};
use vstd::prelude::*;

verus! {

/// A submission that compiled.
#[derive(Debug, PartialEq, Eq)]
pub struct BuiltRun {
    pub binary: Vec<u8>,
}

/// How the build went, and what the build commands wrote.
#[derive(Debug, PartialEq, Eq)]
pub struct BuildOutcome {
    pub result: Result<BuiltRun, Status>,
    pub log: String,
}

pub struct BuildOutcomeView {
    pub result: Result<Seq<u8>, StatusView>,
    pub log: Seq<char>,
}

impl DeepView for BuildOutcome {
    type V = BuildOutcomeView;

    open spec fn deep_view(&self) -> BuildOutcomeView {
        BuildOutcomeView {
            result: match self.result {
                Ok(built) => Ok(built.binary@),
                Err(status) => Err(status.deep_view()),
            },
            log: self.log@,
        }
    }
}

pub const FILE_ID_EMPTY: &'static str = "empty";

pub const SANDBOX_NAME: &'static str = "compile-sandbox";

pub const VOLUME_NAME: &'static str = "work";

/// Name of the output that carries the compiled program.
pub const ARTIFACT: &'static str = "artifact";

/// Name of the file that takes the output (`stream` is `stdout` or
/// `stderr`) of the build command number `i`.
pub open spec fn step_file(i: nat, stream: Seq<char>) -> Seq<char> {
    "step-"@ + decimal(i) + "-"@ + stream
}

fn make_step_file(i: usize, stream: &str) -> (r: String)
    ensures
        r@ == step_file(i as nat, stream@),
{
    let mut r = String::from_str("step-");
    r.append(decimal_string(i as u64).as_str());
    r.append("-");
    r.append(stream);
    r
}

/// The limits of the build: those of the toolchain's manifest.
pub open spec fn compile_limits(toolchain: Toolchain) -> Limits {
    Limits {
        memory: toolchain.spec.limits.memory(),
        time: toolchain.spec.limits.time(),
        process_count: toolchain.spec.limits.process_count,
    }
}

fn make_limits(toolchain: &Toolchain) -> (r: Limits)
    ensures
        r == compile_limits(*toolchain),
{
    Limits {
        memory: toolchain.spec.limits.memory(),
        time: toolchain.spec.limits.time(),
        process_count: toolchain.spec.limits.process_count,
    }
}

/// The sandbox of the build: it sees the source, read-only, at
/// `/compile-input`, and writes to the working volume at `/compile-output`.
pub open spec fn compile_sandbox(toolchain: Toolchain) -> SandboxSettingsView {
    SandboxSettingsView {
        limits: compile_limits(toolchain),
        name: SANDBOX_NAME@,
        base_image: Seq::empty(),
        expose: seq![
            extra_files_dir(Seq::empty(), "/compile-input"@),
            volume_dir(VOLUME_NAME@, "/compile-output"@),
        ],
        image: toolchain.image@,
    }
}

fn make_sandbox(toolchain: &Toolchain) -> (r: SandboxSettings)
    ensures
        r.deep_view() == compile_sandbox(*toolchain),
{
    let mut expose: Vec<SharedDir> = Vec::new();
    proof {
        reveal_strlit("");
        assert(""@ =~= Seq::<char>::empty());
    }
    expose.push(SharedDir::extra_files("", "/compile-input"));
    expose.push(SharedDir::volume(VOLUME_NAME, "/compile-output"));
    let r = SandboxSettings {
        limits: make_limits(toolchain),
        name: String::from_str(SANDBOX_NAME),
        base_image: String::new(),
        expose,
        image: toolchain.image.clone(),
    };
    assert(r.expose.deep_view() =~= compile_sandbox(*toolchain).expose);
    r
}

/// The steps before the first build command: the null file, the working
/// volume and the sandbox.
pub open spec fn preparation(toolchain: Toolchain) -> Seq<StepView> {
    seq![
        open_null_file(0, FILE_ID_EMPTY@),
        StepView {
            stage: 0,
            action: ActionView::CreateVolume(
                VolumeSettingsView {
                    name: VOLUME_NAME@,
                    limit: toolchain.spec.limits.work_dir_size,
                },
            ),
        },
        StepView { stage: 0, action: ActionView::CreateSandbox(compile_sandbox(toolchain)) },
    ]
}

/// The build command number `i` as the sandbox service runs it.
pub open spec fn build_command(toolchain: Toolchain, i: nat) -> CommandView {
    let command = toolchain.spec.build_commands@[i as int];
    CommandView {
        sandbox_name: SANDBOX_NAME@,
        argv: command.argv.deep_view(),
        env: plain_variables(command.env.deep_view()),
        cwd: "/"@,
        stdio: StdioView {
            stdin: FILE_ID_EMPTY@,
            stdout: step_file(i, "stdout"@),
            stderr: step_file(i, "stderr"@),
        },
    }
}

/// The three steps of the build command number `i`: two files for what it
/// writes, then the command itself. Its stage is its number.
pub open spec fn command_steps(toolchain: Toolchain, i: nat) -> Seq<StepView> {
    seq![
        create_file(i as u32, step_file(i, "stdout"@)),
        create_file(i as u32, step_file(i, "stderr"@)),
        StepView {
            stage: i as u32,
            action: ActionView::ExecuteCommand(build_command(toolchain, i)),
        },
    ]
}

/// The steps up to and without the build command number `n`.
pub open spec fn steps_before(toolchain: Toolchain, n: nat) -> Seq<StepView>
    decreases n,
{
    if n == 0 {
        preparation(toolchain)
    } else {
        steps_before(toolchain, (n - 1) as nat) + command_steps(toolchain, (n - 1) as nat)
    }
}

/// The outputs asked for on behalf of the build commands before number `n`.
pub open spec fn outputs_before(n: nat) -> Seq<OutputRequestView>
    decreases n,
{
    if n == 0 {
        Seq::empty()
    } else {
        outputs_before((n - 1) as nat) + seq![
            file_output(step_file((n - 1) as nat, "stdout"@)),
            file_output(step_file((n - 1) as nat, "stderr"@)),
        ]
    }
}

/// The request for the compiled program: the file `bin` of the working volume.
pub open spec fn artifact_output() -> OutputRequestView {
    OutputRequestView {
        name: ARTIFACT@,
        target: OutputRequestTargetView::Path(
            PrefixedPathView { prefix: PathPrefixView::Volume(VOLUME_NAME@), path: "bin"@ },
        ),
    }
}

/// Position, among the steps, of the build command number `i`.
pub open spec fn command_position(i: int) -> int {
    5 + 3 * i
}

/// The extra files of a build: the source under the name that the
/// toolchain expects; and where the source and the program are to be found.
pub open spec fn compile_extensions(req: Request, toolchain: Toolchain) -> RequestExtensionsView {
    RequestExtensionsView {
        extra_files: seq![
            (
                toolchain.spec.filename@,
                ExtraFileView { contents: inline_payload(req.run_source@), executable: false },
            ),
        ],
        substitutions: seq![
            ("Run.SourceFilePath"@, "/compile-input/"@ + toolchain.spec.filename@),
            ("Run.BinaryFilePath"@, "/compile-output/bin"@),
        ],
    }
}

/// The invocation that builds a submission.
pub open spec fn compile_request(req: Request, toolchain: Toolchain) -> InvokeRequestView {
    let n = toolchain.spec.build_commands@.len();
    InvokeRequestView {
        steps: steps_before(toolchain, n),
        inputs: Seq::empty(),
        outputs: outputs_before(n).push(artifact_output()),
        id: NIL_ID,
        ext: compile_extensions(req, toolchain),
    }
}

/// Why no build invocation can be made, if that is so.
pub open spec fn compile_request_failure(req: Request, toolchain: Toolchain) -> Option<ErrorKind> {
    if !encodable_len(req.run_source@.len()) {
        Some(ErrorKind::PayloadTooLarge)
    } else if toolchain.spec.build_commands@.len() > u32::MAX {
        Some(ErrorKind::TooManySteps)
    } else {
        None
    }
}

proof fn lemma_pushed<T: DeepView>(after: Vec<T>, before: Vec<T>, item: T)
    requires
        after@ == before@.push(item),
    ensures
        after.deep_view() == before.deep_view().push(item.deep_view()),
{
    assert(after.deep_view() =~= before.deep_view().push(item.deep_view()));
}

fn make_command(toolchain: &Toolchain, i: usize) -> (r: Command)
    requires
        i < toolchain.spec.build_commands@.len(),
    ensures
        r.deep_view() == build_command(*toolchain, i as nat),
{
    let command = &toolchain.spec.build_commands[i];
    Command {
        sandbox_name: String::from_str(SANDBOX_NAME),
        argv: copy_texts(&command.argv),
        env: EnvironmentVariable::plain_list(&command.env),
        cwd: String::from_str("/"),
        stdio: Stdio {
            stdin: FileId::new(FILE_ID_EMPTY),
            stdout: FileId(make_step_file(i, "stdout")),
            stderr: FileId(make_step_file(i, "stderr")),
        },
    }
}

/// Builds the invocation that compiles the submission of `req` with
/// `toolchain`, and says at which steps the build commands stand.
pub fn build_request(req: &Request, toolchain: &Toolchain) -> (r: Result<
    (InvokeRequest, Vec<usize>),
    Error,
>)
    ensures
        match compile_request_failure(*req, *toolchain) {
            Some(kind) => r is Err && r->Err_0.kind == kind,
            None => r is Ok && r->Ok_0.0.deep_view() == compile_request(*req, *toolchain)
                && r->Ok_0.1@ == Seq::new(
                toolchain.spec.build_commands@.len(),
                |i: int| command_position(i) as usize,
            ),
        },
{
    let req_builder = RequestBuilder::new();
    let source = req_builder.intern(req.run_source.as_slice())?;
    let count = toolchain.spec.build_commands.len();
    if count > u32::MAX as usize {
        return Err(Error::new(ErrorKind::TooManySteps, "too many build commands"));
    }
    let mut source_file_path = String::from_str("/compile-input/");
    source_file_path.append(toolchain.spec.filename.as_str());
    let mut extra_files: Vec<(String, ExtraFile)> = Vec::new();
    extra_files.push(
        (toolchain.spec.filename.clone(), ExtraFile { contents: source, executable: false }),
    );
    let mut substitutions: Vec<(String, String)> = Vec::new();
    substitutions.push((String::from_str("Run.SourceFilePath"), source_file_path));
    substitutions.push(
        (String::from_str("Run.BinaryFilePath"), String::from_str("/compile-output/bin")),
    );
    let ext = RequestExtensions { extra_files, substitutions };
    assert(ext.extra_files.deep_view() =~= compile_extensions(*req, *toolchain).extra_files);
    assert(ext.substitutions.deep_view() =~= compile_extensions(*req, *toolchain).substitutions);

    let mut steps: Vec<Step> = Vec::new();
    steps.push(Step::open_null_file(0, FILE_ID_EMPTY));
    steps.push(
        Step {
            stage: 0,
            action: Action::CreateVolume(
                VolumeSettings {
                    name: String::from_str(VOLUME_NAME),
                    limit: toolchain.spec.limits.work_dir_size,
                },
            ),
        },
    );
    steps.push(Step { stage: 0, action: Action::CreateSandbox(make_sandbox(toolchain)) });
    assert(steps.deep_view() =~= preparation(*toolchain));
    let mut outputs: Vec<OutputRequest> = Vec::new();
    assert(outputs.deep_view() =~= outputs_before(0));
    let mut positions: Vec<usize> = Vec::new();
    let mut i: usize = 0;
    while i < count
        invariant
            i <= count,
            count == toolchain.spec.build_commands@.len(),
            count <= u32::MAX,
            steps.deep_view() == steps_before(*toolchain, i as nat),
            steps@.len() == 3 + 3 * i,
            outputs.deep_view() == outputs_before(i as nat),
            positions@ == Seq::new(i as nat, |k: int| command_position(k) as usize),
        decreases count - i,
    {
        let stdout_file_id = make_step_file(i, "stdout");
        let stderr_file_id = make_step_file(i, "stderr");
        let ghost steps0 = steps;
        let first = Step::create_file(i as u32, stdout_file_id.as_str());
        steps.push(first);
        let ghost steps1 = steps;
        let second = Step::create_file(i as u32, stderr_file_id.as_str());
        steps.push(second);
        let ghost steps2 = steps;
        let ghost before = positions@;
        positions.push(steps.len());
        let third = Step {
            stage: i as u32,
            action: Action::ExecuteCommand(make_command(toolchain, i)),
        };
        steps.push(third);
        let ghost outputs0 = outputs;
        let out = OutputRequest::file(stdout_file_id.as_str());
        outputs.push(out);
        let ghost outputs1 = outputs;
        let err = OutputRequest::file(stderr_file_id.as_str());
        outputs.push(err);
        proof {
            lemma_pushed(steps1, steps0, first);
            lemma_pushed(steps2, steps1, second);
            lemma_pushed(steps, steps2, third);
            assert(steps.deep_view() =~= steps_before(*toolchain, i as nat) + command_steps(
                *toolchain,
                i as nat,
            ));
            lemma_pushed(outputs1, outputs0, out);
            lemma_pushed(outputs, outputs1, err);
            assert(outputs.deep_view() =~= outputs_before((i + 1) as nat));
            assert(positions@ =~= Seq::new((i + 1) as nat, |k: int| command_position(k) as usize));
        }
        i += 1;
    }
    let ghost outputs0 = outputs;
    let artifact = OutputRequest {
        name: String::from_str(ARTIFACT),
        target: OutputRequestTarget::Path(
            PrefixedPath {
                prefix: PathPrefix::Volume(String::from_str(VOLUME_NAME)),
                path: String::from_str("bin"),
            },
        ),
    };
    outputs.push(artifact);
    proof {
        lemma_pushed(outputs, outputs0, artifact);
    }
    let inputs: Vec<crate::invoke::Input> = Vec::new();
    assert(inputs.deep_view() =~= Seq::empty());
    Ok((InvokeRequest { steps, inputs, outputs, id: NIL_ID, ext }, positions))
}

/// What one build command adds to the compile log.
pub open spec fn frame(i: nat, stdout: Seq<u8>, stderr: Seq<u8>) -> Seq<char> {
    "------ step "@ + decimal(i) + " ------\n"@ + "--- stdout ---\n"@ + lossy_text(stdout) + "\n"@
        + "--- stderr ---\n"@ + lossy_text(stderr) + "\n"@
}

/// The status of a build whose command ended this way, unless it ended well.
pub open spec fn failure_status(status: CommandStatus) -> Option<StatusView> {
    match status {
        CommandStatus::Success => None,
        CommandStatus::TimeLimit => Some(
            StatusView {
                kind: StatusKind::CompilationError,
                code: status_codes::COMPILATION_TIMED_OUT@,
            },
        ),
        _ => Some(
            StatusView { kind: StatusKind::CompilationError, code: status_codes::COMPILER_FAILED@ },
        ),
    }
}

/// The outcome of a build whose commands before number `i` ended well and
/// left `log`. The commands are looked at in order; the first that did not
/// end well decides, and no later one adds to the log.
pub open spec fn build_from(
    res: InvokeResponse,
    limits: Limits,
    positions: Seq<usize>,
    i: nat,
    log: Seq<char>,
) -> Result<BuildOutcomeView, ErrorKind>
    decreases positions.len() - i,
{
    if i >= positions.len() {
        match output_bytes(res, ARTIFACT@) {
            Err(kind) => Err(kind),
            Ok(binary) => Ok(BuildOutcomeView { result: Ok(binary), log }),
        }
    } else {
        match command_at(res, positions[i as int]) {
            Err(kind) => Err(kind),
            Ok(data) => match output_bytes(res, step_file(i, "stdout"@)) {
                Err(kind) => Err(kind),
                Ok(stdout) => match output_bytes(res, step_file(i, "stderr"@)) {
                    Err(kind) => Err(kind),
                    Ok(stderr) => {
                        let framed = log + frame(i, stdout, stderr);
                        match failure_status(command_status(limits, data)) {
                            Some(status) => Ok(
                                BuildOutcomeView { result: Err(status), log: framed },
                            ),
                            None => build_from(res, limits, positions, i + 1, framed),
                        }
                    },
                },
            },
        }
    }
}

/// What the response to a build invocation says: the outcome of the build,
/// or the kind of the failure that keeps the judge from reading one.
pub open spec fn build_outcome(
    res: InvokeResponse,
    limits: Limits,
    positions: Seq<usize>,
) -> Result<BuildOutcomeView, ErrorKind> {
    build_from(res, limits, positions, 0, Seq::empty())
}

fn append_frame(log: &mut String, i: usize, stdout: &Vec<u8>, stderr: &Vec<u8>)
    ensures
        final(log)@ == old(log)@ + frame(i as nat, stdout@, stderr@),
{
    let ghost before = log@;
    log.append("------ step ");
    log.append(decimal_string(i as u64).as_str());
    log.append(" ------\n");
    log.append("--- stdout ---\n");
    log.append(utf8_lossy(stdout.as_slice()).as_str());
    log.append("\n");
    log.append("--- stderr ---\n");
    log.append(utf8_lossy(stderr.as_slice()).as_str());
    log.append("\n");
    assert(log@ =~= before + frame(i as nat, stdout@, stderr@));
}

/// Reads the outcome of a build from the response to its invocation.
/// `positions` says at which steps the build commands stand.
pub fn read_build(response: &InvokeResponse, toolchain: &Toolchain, positions: &Vec<usize>) -> (r:
    Result<BuildOutcome, Error>)
    ensures
        match build_outcome(*response, compile_limits(*toolchain), positions@) {
            Ok(outcome) => r is Ok && r->Ok_0.deep_view() == outcome,
            Err(kind) => r is Err && r->Err_0.kind == kind,
        },
{
    let req_builder = RequestBuilder::new();
    let limits = make_limits(toolchain);
    let mut compile_log = String::new();
    let mut step_no: usize = 0;
    while step_no < positions.len()
        invariant
            step_no <= positions.len(),
            limits == compile_limits(*toolchain),
            build_outcome(*response, limits, positions@) == build_from(
                *response,
                limits,
                positions@,
                step_no as nat,
                compile_log@,
            ),
        decreases positions.len() - step_no,
    {
        let data = get_command(response, positions[step_no])?;
        let stdout = req_builder.read_output(response, make_step_file(step_no, "stdout").as_str())?;
        let stderr = req_builder.read_output(response, make_step_file(step_no, "stderr").as_str())?;
        append_frame(&mut compile_log, step_no, &stdout, &stderr);
        let status_code = match describe_command_result(&limits, data) {
            CommandStatus::MemLimit => status_codes::COMPILER_FAILED,
            CommandStatus::Startup => status_codes::COMPILER_FAILED,
            CommandStatus::Runtime => status_codes::COMPILER_FAILED,
            CommandStatus::TimeLimit => status_codes::COMPILATION_TIMED_OUT,
            CommandStatus::Success => {
                step_no += 1;
                continue ;
            },
        };
        return Ok(
            BuildOutcome {
                result: Err(Status::new(StatusKind::CompilationError, status_code)),
                log: compile_log,
            },
        );
    }
    let binary = req_builder.read_output(response, ARTIFACT)?;
    Ok(BuildOutcome { result: Ok(BuiltRun { binary }), log: compile_log })
}

} // verus!
