//! The data that travels between the judge and the sandbox service: one
//! invocation request made of ordered steps, and the response to it.

use vstd::prelude::*;

verus! {

/// Name under which the shim provides the directory of extra files.
pub const EXTRA_FILES_DIR_NAME: &'static str = "extraFiles";

/// Name of a file inside one invocation.
#[derive(Debug, PartialEq, Eq)]
pub struct FileId(pub String);

impl DeepView for FileId {
    type V = Seq<char>;

    open spec fn deep_view(&self) -> Seq<char> {
        self.0@
    }
}

/// Where the sandbox service takes the bytes of an input from.
#[derive(Debug, PartialEq, Eq)]
pub enum InputSource {
    /// The bytes themselves, base64-encoded.
    InlineBase64 { data: String },
}

pub enum InputSourceView {
    InlineBase64 { data: Seq<char> },
}

impl DeepView for InputSource {
    type V = InputSourceView;

    open spec fn deep_view(&self) -> InputSourceView {
        match self {
            InputSource::InlineBase64 { data } => InputSourceView::InlineBase64 { data: data@ },
        }
    }
}

/// A file that exists before the first step runs.
#[derive(Debug, PartialEq, Eq)]
pub struct Input {
    pub file_id: FileId,
    pub source: InputSource,
}

pub struct InputView {
    pub file_id: Seq<char>,
    pub source: InputSourceView,
}

impl DeepView for Input {
    type V = InputView;

    open spec fn deep_view(&self) -> InputView {
        InputView { file_id: self.file_id.deep_view(), source: self.source.deep_view() }
    }
}

#[derive(Clone, Copy, Debug, PartialEq, Eq, Structural)]
pub enum SharedDirectoryMode {
    ReadOnly,
    ReadWrite,
}

/// What a host path is relative to.
#[derive(Debug, PartialEq, Eq)]
pub enum PathPrefix {
    /// A directory that the service's shim provides under this name.
    Extension { name: String },
    /// A volume created by an earlier step.
    Volume(String),
}

pub enum PathPrefixView {
    Extension { name: Seq<char> },
    Volume(Seq<char>),
}

impl DeepView for PathPrefix {
    type V = PathPrefixView;

    open spec fn deep_view(&self) -> PathPrefixView {
        match self {
            PathPrefix::Extension { name } => PathPrefixView::Extension { name: name@ },
            PathPrefix::Volume(name) => PathPrefixView::Volume(name@),
        }
    }
}

#[derive(Debug, PartialEq, Eq)]
pub struct PrefixedPath {
    pub prefix: PathPrefix,
    pub path: String,
}

pub struct PrefixedPathView {
    pub prefix: PathPrefixView,
    pub path: Seq<char>,
}

impl DeepView for PrefixedPath {
    type V = PrefixedPathView;

    open spec fn deep_view(&self) -> PrefixedPathView {
        PrefixedPathView { prefix: self.prefix.deep_view(), path: self.path@ }
    }
}

/// A host directory made visible inside a sandbox.
#[derive(Debug, PartialEq, Eq)]
pub struct SharedDir {
    pub host_path: PrefixedPath,
    pub sandbox_path: String,
    pub mode: SharedDirectoryMode,
    pub create: bool,
}

pub struct SharedDirView {
    pub host_path: PrefixedPathView,
    pub sandbox_path: Seq<char>,
    pub mode: SharedDirectoryMode,
    pub create: bool,
}

impl DeepView for SharedDir {
    type V = SharedDirView;

    open spec fn deep_view(&self) -> SharedDirView {
        SharedDirView {
            host_path: self.host_path.deep_view(),
            sandbox_path: self.sandbox_path@,
            mode: self.mode,
            create: self.create,
        }
    }
}

/// Resource limits of a sandbox: memory in bytes, time in milliseconds.
#[derive(Clone, Copy, Debug, PartialEq, Eq, Structural)]
pub struct Limits {
    pub memory: u64,
    pub time: u64,
    pub process_count: Option<u64>,
}

#[derive(Debug, PartialEq, Eq)]
pub struct SandboxSettings {
    pub limits: Limits,
    pub name: String,
    pub base_image: String,
    pub expose: Vec<SharedDir>,
    /// Container image that the shim unpacks as the sandbox's root.
    pub image: String,
}

pub struct SandboxSettingsView {
    pub limits: Limits,
    pub name: Seq<char>,
    pub base_image: Seq<char>,
    pub expose: Seq<SharedDirView>,
    pub image: Seq<char>,
}

impl DeepView for SandboxSettings {
    type V = SandboxSettingsView;

    open spec fn deep_view(&self) -> SandboxSettingsView {
        SandboxSettingsView {
            limits: self.limits,
            name: self.name@,
            base_image: self.base_image@,
            expose: self.expose.deep_view(),
            image: self.image@,
        }
    }
}

#[derive(Debug, PartialEq, Eq)]
pub struct VolumeSettings {
    pub name: String,
    pub limit: Option<u64>,
}

pub struct VolumeSettingsView {
    pub name: Seq<char>,
    pub limit: Option<u64>,
}

impl DeepView for VolumeSettings {
    type V = VolumeSettingsView;

    open spec fn deep_view(&self) -> VolumeSettingsView {
        VolumeSettingsView { name: self.name@, limit: self.limit }
    }
}

#[derive(Debug, PartialEq, Eq)]
pub enum EnvVarValue {
    Plain(String),
    File(FileId),
}

pub enum EnvVarValueView {
    Plain(Seq<char>),
    File(Seq<char>),
}

impl DeepView for EnvVarValue {
    type V = EnvVarValueView;

    open spec fn deep_view(&self) -> EnvVarValueView {
        match self {
            EnvVarValue::Plain(text) => EnvVarValueView::Plain(text@),
            EnvVarValue::File(id) => EnvVarValueView::File(id.deep_view()),
        }
    }
}

#[derive(Debug, PartialEq, Eq)]
pub struct EnvironmentVariable {
    pub name: String,
    pub value: EnvVarValue,
}

pub struct EnvironmentVariableView {
    pub name: Seq<char>,
    pub value: EnvVarValueView,
}

impl DeepView for EnvironmentVariable {
    type V = EnvironmentVariableView;

    open spec fn deep_view(&self) -> EnvironmentVariableView {
        EnvironmentVariableView { name: self.name@, value: self.value.deep_view() }
    }
}

#[derive(Debug, PartialEq, Eq)]
pub struct Stdio {
    pub stdin: FileId,
    pub stdout: FileId,
    pub stderr: FileId,
}

pub struct StdioView {
    pub stdin: Seq<char>,
    pub stdout: Seq<char>,
    pub stderr: Seq<char>,
}

impl DeepView for Stdio {
    type V = StdioView;

    open spec fn deep_view(&self) -> StdioView {
        StdioView {
            stdin: self.stdin.deep_view(),
            stdout: self.stdout.deep_view(),
            stderr: self.stderr.deep_view(),
        }
    }
}

/// One process to run inside a named sandbox.
#[derive(Debug, PartialEq, Eq)]
pub struct Command {
    pub sandbox_name: String,
    pub argv: Vec<String>,
    pub env: Vec<EnvironmentVariable>,
    pub cwd: String,
    pub stdio: Stdio,
}

pub struct CommandView {
    pub sandbox_name: Seq<char>,
    pub argv: Seq<Seq<char>>,
    pub env: Seq<EnvironmentVariableView>,
    pub cwd: Seq<char>,
    pub stdio: StdioView,
}

impl DeepView for Command {
    type V = CommandView;

    open spec fn deep_view(&self) -> CommandView {
        CommandView {
            sandbox_name: self.sandbox_name@,
            argv: self.argv.deep_view(),
            env: self.env.deep_view(),
            cwd: self.cwd@,
            stdio: self.stdio.deep_view(),
        }
    }
}

#[derive(Debug, PartialEq, Eq)]
pub enum Action {
    OpenNullFile { id: FileId },
    CreateVolume(VolumeSettings),
    CreateSandbox(SandboxSettings),
    CreateFile { id: FileId, readable: bool, writeable: bool },
    ExecuteCommand(Command),
}

pub enum ActionView {
    OpenNullFile { id: Seq<char> },
    CreateVolume(VolumeSettingsView),
    CreateSandbox(SandboxSettingsView),
    CreateFile { id: Seq<char>, readable: bool, writeable: bool },
    ExecuteCommand(CommandView),
}

impl DeepView for Action {
    type V = ActionView;

    open spec fn deep_view(&self) -> ActionView {
        match self {
            Action::OpenNullFile { id } => ActionView::OpenNullFile { id: id.deep_view() },
            Action::CreateVolume(settings) => ActionView::CreateVolume(settings.deep_view()),
            Action::CreateSandbox(settings) => ActionView::CreateSandbox(settings.deep_view()),
            Action::CreateFile { id, readable, writeable } => ActionView::CreateFile {
                id: id.deep_view(),
                readable: *readable,
                writeable: *writeable,
            },
            Action::ExecuteCommand(command) => ActionView::ExecuteCommand(command.deep_view()),
        }
    }
}

/// One action together with the stage it belongs to. Stages run in
/// increasing order.
#[derive(Debug, PartialEq, Eq)]
pub struct Step {
    pub stage: u32,
    pub action: Action,
}

pub struct StepView {
    pub stage: u32,
    pub action: ActionView,
}

impl DeepView for Step {
    type V = StepView;

    open spec fn deep_view(&self) -> StepView {
        StepView { stage: self.stage, action: self.action.deep_view() }
    }
}

#[derive(Debug, PartialEq, Eq)]
pub enum OutputRequestTarget {
    File(FileId),
    Path(PrefixedPath),
}

pub enum OutputRequestTargetView {
    File(Seq<char>),
    Path(PrefixedPathView),
}

impl DeepView for OutputRequestTarget {
    type V = OutputRequestTargetView;

    open spec fn deep_view(&self) -> OutputRequestTargetView {
        match self {
            OutputRequestTarget::File(id) => OutputRequestTargetView::File(id.deep_view()),
            OutputRequestTarget::Path(path) => OutputRequestTargetView::Path(path.deep_view()),
        }
    }
}

/// Asks the service to hand back the contents of a file under a name.
#[derive(Debug, PartialEq, Eq)]
pub struct OutputRequest {
    pub name: String,
    pub target: OutputRequestTarget,
}

pub struct OutputRequestView {
    pub name: Seq<char>,
    pub target: OutputRequestTargetView,
}

impl DeepView for OutputRequest {
    type V = OutputRequestView;

    open spec fn deep_view(&self) -> OutputRequestView {
        OutputRequestView { name: self.name@, target: self.target.deep_view() }
    }
}

/// A file that the shim places in the extra-files directory.
#[derive(Debug, PartialEq, Eq)]
pub struct ExtraFile {
    pub contents: InputSource,
    pub executable: bool,
}

pub struct ExtraFileView {
    pub contents: InputSourceView,
    pub executable: bool,
}

impl DeepView for ExtraFile {
    type V = ExtraFileView;

    open spec fn deep_view(&self) -> ExtraFileView {
        ExtraFileView { contents: self.contents.deep_view(), executable: self.executable }
    }
}

/// What the shim needs besides the steps: the extra files by their path
/// inside the extra-files directory, and the substitutions by their name.
#[derive(Debug, PartialEq, Eq)]
pub struct RequestExtensions {
    pub extra_files: Vec<(String, ExtraFile)>,
    pub substitutions: Vec<(String, String)>,
}

pub struct RequestExtensionsView {
    pub extra_files: Seq<(Seq<char>, ExtraFileView)>,
    pub substitutions: Seq<(Seq<char>, Seq<char>)>,
}

impl DeepView for RequestExtensions {
    type V = RequestExtensionsView;

    open spec fn deep_view(&self) -> RequestExtensionsView {
        RequestExtensionsView {
            extra_files: self.extra_files.deep_view(),
            substitutions: self.substitutions.deep_view(),
        }
    }
}

/// The id of a request that has not been submitted yet.
pub const NIL_ID: u128 = 0;

#[derive(Debug, PartialEq, Eq)]
pub struct InvokeRequest {
    pub steps: Vec<Step>,
    pub inputs: Vec<Input>,
    pub outputs: Vec<OutputRequest>,
    /// A UUID as a number; `NIL_ID` until the request is submitted.
    pub id: u128,
    pub ext: RequestExtensions,
}

pub struct InvokeRequestView {
    pub steps: Seq<StepView>,
    pub inputs: Seq<InputView>,
    pub outputs: Seq<OutputRequestView>,
    pub id: u128,
    pub ext: RequestExtensionsView,
}

impl DeepView for InvokeRequest {
    type V = InvokeRequestView;

    open spec fn deep_view(&self) -> InvokeRequestView {
        InvokeRequestView {
            steps: self.steps.deep_view(),
            inputs: self.inputs.deep_view(),
            outputs: self.outputs.deep_view(),
            id: self.id,
            ext: self.ext.deep_view(),
        }
    }
}

/// How one executed command ended. Times are in nanoseconds, memory in bytes.
#[derive(Debug, PartialEq, Eq)]
pub struct CommandResult {
    pub spawn_error: Option<String>,
    pub cpu_time: Option<u64>,
    pub memory: Option<u64>,
    pub exit_code: i64,
}

#[derive(Debug, PartialEq, Eq)]
pub enum ActionResult {
    ExecuteCommand(CommandResult),
    /// The result of any step that is not a command.
    Other,
}

#[derive(Debug, PartialEq, Eq)]
pub enum OutputData {
    InlineBase64(String),
}

#[derive(Debug, PartialEq, Eq)]
pub struct Output {
    pub name: String,
    pub data: OutputData,
}

/// One result per step, in the order of the steps, and the requested outputs.
#[derive(Debug, PartialEq, Eq)]
pub struct InvokeResponse {
    pub actions: Vec<ActionResult>,
    pub outputs: Vec<Output>,
}

/// The step that opens the null device under the name `id`.
pub open spec fn open_null_file(stage: u32, id: Seq<char>) -> StepView {
    StepView { stage, action: ActionView::OpenNullFile { id } }
}

/// The step that creates an empty file, readable and writeable, called `id`.
pub open spec fn create_file(stage: u32, id: Seq<char>) -> StepView {
    StepView { stage, action: ActionView::CreateFile { id, readable: true, writeable: true } }
}

/// The request for the contents of the file `name`, under that same name.
pub open spec fn file_output(name: Seq<char>) -> OutputRequestView {
    OutputRequestView { name, target: OutputRequestTargetView::File(name) }
}

/// The variable `name` whose value is the path of the file `file`.
pub open spec fn file_variable(name: Seq<char>, file: Seq<char>) -> EnvironmentVariableView {
    EnvironmentVariableView { name, value: EnvVarValueView::File(file) }
}

/// The variable that a pair of name and plain value stands for.
pub open spec fn plain_variable(pair: (Seq<char>, Seq<char>)) -> EnvironmentVariableView {
    EnvironmentVariableView { name: pair.0, value: EnvVarValueView::Plain(pair.1) }
}

/// The variables that a list of names and plain values stands for, in order.
pub open spec fn plain_variables(pairs: Seq<(Seq<char>, Seq<char>)>) -> Seq<
    EnvironmentVariableView,
> {
    Seq::new(pairs.len(), |i: int| plain_variable(pairs[i]))
}

/// The directory `path` of the extra files, read-only at `sandbox_path`.
pub open spec fn extra_files_dir(path: Seq<char>, sandbox_path: Seq<char>) -> SharedDirView {
    SharedDirView {
        host_path: PrefixedPathView {
            prefix: PathPrefixView::Extension { name: EXTRA_FILES_DIR_NAME@ },
            path,
        },
        sandbox_path,
        mode: SharedDirectoryMode::ReadOnly,
        create: false,
    }
}

/// The root of the volume `volume`, writeable at `sandbox_path`.
pub open spec fn volume_dir(volume: Seq<char>, sandbox_path: Seq<char>) -> SharedDirView {
    SharedDirView {
        host_path: PrefixedPathView { prefix: PathPrefixView::Volume(volume), path: Seq::empty() },
        sandbox_path,
        mode: SharedDirectoryMode::ReadWrite,
        create: false,
    }
}

impl FileId {
    pub fn new(name: &str) -> (r: FileId)
        ensures
            r.deep_view() == name@,
    {
        FileId(String::from_str(name))
    }
}

impl Step {
    pub fn open_null_file(stage: u32, id: &str) -> (r: Step)
        ensures
            r.deep_view() == open_null_file(stage, id@),
    {
        Step { stage, action: Action::OpenNullFile { id: FileId::new(id) } }
    }

    pub fn create_file(stage: u32, id: &str) -> (r: Step)
        ensures
            r.deep_view() == create_file(stage, id@),
    {
        Step {
            stage,
            action: Action::CreateFile { id: FileId::new(id), readable: true, writeable: true },
        }
    }
}

impl OutputRequest {
    pub fn file(name: &str) -> (r: OutputRequest)
        ensures
            r.deep_view() == file_output(name@),
    {
        OutputRequest {
            name: String::from_str(name),
            target: OutputRequestTarget::File(FileId::new(name)),
        }
    }
}

impl EnvironmentVariable {
    pub fn file(name: &str, file: &str) -> (r: EnvironmentVariable)
        ensures
            r.deep_view() == file_variable(name@, file@),
    {
        EnvironmentVariable {
            name: String::from_str(name),
            value: EnvVarValue::File(FileId::new(file)),
        }
    }

    /// The variables of a command, from the pairs of a manifest.
    pub fn plain_list(pairs: &Vec<(String, String)>) -> (r: Vec<EnvironmentVariable>)
        ensures
            r.deep_view() == plain_variables(pairs.deep_view()),
    {
        let mut r: Vec<EnvironmentVariable> = Vec::new();
        let mut i: usize = 0;
        while i < pairs.len()
            invariant
                i <= pairs.len(),
                r.len() == i,
                forall|k: int|
                    0 <= k < i ==> r[k].deep_view() == plain_variable(pairs[k].deep_view()),
            decreases pairs.len() - i,
        {
            r.push(
                EnvironmentVariable {
                    name: pairs[i].0.clone(),
                    value: EnvVarValue::Plain(pairs[i].1.clone()),
                },
            );
            i += 1;
        }
        assert(r.deep_view() =~= plain_variables(pairs.deep_view()));
        r
    }
}

impl SharedDir {
    pub fn extra_files(path: &str, sandbox_path: &str) -> (r: SharedDir)
        ensures
            r.deep_view() == extra_files_dir(path@, sandbox_path@),
    {
        SharedDir {
            host_path: PrefixedPath {
                prefix: PathPrefix::Extension { name: String::from_str(EXTRA_FILES_DIR_NAME) },
                path: String::from_str(path),
            },
            sandbox_path: String::from_str(sandbox_path),
            mode: SharedDirectoryMode::ReadOnly,
            create: false,
        }
    }

    pub fn volume(volume: &str, sandbox_path: &str) -> (r: SharedDir)
        ensures
            r.deep_view() == volume_dir(volume@, sandbox_path@),
    {
        SharedDir {
            host_path: PrefixedPath {
                prefix: PathPrefix::Volume(String::from_str(volume)),
                path: String::new(),
            },
            sandbox_path: String::from_str(sandbox_path),
            mode: SharedDirectoryMode::ReadWrite,
            create: false,
        }
    }
}

} // verus!
