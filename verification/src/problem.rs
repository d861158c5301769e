//! The manifest of a problem: its tests, its checker and its valuer.

use vstd::prelude::*;

verus! {

/// Number of a test, counted from one.
#[derive(Clone, Copy, Debug, PartialEq, Eq, Structural, Hash)]
pub struct TestId(pub u32);

impl DeepView for TestId {
    type V = TestId;

    open spec fn deep_view(&self) -> TestId {
        *self
    }
}

impl TestId {
    pub fn make(value: u32) -> (r: TestId)
        requires
            value != 0,
        ensures
            r == TestId(value),
    {
        TestId(value)
    }

    pub fn get(self) -> (r: u32)
        ensures
            r == self.0,
    {
        self.0
    }

    /// Position of the test in the problem's list of tests.
    pub fn to_idx(self) -> (r: usize)
        requires
            self.0 != 0,
        ensures
            r == self.0 - 1,
    {
        (self.0 - 1) as usize
    }
}

#[derive(Clone, Copy, Debug, PartialEq, Eq, Structural)]
pub enum FileRefRoot {
    /// Relative to the directory that holds the problem's assets.
    Problem,
    /// Relative to the root of the file system.
    Root,
}

#[derive(Clone, Debug, PartialEq, Eq)]
pub struct FileRef {
    pub root: FileRefRoot,
    pub path: String,
}

pub const DEFAULT_TIME_LIMIT: u64 = 3000;

pub const DEFAULT_MEMORY_LIMIT: u64 = 268435456;

pub const DEFAULT_PROCESS_COUNT: u64 = 16;

/// Limits as a manifest states them: each one may be left out. Time is in
/// milliseconds, memory and the size of the working directory in bytes.
#[derive(Clone, Copy, Debug, PartialEq, Eq, Structural)]
pub struct Limits {
    pub memory: Option<u64>,
    pub time: Option<u64>,
    pub process_count: Option<u64>,
    pub work_dir_size: Option<u64>,
}

impl Limits {
    pub open spec fn spec_time(self) -> u64 {
        match self.time {
            Some(t) => t,
            None => DEFAULT_TIME_LIMIT,
        }
    }

    pub open spec fn spec_memory(self) -> u64 {
        match self.memory {
            Some(m) => m,
            None => DEFAULT_MEMORY_LIMIT,
        }
    }

    pub open spec fn spec_process_count(self) -> u64 {
        match self.process_count {
            Some(n) => n,
            None => DEFAULT_PROCESS_COUNT,
        }
    }

    #[verifier::when_used_as_spec(spec_time)]
    pub fn time(self) -> (r: u64)
        ensures
            r == self.spec_time(),
    {
        match self.time {
            Some(t) => t,
            None => DEFAULT_TIME_LIMIT,
        }
    }

    #[verifier::when_used_as_spec(spec_memory)]
    pub fn memory(self) -> (r: u64)
        ensures
            r == self.spec_memory(),
    {
        match self.memory {
            Some(m) => m,
            None => DEFAULT_MEMORY_LIMIT,
        }
    }

    #[verifier::when_used_as_spec(spec_process_count)]
    pub fn process_count(self) -> (r: u64)
        ensures
            r == self.spec_process_count(),
    {
        match self.process_count {
            Some(n) => n,
            None => DEFAULT_PROCESS_COUNT,
        }
    }
}

impl Default for Limits {
    fn default() -> (r: Limits)
        ensures
            r == (Limits { memory: None, time: None, process_count: None, work_dir_size: None }),
    {
        Limits { memory: None, time: None, process_count: None, work_dir_size: None }
    }
}

#[derive(Clone, Debug, PartialEq, Eq)]
pub struct Test {
    /// The input of the test.
    pub path: FileRef,
    /// The reference answer, for checkers that want one.
    pub correct: Option<FileRef>,
    pub limits: Limits,
    /// The group that the valuer scores this test in.
    pub group: String,
}

/// A valuer that runs as a child process of the judge.
#[derive(Clone, Debug, PartialEq, Eq)]
pub struct ChildValuerCfg {
    pub exe: FileRef,
    pub extra_args: Vec<String>,
    pub current_dir: Option<FileRef>,
}

#[derive(Clone, Debug, PartialEq, Eq)]
pub enum Valuer {
    Child(ChildValuerCfg),
}

#[derive(Clone, Debug, PartialEq, Eq)]
pub struct Problem {
    pub tests: Vec<Test>,
    pub checker_exe: FileRef,
    pub checker_cmd: Vec<String>,
    pub valuer: Valuer,
}

} // verus!
