//! Toolchains: named recipes that turn a source file into something that runs.

use crate::paths::{join, joined_path, trim, trimmed};
use crate::problem::Limits;
use vstd::prelude::*;

verus! {

/// A command line as a toolchain manifest gives it.
#[derive(Clone, Debug, PartialEq, Eq)]
pub struct Command {
    pub env: Vec<(String, String)>,
    pub argv: Vec<String>,
    pub cwd: String,
}

impl Command {
    /// The environment of a command that names none.
    pub fn default_env() -> (r: Vec<(String, String)>)
        ensures
            r@.len() == 0,
    {
        Vec::new()
    }

    /// The working directory of a command that names none.
    pub fn default_cwd() -> (r: String)
        ensures
            r@ == "/jjs"@,
    {
        String::from_str("/jjs")
    }
}

/// The contents of a toolchain's manifest.
#[derive(Clone, Debug, PartialEq, Eq)]
pub struct ToolchainSpec {
    /// Name for people.
    pub title: String,
    /// Name for programs.
    pub name: String,
    /// Name under which the compiler expects the source file.
    pub filename: String,
    pub build_commands: Vec<Command>,
    pub run_command: Command,
    /// Limits of the build.
    pub limits: Limits,
    pub env: Vec<(String, String)>,
}

#[derive(Clone, Debug, PartialEq, Eq)]
pub struct Toolchain {
    pub spec: ToolchainSpec,
    /// Tag of the container image that holds the toolchain's files.
    pub image: String,
}

/// Knows where the toolchains are kept: one directory per toolchain, named
/// after it, with the manifest and the image tag in two files.
#[derive(Debug, PartialEq, Eq)]
pub struct ToolchainLoader {
    pub toolchains_dir: String,
}

impl ToolchainLoader {
    pub fn new(toolchains_dir: &str) -> (r: ToolchainLoader)
        ensures
            r.toolchains_dir@ == toolchains_dir@,
    {
        ToolchainLoader { toolchains_dir: String::from_str(toolchains_dir) }
    }

    /// Path of the manifest of the toolchain `toolchain_name`.
    pub fn manifest_path(&self, toolchain_name: &str) -> (r: String)
        ensures
            r@ == joined_path(
                joined_path(self.toolchains_dir@, toolchain_name@),
                "manifest.yaml"@,
            ),
    {
        let dir = join(self.toolchains_dir.as_str(), toolchain_name);
        join(dir.as_str(), "manifest.yaml")
    }

    /// Path of the file that holds the image tag of `toolchain_name`.
    pub fn image_path(&self, toolchain_name: &str) -> (r: String)
        ensures
            r@ == joined_path(joined_path(self.toolchains_dir@, toolchain_name@), "image.txt"@),
    {
        let dir = join(self.toolchains_dir.as_str(), toolchain_name);
        join(dir.as_str(), "image.txt")
    }

    /// Puts a toolchain together from its parsed manifest and the contents
    /// of its image file, whose surrounding white space does not count.
    pub fn resolve(&self, spec: ToolchainSpec, image_file: &str) -> (r: Toolchain)
        ensures
            r.spec == spec,
            r.image@ == trimmed(image_file@),
    {
        Toolchain { spec, image: trim(image_file) }
    }
}

} // verus!
