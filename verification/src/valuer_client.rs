//! Talking to a valuer that runs as a child process. Messages go both ways
//! as lines of text, one message per line.

use crate::error::{Error, ErrorKind};
use crate::text::copy_texts;
use vstd::prelude::*;

verus! {

/// How long the judge waits for a message of the valuer before it gives
/// up, in seconds.
pub const POLL_TIMEOUT_SECS: u64 = 15;

/// The byte that ends a message.
pub const LINE_END: u8 = 10;

/// What it takes to start a valuer.
#[derive(Debug, PartialEq, Eq)]
pub enum ClientConfig {
    Child(ChildClientConfig),
}

#[derive(Debug, PartialEq, Eq)]
pub struct ChildClientConfig {
    pub exe: String,
    pub args: Vec<String>,
    pub current_dir: String,
}

pub struct ChildClientConfigView {
    pub exe: Seq<char>,
    pub args: Seq<Seq<char>>,
    pub current_dir: Seq<char>,
}

impl DeepView for ChildClientConfig {
    type V = ChildClientConfigView;

    open spec fn deep_view(&self) -> ChildClientConfigView {
        ChildClientConfigView {
            exe: self.exe@,
            args: self.args.deep_view(),
            current_dir: self.current_dir@,
        }
    }
}

impl DeepView for ClientConfig {
    type V = ChildClientConfigView;

    open spec fn deep_view(&self) -> ChildClientConfigView {
        match self {
            ClientConfig::Child(config) => config.deep_view(),
        }
    }
}

/// How the child process is to be started.
#[derive(Debug, PartialEq, Eq)]
pub struct Launch {
    pub exe: String,
    pub args: Vec<String>,
    /// Variables added to the environment that the child inherits.
    pub env: Vec<(String, String)>,
    /// The working directory; the judge's own where there is none.
    pub current_dir: Option<String>,
}

pub struct LaunchView {
    pub exe: Seq<char>,
    pub args: Seq<Seq<char>>,
    pub env: Seq<(Seq<char>, Seq<char>)>,
    pub current_dir: Option<Seq<char>>,
}

impl DeepView for Launch {
    type V = LaunchView;

    open spec fn deep_view(&self) -> LaunchView {
        LaunchView {
            exe: self.exe@,
            args: self.args.deep_view(),
            env: self.env.deep_view(),
            current_dir: self.current_dir.deep_view(),
        }
    }
}

/// The valuer is told that it runs under the judge, and how much to log.
pub open spec fn child_environment() -> Seq<(Seq<char>, Seq<char>)> {
    seq![("JJS_VALUER"@, "1"@), ("RUST_LOG"@, "info,svaluer=debug"@)]
}

/// Decides how to start the valuer. A working directory that does not
/// exist is not asked for.
pub fn launch(cfg: &ChildClientConfig, work_dir_exists: bool) -> (r: Launch)
    ensures
        r.deep_view() == (LaunchView {
            exe: cfg.exe@,
            args: cfg.args.deep_view(),
            env: child_environment(),
            current_dir: if work_dir_exists {
                Some(cfg.current_dir@)
            } else {
                None
            },
        }),
{
    let mut env: Vec<(String, String)> = Vec::new();
    env.push((String::from_str("JJS_VALUER"), String::from_str("1")));
    env.push((String::from_str("RUST_LOG"), String::from_str("info,svaluer=debug")));
    assert(env.deep_view() =~= child_environment());
    Launch {
        exe: cfg.exe.clone(),
        args: copy_texts(&cfg.args),
        env,
        current_dir: if work_dir_exists {
            Some(cfg.current_dir.clone())
        } else {
            None
        },
    }
}

/// Makes a line of a serialized message: the message and the end of the
/// line. A message that holds the end of a line itself is refused.
pub fn frame_message(message: Vec<u8>) -> (r: Result<Vec<u8>, Error>)
    ensures
        message@.contains(LINE_END) ==> r is Err && r->Err_0.kind == ErrorKind::MessageNotOneLine,
        !message@.contains(LINE_END) ==> r is Ok && r->Ok_0@ == message@.push(LINE_END),
{
    let mut i: usize = 0;
    while i < message.len()
        invariant
            i <= message.len(),
            forall|k: int| 0 <= k < i ==> message@[k] != LINE_END,
        decreases message.len() - i,
    {
        if message[i] == LINE_END {
            return Err(
                Error::new(ErrorKind::MessageNotOneLine, "bug: serialized message is not oneline"),
            );
        }
        i += 1;
    }
    let mut line = message;
    line.push(LINE_END);
    Ok(line)
}

} // verus!
