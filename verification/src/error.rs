//! What can go wrong while a job is judged.

use vstd::prelude::*;

verus! {

/// The kind of an error, without its details.
#[derive(Clone, Copy, Debug, PartialEq, Eq, Structural)]
pub enum ErrorKind {
    /// The client was built without any pool of invokers.
    NoPoolsConfigured,
    /// A request was handed over with an id already assigned.
    RequestIdNotNil,
    /// A payload is too large to be sent inline.
    PayloadTooLarge,
    /// The response holds no output of the wanted name.
    OutputNotFound,
    /// An output of the response is not valid base64.
    InvalidBase64,
    /// The response has no result at the position of a step of the request.
    InvalidStepIndex,
    /// The result at the position of a command is not that of a command.
    UnexpectedActionResult,
    /// The valuer asked for a test that the problem does not have.
    UnknownTest,
    /// The contents of a file that the request needs were not supplied.
    MissingAsset,
    /// A toolchain has more build commands than a request can number.
    TooManySteps,
    /// A message for the valuer spans more than one line.
    MessageNotOneLine,
    /// No registry knows a problem of the requested name.
    ProblemNotFound,
    /// The job was handed something that does not fit its current state.
    UnexpectedEvent,
    /// A collaborator (registry, invoker, valuer, file system) reported a
    /// failure.
    Collaborator,
}

#[derive(Clone, Debug, PartialEq, Eq)]
pub struct Error {
    pub kind: ErrorKind,
    /// What the error is about, for the reader of a log.
    pub detail: String,
}

impl Error {
    pub fn new(kind: ErrorKind, detail: &str) -> (r: Error)
        ensures
            r.kind == kind,
            r.detail@ == detail@,
    {
        Error { kind, detail: String::from_str(detail) }
    }

    /// The error with a line of context put in front of its detail.
    pub fn context(self, context: &str) -> (r: Error)
        ensures
            r.kind == self.kind,
            r.detail@ == context@ + ": "@ + self.detail@,
    {
        let mut detail = String::from_str(context);
        detail.append(": ");
        detail.append(self.detail.as_str());
        Error { kind: self.kind, detail }
    }

    /// The text that describes the error to a user.
    pub fn message(&self) -> (r: String)
        ensures
            r@ == self.detail@,
    {
        self.detail.clone()
    }
}

} // verus!
