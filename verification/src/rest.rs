//! What the judge's REST interface takes and gives.

use crate::codec::{base64_bytes, base64_decode, base64_encode, base64_text, encodable_len};
use crate::error::{Error, ErrorKind};
use crate::live::LiveJudgeStatus;
use vstd::prelude::*;

verus! {

/// Bytes that travel as base64.
#[derive(Debug, PartialEq, Eq)]
pub struct ByteString(pub Vec<u8>);

impl ByteString {
    /// The text that stands for the bytes.
    pub fn encode(&self) -> (r: Result<String, Error>)
        ensures
            encodable_len(self.0@.len()) ==> r is Ok && r->Ok_0@ == base64_text(self.0@)
                && base64_bytes(r->Ok_0@) == Some(self.0@),
            !encodable_len(self.0@.len()) ==> r is Err && r->Err_0.kind
                == ErrorKind::PayloadTooLarge,
    {
        if self.0.len() / 3 >= usize::MAX / 4 {
            return Err(Error::new(ErrorKind::PayloadTooLarge, "payload too large"));
        }
        Ok(base64_encode(self.0.as_slice()))
    }

    /// The bytes that a text stands for.
    pub fn decode(repr: &str) -> (r: Result<ByteString, Error>)
        ensures
            match base64_bytes(repr@) {
                Some(bytes) => r is Ok && r->Ok_0.0@ == bytes,
                None => r is Err && r->Err_0.kind == ErrorKind::InvalidBase64,
            },
    {
        match base64_decode(repr) {
            Ok(bytes) => Ok(ByteString(bytes)),
            Err(_) => Err(
                Error::new(ErrorKind::InvalidBase64, "expected valid base64-encoded string"),
            ),
        }
    }
}

/// The request to judge a run.
#[derive(Debug, PartialEq, Eq)]
pub struct JudgeRequest {
    /// Name of the toolchain that builds and runs the submission.
    pub toolchain_name: String,
    /// Name of the problem that the submission is for.
    pub problem_id: String,
    /// The submitted source.
    pub run_source: ByteString,
    /// Whatever the sender wants kept with the job. The judge keeps it and
    /// makes nothing of it.
    pub annotations: Vec<(String, String)>,
}

/// What the judge tells about a job.
#[derive(Debug, PartialEq, Eq)]
pub struct JudgeJob {
    /// The job's UUID, as a number.
    pub id: u128,
    /// The kinds of the logs that were created.
    pub logs: Vec<String>,
    /// The annotations of the request.
    pub annotations: Vec<(String, String)>,
    /// Whether the job is over.
    pub completed: bool,
    pub live: LiveJudgeStatus,
    /// What went wrong, if the job has failed.
    pub error: Option<String>,
}

pub struct JudgeJobView {
    pub id: u128,
    pub logs: Seq<Seq<char>>,
    pub annotations: Seq<(Seq<char>, Seq<char>)>,
    pub completed: bool,
    pub live: LiveJudgeStatus,
    pub error: Option<Seq<char>>,
}

impl DeepView for JudgeJob {
    type V = JudgeJobView;

    open spec fn deep_view(&self) -> JudgeJobView {
        JudgeJobView {
            id: self.id,
            logs: self.logs.deep_view(),
            annotations: self.annotations.deep_view(),
            completed: self.completed,
            live: self.live,
            error: self.error.deep_view(),
        }
    }
}

} // verus!
