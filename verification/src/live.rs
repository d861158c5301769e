//! What is known of a job while it runs.

use vstd::prelude::*;

verus! {

/// How far the judging of a job has come. This may be out of date the
/// moment it is read.
#[derive(Clone, Copy, Debug, PartialEq, Eq, Structural)]
pub struct LiveJudgeStatus {
    /// A test that the run is being judged on.
    pub test: Option<u32>,
    /// The score that the run has reached, if an estimate was made.
    pub score: Option<u32>,
}

} // verus!
