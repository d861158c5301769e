//! The status codes that the judge itself assigns.

use vstd::prelude::*;

verus! {

pub const ACCEPTED: &'static str = "ACCEPTED";

pub const PARTIAL_SOLUTION: &'static str = "PARTIAL_SOLUTION";

pub const COMPILER_FAILED: &'static str = "COMPILER_FAILED";

pub const COMPILATION_TIMED_OUT: &'static str = "COMPILATION_TIMED_OUT";

pub const TEST_PASSED: &'static str = "TEST_PASSED";

pub const WRONG_ANSWER: &'static str = "WRONG_ANSWER";

pub const PRESENTATION_ERROR: &'static str = "PRESENTATION_ERROR";

pub const TIME_LIMIT_EXCEEDED: &'static str = "TIME_LIMIT_EXCEEDED";

pub const RUNTIME_ERROR: &'static str = "RUNTIME_ERROR";

pub const JUDGE_FAULT: &'static str = "JUDGE_FAULT";

} // verus!
