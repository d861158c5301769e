//! The judging core of a programming-contest grading service.
//!
//! The crate holds the decisions of one judging job: which sandbox
//! invocations to build, how to read their results, how to assemble the judge
//! logs, and in which order the job talks to its collaborators. Everything
//! that touches the network, the file system or a child process is left to the
//! caller, which feeds the results back in as plain values.

pub mod chacha;
pub mod checker_proto;
pub mod codec;
pub mod compile;
pub mod error;
pub mod fake;
pub mod invoke;
pub mod invoker_client;
pub mod job;
pub mod jobs;
pub mod judge_log;
pub mod live;
pub mod paths;
pub mod problem;
pub mod problem_loader;
pub mod processor;
pub mod progress;
pub mod request_builder;
pub mod rest;
pub mod sorting;
pub mod status_codes;
pub mod text;
pub mod toolchain_loader;
pub mod transform_judge_log;
pub mod valuer;
pub mod valuer_client;
