//! Data model of the job runner: one submitted automation task, its
//! lifecycle status, and the sole write payload the client constructs.
//!
//! The runner owns every `Job` it reports; this crate never advances a
//! status, it only mirrors what the runner sent.

use vstd::prelude::*;

verus! {

/// Lifecycle stage of a job, owned and advanced entirely by the remote
/// runner. On the wire each variant is a lowercase-with-underscores token
/// (see `wire`).
#[derive(Clone, Copy, Debug, PartialEq, Eq, Structural)]
pub enum JobStatus {
    Queued,
    Coding,
    Patching,
    Testing,
    PrOpened,
    Failed,
    Cancelled,
}

/// A point in time as reported by the runner, in milliseconds since the
/// Unix epoch. Conversion from a calendar representation is a caller's
/// concern.
#[derive(Clone, Copy, Debug, PartialEq, Eq, Structural)]
pub struct Timestamp {
    pub unix_millis: i64,
}

/// One submitted automation task, as mirrored from the runner.
#[derive(Clone, Debug)]
pub struct Job {
    pub id: String,
    pub task: String,
    pub repo: String,
    pub branch: Option<String>,
    pub status: JobStatus,
    pub pr_url: Option<String>,
    pub error: Option<String>,
    pub logs: Vec<String>,
    pub created_at: Timestamp,
    pub updated_at: Timestamp,
}

/// The payload of a job-creation request: what to do, where to do it,
/// and whether to run without side effects.
#[derive(Clone, Debug)]
pub struct CreateJobRequest {
    pub task: String,
    pub repo: String,
    pub dry_run: bool,
}

} // verus!
