//! The records a submission passes through: its status, the stored
//! submission, and the request and response bodies of the HTTP interface.

use vstd::prelude::*;

verus! {

/// Where a submission stands. `Queued`, `Compiling` and `Running` are
/// transient; the other variants are final outcomes.
#[derive(Debug, Clone, Copy, PartialEq, Eq, Structural)]
pub enum SubmissionStatus {
    Queued,
    Compiling,
    Running,
    Accepted,
    CompileError,
    RuntimeError,
    TimeLimitExceeded,
    MemoryLimitExceeded,
    InternalError,
}

/// The label shown to clients for each status.
pub open spec fn status_label(s: SubmissionStatus) -> Seq<char> {
    match s {
        SubmissionStatus::Queued => "Queued"@,
        SubmissionStatus::Compiling => "Compiling"@,
        SubmissionStatus::Running => "Running"@,
        SubmissionStatus::Accepted => "Accepted"@,
        SubmissionStatus::CompileError => "Compile Error"@,
        SubmissionStatus::RuntimeError => "Runtime Error"@,
        SubmissionStatus::TimeLimitExceeded => "Time Limit Exceeded"@,
        SubmissionStatus::MemoryLimitExceeded => "Memory Limit Exceeded"@,
        SubmissionStatus::InternalError => "Internal Error"@,
    }
}

/// A final outcome: the submission will not change status again.
pub open spec fn is_final(s: SubmissionStatus) -> bool {
    !(s is Queued || s is Compiling || s is Running)
}

impl SubmissionStatus {
    /// The label shown to clients.
    pub fn as_str(&self) -> (r: &'static str)
        ensures
            r@ == status_label(*self),
    {
        match self {
            SubmissionStatus::Queued => "Queued",
            SubmissionStatus::Compiling => "Compiling",
            SubmissionStatus::Running => "Running",
            SubmissionStatus::Accepted => "Accepted",
            SubmissionStatus::CompileError => "Compile Error",
            SubmissionStatus::RuntimeError => "Runtime Error",
            SubmissionStatus::TimeLimitExceeded => "Time Limit Exceeded",
            SubmissionStatus::MemoryLimitExceeded => "Memory Limit Exceeded",
            SubmissionStatus::InternalError => "Internal Error",
        }
    }
}

/// A stored submission: what was asked, and what came of it so far.
#[derive(Debug)]
pub struct Submission {
    pub id: String,
    pub language: String,
    pub source: String,
    pub stdin: Option<String>,
    pub time_limit_ms: u64,
    pub memory_limit_kb: u64,
    pub status: SubmissionStatus,
    pub stdout: Option<String>,
    pub stderr: Option<String>,
    pub compile_output: Option<String>,
    pub exit_code: Option<i32>,
    pub time_ms: Option<u64>,
    pub memory_kb: Option<u64>,
    pub created_at: String,
}

/// A copy of an optional text.
pub fn copy_opt_text(t: &Option<String>) -> (r: Option<String>)
    ensures
        r == *t,
{
    match t {
        Some(s) => Some(s.clone()),
        None => None,
    }
}

impl Submission {
    /// A field-for-field copy.
    pub fn duplicate(&self) -> (r: Submission)
        ensures
            r == *self,
    {
        Submission {
            id: self.id.clone(),
            language: self.language.clone(),
            source: self.source.clone(),
            stdin: copy_opt_text(&self.stdin),
            time_limit_ms: self.time_limit_ms,
            memory_limit_kb: self.memory_limit_kb,
            status: self.status,
            stdout: copy_opt_text(&self.stdout),
            stderr: copy_opt_text(&self.stderr),
            compile_output: copy_opt_text(&self.compile_output),
            exit_code: self.exit_code,
            time_ms: self.time_ms,
            memory_kb: self.memory_kb,
            created_at: self.created_at.clone(),
        }
    }
}

/// The body of a request to run code. Limits that are absent or not
/// positive fall back to the configured defaults.
#[derive(Debug)]
pub struct CreateSubmissionRequest {
    pub language: String,
    pub source: String,
    pub stdin: Option<String>,
    pub time_limit_ms: Option<i64>,
    pub memory_limit_kb: Option<i64>,
}

/// The answer to an accepted request: the new submission's id and status.
#[derive(Debug)]
pub struct CreateSubmissionResponse {
    pub id: String,
    pub status: String,
}

/// A stored submission as shown to clients.
#[derive(Debug)]
pub struct SubmissionResponse {
    pub id: String,
    pub language: String,
    pub status: String,
    pub stdout: Option<String>,
    pub stderr: Option<String>,
    pub compile_output: Option<String>,
    pub exit_code: Option<i32>,
    pub time_ms: Option<u64>,
    pub memory_kb: Option<u64>,
}

/// A supported language as listed to clients.
#[derive(Debug)]
pub struct RuntimeInfo {
    pub id: String,
    pub name: String,
    pub compiled: bool,
}

} // verus!
