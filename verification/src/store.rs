//! Where submissions are kept between the request that creates them and the
//! worker that runs them.

use vstd::prelude::*;
use vstd::hash_map::StringHashMap;
use crate::errors::AppError;
use crate::models::{Submission, SubmissionStatus};

verus! {

/// What a store read of `id` gives back: the submission kept under it.
pub open spec fn stored(m: Map<Seq<char>, Submission>, id: Seq<char>) -> Option<Submission> {
    if m.contains_key(id) {
        Some(m[id])
    } else {
        None
    }
}

/// A submission with a new status.
pub open spec fn with_status(s: Submission, status: SubmissionStatus) -> Submission {
    Submission { status, ..s }
}

/// A submission with its outcome recorded.
pub open spec fn with_result(
    s: Submission,
    status: SubmissionStatus,
    stdout: Option<String>,
    stderr: Option<String>,
    compile_output: Option<String>,
    exit_code: Option<i32>,
    time_ms: Option<u64>,
    memory_kb: Option<u64>,
) -> Submission {
    Submission { status, stdout, stderr, compile_output, exit_code, time_ms, memory_kb, ..s }
}

/// Storage for submissions, keyed by submission id.
pub trait SubmissionStore {
    /// The submission kept under `id`, if any.
    fn get(&self, id: &str) -> Result<Option<Submission>, AppError>;

    /// Keeps `submission` under `id`, replacing what was there.
    fn set(&mut self, id: &str, submission: Submission) -> Result<(), AppError>;

    /// Changes the status of the submission kept under `id`.
    fn update_status(&mut self, id: &str, status: SubmissionStatus) -> Result<(), AppError>;

    /// Records the outcome of the submission kept under `id`.
    fn update_result(
        &mut self,
        id: &str,
        status: SubmissionStatus,
        stdout: Option<String>,
        stderr: Option<String>,
        compile_output: Option<String>,
        exit_code: Option<i32>,
        time_ms: Option<u64>,
        memory_kb: Option<u64>,
    ) -> Result<(), AppError>;
}

/// Submissions kept in memory.
pub struct InMemoryStore {
    submissions: StringHashMap<Submission>,
}

impl View for InMemoryStore {
    type V = Map<Seq<char>, Submission>;

    closed spec fn view(&self) -> Map<Seq<char>, Submission> {
        self.submissions@
    }
}

impl InMemoryStore {
    /// An empty store.
    pub fn new() -> (r: Self)
        ensures
            r@ == Map::<Seq<char>, Submission>::empty(),
    {
        InMemoryStore { submissions: StringHashMap::new() }
    }
}

impl SubmissionStore for InMemoryStore {
    fn get(&self, id: &str) -> (r: Result<Option<Submission>, AppError>)
        ensures
            r == Ok::<Option<Submission>, AppError>(stored(self@, id@)),
    {
        match self.submissions.get(id) {
            Some(s) => Ok(Some(s.duplicate())),
            None => Ok(None),
        }
    }

    fn set(&mut self, id: &str, submission: Submission) -> (r: Result<(), AppError>)
        ensures
            r is Ok,
            final(self)@ == old(self)@.insert(id@, submission),
    {
        self.submissions.insert(id.to_string(), submission);
        Ok(())
    }

    fn update_status(&mut self, id: &str, status: SubmissionStatus) -> (r: Result<(), AppError>)
        ensures
            old(self)@.contains_key(id@) ==> r is Ok && final(self)@ == old(self)@.insert(
                id@,
                with_status(old(self)@[id@], status),
            ),
            !old(self)@.contains_key(id@) ==> final(self)@ == old(self)@ && (r matches Err(
                AppError::SubmissionNotFound(m),
            ) && m@ == id@),
    {
        match self.submissions.get(id) {
            Some(s) => {
                let mut updated = s.duplicate();
                updated.status = status;
                self.submissions.insert(id.to_string(), updated);
                Ok(())
            },
            None => Err(AppError::SubmissionNotFound(id.to_string())),
        }
    }

    fn update_result(
        &mut self,
        id: &str,
        status: SubmissionStatus,
        stdout: Option<String>,
        stderr: Option<String>,
        compile_output: Option<String>,
        exit_code: Option<i32>,
        time_ms: Option<u64>,
        memory_kb: Option<u64>,
    ) -> (r: Result<(), AppError>)
        ensures
            old(self)@.contains_key(id@) ==> r is Ok && final(self)@ == old(self)@.insert(
                id@,
                with_result(
                    old(self)@[id@],
                    status,
                    stdout,
                    stderr,
                    compile_output,
                    exit_code,
                    time_ms,
                    memory_kb,
                ),
            ),
            !old(self)@.contains_key(id@) ==> final(self)@ == old(self)@ && (r matches Err(
                AppError::SubmissionNotFound(m),
            ) && m@ == id@),
    {
        match self.submissions.get(id) {
            Some(s) => {
                let mut updated = s.duplicate();
                updated.status = status;
                updated.stdout = stdout;
                updated.stderr = stderr;
                updated.compile_output = compile_output;
                updated.exit_code = exit_code;
                updated.time_ms = time_ms;
                updated.memory_kb = memory_kb;
                self.submissions.insert(id.to_string(), updated);
                Ok(())
            },
            None => Err(AppError::SubmissionNotFound(id.to_string())),
        }
    }
}

/// A read gives back what the last write under the same id wrote, and a
/// write under one id leaves every other id as it was.
pub proof fn law_read_after_set(m: Map<Seq<char>, Submission>, id: Seq<char>, other: Seq<char>, s: Submission)
    ensures
        stored(m.insert(id, s), id) == Some(s),
        other != id ==> stored(m.insert(id, s), other) == stored(m, other),
{
}

/// A status change shows in the next read and changes nothing else of the
/// submission.
pub proof fn law_read_after_status_update(
    m: Map<Seq<char>, Submission>,
    id: Seq<char>,
    status: SubmissionStatus,
)
    requires
        m.contains_key(id),
    ensures
        stored(m.insert(id, with_status(m[id], status)), id) matches Some(s) && s.status == status
            && s.id == m[id].id && s.source == m[id].source && s.stdout == m[id].stdout
            && s.time_limit_ms == m[id].time_limit_ms && s.memory_limit_kb
            == m[id].memory_limit_kb,
{
}

/// A recorded outcome shows in the next read; what was asked is kept.
pub proof fn law_read_after_result(
    m: Map<Seq<char>, Submission>,
    id: Seq<char>,
    status: SubmissionStatus,
    stdout: Option<String>,
    stderr: Option<String>,
    compile_output: Option<String>,
    exit_code: Option<i32>,
    time_ms: Option<u64>,
    memory_kb: Option<u64>,
)
    requires
        m.contains_key(id),
    ensures
        stored(
            m.insert(
                id,
                with_result(m[id], status, stdout, stderr, compile_output, exit_code, time_ms, memory_kb),
            ),
            id,
        ) matches Some(s) && s.status == status && s.stdout == stdout && s.stderr == stderr
            && s.compile_output == compile_output && s.exit_code == exit_code && s.time_ms
            == time_ms && s.memory_kb == memory_kb && s.id == m[id].id && s.language
            == m[id].language && s.source == m[id].source && s.stdin == m[id].stdin
            && s.created_at == m[id].created_at,
{
}

} // verus!
