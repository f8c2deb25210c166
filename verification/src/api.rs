//! The decisions behind the HTTP interface: which requests are accepted,
//! the limits a submission runs under, and the bodies of the answers.

use vstd::prelude::*;
use vstd::utf8::encode_utf8;
use crate::config::Config;
use crate::errors::AppError;
use crate::models::{CreateSubmissionRequest, CreateSubmissionResponse, RuntimeInfo, Submission,
    SubmissionResponse, SubmissionStatus, status_label};
use crate::runtime::registry::{RuntimeRegistry, lookup_runtime, catalog};
use crate::runtime::runtime::Runtime;
use crate::text::{joined3, decimal, has_prefix, starts_with_text, u64_text, same_text};

verus! {

/// The longest run time a request may ask for, in milliseconds.
pub const MAX_TIME_LIMIT_MS: u64 = 10000;

/// The most memory a request may ask for, in KB.
pub const MAX_MEMORY_LIMIT_KB: u64 = 1048576;

/// How long a waiting request allows beyond the run time, in milliseconds:
/// ten seconds for compiling and five of grace.
pub const WAIT_MARGIN_MS: u64 = 15000;

/// The shape of a hyphenated lowercase UUID: 36 characters, hyphens at
/// positions 8, 13, 18 and 23, lowercase hexadecimal digits elsewhere.
pub open spec fn is_uuid_text(s: Seq<char>) -> bool {
    &&& s.len() == 36
    &&& forall|i: int|
        0 <= i < 36 ==> (if i == 8 || i == 13 || i == 18 || i == 23 {
            s[i] == '-'
        } else {
            ('0' <= #[trigger] s[i] && s[i] <= '9') || ('a' <= s[i] && s[i] <= 'f')
        })
}

/// A hyphenated lowercase UUID of version 4 in the RFC 4122 variant: the
/// version digit (position 14) is `4` and the variant digit (position 19)
/// is one of `8`, `9`, `a`, `b`.
pub open spec fn is_v4_uuid_text(s: Seq<char>) -> bool {
    &&& is_uuid_text(s)
    &&& s[14] == '4'
    &&& (s[19] == '8' || s[19] == '9' || s[19] == 'a' || s[19] == 'b')
}

/// A fresh random submission id (`uuid::Uuid::new_v4`, rendered by its
/// `Display`, which writes the hyphenated lowercase form). `new_v4` masks
/// random bits so that the version nibble is 4 and the two top variant
/// bits are `10`; which random bits it draws is not stated.
#[verifier::external_body]
fn new_submission_id() -> (r: String)
    ensures
        is_v4_uuid_text(r@),
{
    uuid::Uuid::new_v4().to_string()
}

/// Whether a time stamp ends in the UTC offset `+00:00`.
pub open spec fn ends_in_utc_offset(s: Seq<char>) -> bool {
    s.len() >= 6 && s.subrange(s.len() - 6, s.len() as int) == "+00:00"@
}

/// The current time in RFC 3339 form (`chrono::Utc::now().to_rfc3339()`).
/// For the UTC offset, chrono's RFC 3339 writer ends the text with `+00:00`
/// (it writes `Z` only when asked to). The date and time before it depend
/// on the clock and are not stated.
#[verifier::external_body]
fn now_rfc3339() -> (r: String)
    ensures
        ends_in_utc_offset(r@),
{
    chrono::Utc::now().to_rfc3339()
}

/// Whether a `Content-Type` header announces JSON.
pub fn content_type_is_json(content_type: &str) -> (r: bool)
    ensures
        r == has_prefix(content_type@, "application/json"@),
{
    starts_with_text(content_type, "application/json")
}

/// Refuses a request whose `Content-Type` does not announce JSON.
pub fn require_json(content_type: &str) -> (r: Result<(), AppError>)
    ensures
        has_prefix(content_type@, "application/json"@) ==> r is Ok,
        !has_prefix(content_type@, "application/json"@) ==> (r matches Err(AppError::InvalidRequest(m))
            && m@ == "Expected Content-Type: application/json"@),
{
    if content_type_is_json(content_type) {
        Ok(())
    } else {
        Err(AppError::InvalidRequest("Expected Content-Type: application/json".to_string()))
    }
}

/// The error for a request body that is not a valid request, given the
/// parser's description of the problem.
pub fn body_error(detail: &str) -> (r: AppError)
    ensures
        r matches AppError::InvalidRequest(m) && m@ == "Failed to deserialize request body: "@ + detail@,
{
    AppError::InvalidRequest(crate::text::joined("Failed to deserialize request body: ", detail))
}

/// The error when a job id cannot be put on the queue, given why.
pub fn enqueue_failure(detail: &str) -> (r: AppError)
    ensures
        r matches AppError::Internal(m) && m@ == "Failed to enqueue job: "@ + detail@,
{
    AppError::Internal(crate::text::joined("Failed to enqueue job: ", detail))
}

/// The error when the queue can no longer hand out job ids.
pub fn queue_closed() -> (r: AppError)
    ensures
        r matches AppError::Internal(m) && m@ == "Queue receiver closed"@,
{
    AppError::Internal("Queue receiver closed".to_string())
}

/// Whether the `wait` query parameter asks to wait for the outcome: only
/// the exact value `true` does.
pub fn wait_requested(wait: Option<&str>) -> (r: bool)
    ensures
        r == (wait matches Some(w) && w@ == "true"@),
{
    match wait {
        Some(w) => same_text(w, "true"),
        None => false,
    }
}

/// The size of a source text in bytes.
pub open spec fn source_bytes(s: Seq<char>) -> usize {
    encode_utf8(s).len() as usize
}

/// Why a request is refused, if it is: a source larger than the configured
/// maximum, else a language with no runtime.
pub open spec fn refusal(req: CreateSubmissionRequest, config: Config) -> Option<Seq<char>> {
    if source_bytes(req.source@) > config.max_source_size {
        Some("Source code size exceeds maximum limit of "@ + decimal(config.max_source_size as nat)
            + " bytes"@)
    } else if lookup_runtime(req.language@) is None {
        Some("Unsupported language: "@ + req.language@)
    } else {
        None
    }
}

/// Checks a request against the configured source size and the supported
/// languages.
pub fn validate_request(req: &CreateSubmissionRequest, config: &Config, registry: &RuntimeRegistry) -> (r:
    Result<(), AppError>)
    ensures
        match refusal(*req, *config) {
            None => r is Ok,
            Some(m) => r matches Err(AppError::InvalidRequest(e)) && e@ == m,
        },
{
    if req.source.as_str().len() > config.max_source_size {
        let n = u64_text(config.max_source_size as u64);
        return Err(
            AppError::InvalidRequest(
                joined3("Source code size exceeds maximum limit of ", n.as_str(), " bytes"),
            ),
        );
    }
    if registry.get(req.language.as_str()).is_none() {
        return Err(
            AppError::InvalidRequest(crate::text::joined("Unsupported language: ", req.language.as_str())),
        );
    }
    Ok(())
}

/// A requested limit: a positive request capped at `cap`, else the default.
pub open spec fn limit_for(requested: Option<i64>, cap: u64, default: u64) -> u64 {
    match requested {
        Some(t) => if t > 0 {
            if t as int <= cap as int {
                t as u64
            } else {
                cap
            }
        } else {
            default
        },
        None => default,
    }
}

/// A positive request is honoured up to the cap and never exceeds it; any
/// other request gets the default.
pub proof fn law_limits_capped(requested: Option<i64>, cap: u64, default: u64)
    ensures
        (requested matches Some(t) && t > 0) ==> limit_for(requested, cap, default) <= cap,
        (requested matches Some(t) && t > 0) && cap > 0 ==> limit_for(requested, cap, default) > 0,
        (requested matches Some(t) && 0 < t <= cap) ==> limit_for(requested, cap, default)
            == requested->0,
        !(requested matches Some(t) && t > 0) ==> limit_for(requested, cap, default) == default,
        (requested matches Some(t) && t > cap) ==> limit_for(requested, cap, default) == cap,
{
}

/// A request is refused for its size exactly when its source is larger
/// than the configured maximum, else for its language exactly when no
/// runtime has that id, and accepted otherwise; each refusal says why.
pub proof fn law_refusal_cases(req: CreateSubmissionRequest, config: Config)
    ensures
        source_bytes(req.source@) > config.max_source_size ==> refusal(req, config) == Some(
            "Source code size exceeds maximum limit of "@ + decimal(config.max_source_size as nat)
                + " bytes"@,
        ),
        source_bytes(req.source@) <= config.max_source_size && lookup_runtime(req.language@) is None
            ==> refusal(req, config) == Some("Unsupported language: "@ + req.language@),
        source_bytes(req.source@) <= config.max_source_size && lookup_runtime(req.language@) is Some
            ==> refusal(req, config) is None,
{
}

/// The run time limit of a request, in milliseconds.
pub fn time_limit_for(requested: Option<i64>, default: u64) -> (r: u64)
    ensures
        r == limit_for(requested, MAX_TIME_LIMIT_MS, default),
{
    capped(requested, MAX_TIME_LIMIT_MS, default)
}

/// The memory limit of a request, in KB.
pub fn memory_limit_for(requested: Option<i64>, default: u64) -> (r: u64)
    ensures
        r == limit_for(requested, MAX_MEMORY_LIMIT_KB, default),
{
    capped(requested, MAX_MEMORY_LIMIT_KB, default)
}

fn capped(requested: Option<i64>, cap: u64, default: u64) -> (r: u64)
    ensures
        r == limit_for(requested, cap, default),
{
    match requested {
        Some(t) => if t > 0 {
            let v = t as u64;
            if v <= cap {
                v
            } else {
                cap
            }
        } else {
            default
        },
        None => default,
    }
}

/// The submission a request becomes: queued, with no outcome yet.
pub open spec fn new_submission(
    id: String,
    created_at: String,
    req: CreateSubmissionRequest,
    config: Config,
) -> Submission {
    Submission {
        id,
        language: req.language,
        source: req.source,
        stdin: req.stdin,
        time_limit_ms: limit_for(req.time_limit_ms, MAX_TIME_LIMIT_MS, config.default_time_limit_ms),
        memory_limit_kb: limit_for(
            req.memory_limit_kb,
            MAX_MEMORY_LIMIT_KB,
            config.default_memory_limit_kb,
        ),
        status: SubmissionStatus::Queued,
        stdout: None,
        stderr: None,
        compile_output: None,
        exit_code: None,
        time_ms: None,
        memory_kb: None,
        created_at,
    }
}

/// Makes the queued submission of a request, given its id and creation time.
pub fn build_submission(
    id: String,
    created_at: String,
    req: CreateSubmissionRequest,
    config: &Config,
) -> (r: Submission)
    ensures
        r == new_submission(id, created_at, req, *config),
{
    let time_limit_ms = time_limit_for(req.time_limit_ms, config.default_time_limit_ms);
    let memory_limit_kb = memory_limit_for(req.memory_limit_kb, config.default_memory_limit_kb);
    Submission {
        id,
        language: req.language,
        source: req.source,
        stdin: req.stdin,
        time_limit_ms,
        memory_limit_kb,
        status: SubmissionStatus::Queued,
        stdout: None,
        stderr: None,
        compile_output: None,
        exit_code: None,
        time_ms: None,
        memory_kb: None,
        created_at,
    }
}

/// Accepts a request: checks it, then makes its queued submission under a
/// fresh random id, stamped with the current time.
pub fn prepare_submission(
    req: CreateSubmissionRequest,
    config: &Config,
    registry: &RuntimeRegistry,
) -> (r: Result<Submission, AppError>)
    ensures
        match refusal(req, *config) {
            Some(m) => r matches Err(AppError::InvalidRequest(e)) && e@ == m,
            None => r matches Ok(s) && s == new_submission(s.id, s.created_at, req, *config)
                && is_v4_uuid_text(s.id@) && ends_in_utc_offset(s.created_at@),
        },
{
    validate_request(&req, config, registry)?;
    let id = new_submission_id();
    let created_at = now_rfc3339();
    Ok(build_submission(id, created_at, req, config))
}

/// The answer to an accepted request.
pub fn queued_response(id: &str) -> (r: CreateSubmissionResponse)
    ensures
        r.id@ == id@,
        r.status@ == status_label(SubmissionStatus::Queued),
{
    CreateSubmissionResponse { id: id.to_string(), status: SubmissionStatus::Queued.as_str().to_string() }
}

/// A submission as shown to clients.
pub open spec fn response_of(s: Submission, status: String) -> SubmissionResponse {
    SubmissionResponse {
        id: s.id,
        language: s.language,
        status,
        stdout: s.stdout,
        stderr: s.stderr,
        compile_output: s.compile_output,
        exit_code: s.exit_code,
        time_ms: s.time_ms,
        memory_kb: s.memory_kb,
    }
}

/// The answer to a status request: the submission found under `id`, or the
/// not-found error naming `id`.
pub fn submission_lookup(found: Option<Submission>, id: &str) -> (r: Result<SubmissionResponse, AppError>)
    ensures
        match found {
            Some(s) => r matches Ok(resp) && resp == response_of(s, resp.status) && resp.status@
                == status_label(s.status),
            None => r matches Err(AppError::SubmissionNotFound(m)) && m@ == id@,
        },
        found matches Some(s) ==> (r matches Ok(resp) && resp.id == s.id && resp.language == s.language
            && resp.stdout == s.stdout && resp.stderr == s.stderr && resp.compile_output
            == s.compile_output && resp.exit_code == s.exit_code && resp.time_ms == s.time_ms
            && resp.memory_kb == s.memory_kb),
{
    match found {
        Some(s) => {
            let status = s.status.as_str().to_string();
            Ok(
                SubmissionResponse {
                    id: s.id,
                    language: s.language,
                    status,
                    stdout: s.stdout,
                    stderr: s.stderr,
                    compile_output: s.compile_output,
                    exit_code: s.exit_code,
                    time_ms: s.time_ms,
                    memory_kb: s.memory_kb,
                },
            )
        },
        None => Err(AppError::SubmissionNotFound(id.to_string())),
    }
}

/// Every supported language, in ascending order of id.
pub fn runtime_infos(registry: &RuntimeRegistry) -> (r: Vec<RuntimeInfo>)
    ensures
        r@.len() == catalog().len(),
        forall|i: int|
            0 <= i < r@.len() ==> (#[trigger] r@[i]).id@ == catalog()[i].spec_id() && r@[i].name@
                == catalog()[i].spec_name() && r@[i].compiled == catalog()[i].spec_compiled(),
{
    let list = registry.list();
    let mut infos: Vec<RuntimeInfo> = Vec::new();
    let n = list.len();
    let mut i: usize = 0;
    while i < n
        invariant
            n == list@.len(),
            list@ == catalog(),
            i <= n,
            infos@.len() == i,
            forall|j: int|
                0 <= j < i ==> (#[trigger] infos@[j]).id@ == catalog()[j].spec_id() && infos@[j].name@
                    == catalog()[j].spec_name() && infos@[j].compiled == catalog()[j].spec_compiled(),
        decreases n - i,
    {
        let r = list[i];
        infos.push(RuntimeInfo { id: r.id().to_string(), name: r.name().to_string(), compiled: r.compiled() });
        i = i + 1;
    }
    infos
}

/// How long a waiting request waits for its outcome, in milliseconds.
pub fn wait_timeout_ms(time_limit_ms: u64) -> (r: u64)
    requires
        time_limit_ms + WAIT_MARGIN_MS <= u64::MAX,
    ensures
        r == time_limit_ms + WAIT_MARGIN_MS,
{
    time_limit_ms + WAIT_MARGIN_MS
}

/// The answer to a request that waited for its outcome.
#[derive(Debug)]
pub struct SynchronousExecuteResponse {
    pub stdout: String,
    pub stderr: String,
    pub compile_output: String,
    pub exit_code: i32,
    pub status: String,
    pub time_ms: u64,
    pub memory_kb: u64,
}

/// The text of an optional output, empty when absent.
pub open spec fn text_or_empty(t: Option<String>) -> Seq<char> {
    match t {
        Some(s) => s@,
        None => seq![],
    }
}

/// The answer for a waited-for submission `s`: absent outputs are empty
/// and absent figures are zero.
pub open spec fn answers(r: SynchronousExecuteResponse, s: Submission) -> bool {
    &&& r.stdout@ == text_or_empty(s.stdout)
    &&& r.stderr@ == text_or_empty(s.stderr)
    &&& r.compile_output@ == text_or_empty(s.compile_output)
    &&& r.exit_code == (match s.exit_code {
        Some(c) => c,
        None => 0,
    })
    &&& r.status@ == status_label(s.status)
    &&& r.time_ms == (match s.time_ms {
        Some(t) => t,
        None => 0,
    })
    &&& r.memory_kb == (match s.memory_kb {
        Some(m) => m,
        None => 0,
    })
}

/// The outcome of a waited-for submission.
pub fn synchronous_response(s: Submission) -> (r: SynchronousExecuteResponse)
    ensures
        answers(r, s),
        s.exit_code matches Some(c) ==> r.exit_code == c,
        s.exit_code is None ==> r.exit_code == 0,
        s.time_ms matches Some(t) ==> r.time_ms == t,
        s.time_ms is None ==> r.time_ms == 0,
        s.memory_kb matches Some(m) ==> r.memory_kb == m,
        s.memory_kb is None ==> r.memory_kb == 0,
        s.stdout matches Some(t) ==> r.stdout@ == t@,
        s.stderr matches Some(t) ==> r.stderr@ == t@,
        s.compile_output matches Some(t) ==> r.compile_output@ == t@,
        r.status@ == status_label(s.status),
{
    let status = s.status.as_str().to_string();
    SynchronousExecuteResponse {
        stdout: s.stdout.unwrap_or_default(),
        stderr: s.stderr.unwrap_or_default(),
        compile_output: s.compile_output.unwrap_or_default(),
        exit_code: s.exit_code.unwrap_or(0),
        status,
        time_ms: s.time_ms.unwrap_or(0),
        memory_kb: s.memory_kb.unwrap_or(0),
    }
}

/// How waiting for a submission ended.
pub enum WaitOutcome {
    /// The worker sent the finished submission.
    Finished(Submission),
    /// The worker went away without sending it.
    Dropped,
    /// The time allowed ran out.
    TimedOut,
}

/// The answer to a waiting request once the wait ended.
pub fn waited_response(outcome: WaitOutcome) -> (r: Result<SynchronousExecuteResponse, AppError>)
    ensures
        match outcome {
            WaitOutcome::Finished(s) => r matches Ok(resp) && answers(resp, s),
            WaitOutcome::Dropped => r matches Err(AppError::Internal(m)) && m@
                == "Worker task dropped before sending result"@,
            WaitOutcome::TimedOut => r matches Err(AppError::Internal(m)) && m@
                == "Execution timed out waiting for queue processing"@,
        },
        outcome matches WaitOutcome::Finished(s) ==> (r matches Ok(resp) && (s.exit_code matches Some(c)
            ==> resp.exit_code == c) && (s.exit_code is None ==> resp.exit_code == 0) && (
        s.time_ms matches Some(t) ==> resp.time_ms == t) && (s.memory_kb matches Some(m)
            ==> resp.memory_kb == m) && (s.stdout matches Some(t) ==> resp.stdout@ == t@) && (
        s.stderr matches Some(t) ==> resp.stderr@ == t@) && (s.compile_output matches Some(t)
            ==> resp.compile_output@ == t@)),
{
    match outcome {
        WaitOutcome::Finished(s) => Ok(synchronous_response(s)),
        WaitOutcome::Dropped => Err(AppError::Internal("Worker task dropped before sending result".to_string())),
        WaitOutcome::TimedOut => Err(
            AppError::Internal("Execution timed out waiting for queue processing".to_string()),
        ),
    }
}

/// A status answer shows every stored field of the submission unchanged,
/// whatever status text it carries.
pub proof fn law_status_answer_shows_stored_fields(s: Submission, status: String)
    ensures
        response_of(s, status).id == s.id,
        response_of(s, status).language == s.language,
        response_of(s, status).stdout == s.stdout,
        response_of(s, status).stderr == s.stderr,
        response_of(s, status).compile_output == s.compile_output,
        response_of(s, status).exit_code == s.exit_code,
        response_of(s, status).time_ms == s.time_ms,
        response_of(s, status).memory_kb == s.memory_kb,
{
}

/// A waited-for answer reports the stored exit code, run time and memory,
/// and zero only where none is stored; it shows the stored outputs, and
/// empty text only where none is stored.
pub proof fn law_waited_answer_reports_stored_results(r: SynchronousExecuteResponse, s: Submission)
    requires
        answers(r, s),
    ensures
        s.exit_code matches Some(c) ==> r.exit_code == c,
        s.exit_code is None ==> r.exit_code == 0,
        s.time_ms matches Some(t) ==> r.time_ms == t,
        s.time_ms is None ==> r.time_ms == 0,
        s.memory_kb matches Some(m) ==> r.memory_kb == m,
        s.memory_kb is None ==> r.memory_kb == 0,
        s.stdout matches Some(t) ==> r.stdout@ == t@,
        s.stdout is None ==> r.stdout@.len() == 0,
        s.stderr matches Some(t) ==> r.stderr@ == t@,
        s.stderr is None ==> r.stderr@.len() == 0,
        s.compile_output matches Some(t) ==> r.compile_output@ == t@,
        s.compile_output is None ==> r.compile_output@.len() == 0,
        r.status@ == status_label(s.status),
{
}

/// An accepted request becomes a queued submission that keeps the
/// request's language, source and input, runs under the requested limits
/// (positive requests up to the caps, else the configured defaults), and
/// has no results yet.
pub proof fn law_new_submission_keeps_request(id: String, created_at: String, req: CreateSubmissionRequest, config: Config)
    ensures
        new_submission(id, created_at, req, config).id == id,
        new_submission(id, created_at, req, config).created_at == created_at,
        new_submission(id, created_at, req, config).language == req.language,
        new_submission(id, created_at, req, config).source == req.source,
        new_submission(id, created_at, req, config).stdin == req.stdin,
        new_submission(id, created_at, req, config).status == SubmissionStatus::Queued,
        (req.time_limit_ms matches Some(t) && 0 < t <= MAX_TIME_LIMIT_MS) ==> new_submission(
            id,
            created_at,
            req,
            config,
        ).time_limit_ms == req.time_limit_ms->0,
        (req.time_limit_ms matches Some(t) && t > MAX_TIME_LIMIT_MS) ==> new_submission(
            id,
            created_at,
            req,
            config,
        ).time_limit_ms == MAX_TIME_LIMIT_MS,
        !(req.time_limit_ms matches Some(t) && t > 0) ==> new_submission(id, created_at, req, config).time_limit_ms
            == config.default_time_limit_ms,
        (req.memory_limit_kb matches Some(m) && 0 < m <= MAX_MEMORY_LIMIT_KB) ==> new_submission(
            id,
            created_at,
            req,
            config,
        ).memory_limit_kb == req.memory_limit_kb->0,
        (req.memory_limit_kb matches Some(m) && m > MAX_MEMORY_LIMIT_KB) ==> new_submission(
            id,
            created_at,
            req,
            config,
        ).memory_limit_kb == MAX_MEMORY_LIMIT_KB,
        !(req.memory_limit_kb matches Some(m) && m > 0) ==> new_submission(id, created_at, req, config).memory_limit_kb
            == config.default_memory_limit_kb,
        new_submission(id, created_at, req, config).stdout is None,
        new_submission(id, created_at, req, config).stderr is None,
        new_submission(id, created_at, req, config).compile_output is None,
        new_submission(id, created_at, req, config).exit_code is None,
        new_submission(id, created_at, req, config).time_ms is None,
        new_submission(id, created_at, req, config).memory_kb is None,
{
}

} // verus!
