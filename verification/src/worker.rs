//! The worker's decisions for one job, as a state machine: given where the
//! job stands and what the last step reported, the next state and the next
//! thing to do. The caller performs each action and reports back.

use vstd::prelude::*;
use crate::compiler::CompileResult;
use crate::errors::{AppError, error_text};
use crate::executor::ExecuteResult;
use crate::models::{Submission, SubmissionStatus, is_final};
use crate::runtime::registry::{LanguageRuntime, RuntimeRegistry, lookup_runtime};
use crate::runtime::runtime::{Runtime, argv_texts};
use crate::text::{joined, same_text};

verus! {

/// The name of the source file of a job.
pub open spec fn source_file_for(language: Seq<char>, rt: LanguageRuntime) -> Seq<char> {
    if language == "java"@ {
        "Main.java"@
    } else {
        "source."@ + rt.spec_extension()
    }
}

/// The name of the file a job runs: nothing for Java (the class is named on
/// the command line), `program` for other compiled languages, else the
/// source file.
pub open spec fn exec_file_for(language: Seq<char>, rt: LanguageRuntime) -> Seq<char> {
    if language == "java"@ {
        ""@
    } else if rt.spec_compiled() {
        "program"@
    } else {
        source_file_for(language, rt)
    }
}

/// The host directories a job's language needs inside the sandbox.
pub open spec fn extra_dirs_for(language: Seq<char>) -> Seq<Seq<char>> {
    if language == "rust"@ {
        seq!["/usr/local/cargo=/usr/local/cargo"@, "/usr/local/rustup=/usr/local/rustup"@]
    } else if language == "java"@ {
        seq!["/usr/lib/jvm=/usr/lib/jvm"@, "/etc/java-17-openjdk=/etc/java-17-openjdk"@]
    } else {
        seq![]
    }
}

/// The host directories a compile step needs: those of the language and
/// `/etc/alternatives`.
pub open spec fn compile_dirs_for(language: Seq<char>) -> Seq<Seq<char>> {
    extra_dirs_for(language).push("/etc/alternatives=/etc/alternatives"@)
}

/// A job being worked on: its id, its submission, its runtime, and the
/// files and directories it uses.
pub struct JobPlan {
    pub id: String,
    pub submission: Submission,
    pub runtime: LanguageRuntime,
    pub source_file_name: String,
    pub exec_file_name: String,
    pub extra_dirs: Vec<String>,
    pub compile_extra_dirs: Vec<String>,
}

impl JobPlan {
    /// The files and directories agree with the language and runtime.
    pub open spec fn wf(self) -> bool {
        let lang = self.submission.language@;
        &&& self.source_file_name@ == source_file_for(lang, self.runtime)
        &&& self.exec_file_name@ == exec_file_for(lang, self.runtime)
        &&& argv_texts(self.extra_dirs@) == extra_dirs_for(lang)
        &&& argv_texts(self.compile_extra_dirs@) == compile_dirs_for(lang)
    }
}

/// What a job came to, as recorded in the store.
pub struct Outcome {
    pub status: SubmissionStatus,
    pub stdout: Option<String>,
    pub stderr: Option<String>,
    pub compile_output: Option<String>,
    pub exit_code: Option<i32>,
    pub time_ms: Option<u64>,
    pub memory_kb: Option<u64>,
}

/// An internal error with `message` as its error output.
pub open spec fn is_failure(o: Outcome, message: Seq<char>, compile_output: Option<String>) -> bool {
    &&& o.status == SubmissionStatus::InternalError
    &&& o.stdout is None
    &&& o.stderr matches Some(e) && e@ == message
    &&& o.compile_output == compile_output
    &&& o.exit_code is None
    &&& o.time_ms is None
    &&& o.memory_kb is None
}

/// Where a job stands.
pub enum WorkerState {
    /// Waiting for the next job id from the queue.
    AwaitingJob,
    /// Reading the submission from the store.
    Loading { id: String },
    /// Recording that the job started (compiling or running).
    MarkingStarted { plan: JobPlan },
    /// Waiting for a sandbox.
    AcquiringSandbox { plan: JobPlan },
    /// Compiling in the sandbox.
    Compiling { plan: JobPlan },
    /// Writing the source of an interpreted program into the sandbox.
    WritingSource { plan: JobPlan },
    /// Recording that the program is running.
    MarkingRunning { plan: JobPlan, compile_output: Option<String> },
    /// Running the program.
    Executing { plan: JobPlan, compile_output: Option<String> },
    /// Recording what the job came to.
    StoringOutcome { id: String },
    /// Handing the finished submission to a waiting request.
    Notifying { id: String },
    /// Done with the job.
    Finished,
}

impl WorkerState {
    /// Every plan held agrees with its language.
    pub open spec fn wf(self) -> bool {
        match self {
            WorkerState::MarkingStarted { plan } => plan.wf(),
            WorkerState::AcquiringSandbox { plan } => plan.wf(),
            WorkerState::Compiling { plan } => plan.wf(),
            WorkerState::WritingSource { plan } => plan.wf(),
            WorkerState::MarkingRunning { plan, .. } => plan.wf(),
            WorkerState::Executing { plan, .. } => plan.wf(),
            _ => true,
        }
    }
}

/// What the last action reported.
pub enum WorkerEvent {
    Dequeued(Result<String, AppError>),
    Loaded(Result<Option<Submission>, AppError>),
    StatusStored(Result<(), AppError>),
    SandboxReady(Result<(), AppError>),
    Compiled(Result<CompileResult, AppError>),
    SourceWritten(Result<(), String>),
    Executed(Result<ExecuteResult, AppError>),
    OutcomeStored(Result<(), AppError>),
    WaiterNotified,
}

/// The next thing to do.
pub enum WorkerAction {
    /// Take the next job id from the queue.
    Dequeue,
    /// Read the submission kept under `id`.
    Load { id: String },
    /// Change the stored status of `id`.
    SetStatus { id: String, status: SubmissionStatus },
    /// Take a sandbox from the pool.
    AcquireSandbox,
    /// Write `source` to `source_file` in the sandbox and run `command`.
    Compile { source: String, source_file: String, command: Vec<String>, extra_dirs: Vec<String> },
    /// Write `source` to `source_file` in the sandbox.
    WriteSource { source_file: String, source: String },
    /// Run `command` in the sandbox with `stdin` as input and the limits.
    Execute {
        exec_file: String,
        stdin: String,
        time_limit_ms: u64,
        memory_limit_kb: u64,
        command: Vec<String>,
        extra_dirs: Vec<String>,
        language: String,
    },
    /// Record what `id` came to.
    StoreOutcome { id: String, outcome: Outcome },
    /// Hand the stored submission `id` to a waiting request, if any.
    NotifyWaiter { id: String },
    /// Stop working on the job (giving its sandbox back), with the error
    /// that stopped it, if any.
    Finish(Result<(), AppError>),
}

/// Which reports a state waits for.
pub open spec fn accepts(s: WorkerState, e: WorkerEvent) -> bool {
    match s {
        WorkerState::AwaitingJob => e is Dequeued,
        WorkerState::Loading { .. } => e is Loaded,
        WorkerState::MarkingStarted { .. } => e is StatusStored,
        WorkerState::AcquiringSandbox { .. } => e is SandboxReady,
        WorkerState::Compiling { .. } => e is Compiled,
        WorkerState::WritingSource { .. } => e is SourceWritten,
        WorkerState::MarkingRunning { .. } => e is StatusStored,
        WorkerState::Executing { .. } => e is Executed,
        WorkerState::StoringOutcome { .. } => e is OutcomeStored,
        WorkerState::Notifying { .. } => e is WaiterNotified,
        WorkerState::Finished => false,
    }
}

/// Recording the outcome `o` of job `id`, after which the waiter is told.
pub open spec fn stores(n: WorkerState, a: WorkerAction, id: String, o: Outcome) -> bool {
    &&& n == WorkerState::StoringOutcome { id }
    &&& a == WorkerAction::StoreOutcome { id, outcome: o }
}

/// Recording the failure of job `id`.
pub open spec fn stores_failure(
    n: WorkerState,
    a: WorkerAction,
    id: String,
    message: Seq<char>,
    compile_output: Option<String>,
) -> bool {
    &&& n == WorkerState::StoringOutcome { id }
    &&& a matches WorkerAction::StoreOutcome { id: i, outcome } && i == id && is_failure(
        outcome,
        message,
        compile_output,
    )
}

/// Stopping with `result`.
pub open spec fn finishes(n: WorkerState, a: WorkerAction, result: Result<(), AppError>) -> bool {
    n == WorkerState::Finished && a == WorkerAction::Finish(result)
}

/// The plan a loaded submission gets: its files and directories follow its
/// language and runtime.
pub open spec fn plans(p: JobPlan, id: String, sub: Submission, rt: LanguageRuntime) -> bool {
    &&& p.id == id
    &&& p.submission == sub
    &&& p.runtime == rt
    &&& p.wf()
}

/// The status recorded when a job starts: compiling for compiled languages,
/// else running.
pub open spec fn start_status(rt: LanguageRuntime) -> SubmissionStatus {
    if rt.spec_compiled() {
        SubmissionStatus::Compiling
    } else {
        SubmissionStatus::Running
    }
}

/// The run the plan asks for once its program is ready.
pub open spec fn runs(a: WorkerAction, p: JobPlan) -> bool {
    a matches WorkerAction::Execute {
        exec_file,
        stdin,
        time_limit_ms,
        memory_limit_kb,
        command,
        extra_dirs,
        language,
    } && exec_file == p.exec_file_name && stdin@ == (match p.submission.stdin {
        Some(t) => t@,
        None => ""@,
    }) && time_limit_ms == p.submission.time_limit_ms && memory_limit_kb
        == p.submission.memory_limit_kb && argv_texts(command@) == p.runtime.spec_execute_argv(
        p.exec_file_name@,
    ) && extra_dirs@ == p.extra_dirs@ && language == p.submission.language
}

/// What the worker does once a sandbox is ready for plan `p`.
pub open spec fn after_sandbox(n: WorkerState, a: WorkerAction, p: JobPlan) -> bool {
    if p.runtime.spec_compiled() {
        match p.runtime.spec_compile_argv(p.source_file_name@, p.exec_file_name@) {
            None => stores_failure(n, a, p.id, "Compile command not generated"@, None),
            Some(argv) => {
                &&& n == WorkerState::Compiling { plan: p }
                &&& a matches WorkerAction::Compile { source, source_file, command, extra_dirs }
                    && source == p.submission.source && source_file == p.source_file_name
                    && argv_texts(command@) == argv && extra_dirs@ == p.compile_extra_dirs@
            },
        }
    } else {
        &&& n == WorkerState::WritingSource { plan: p }
        &&& a == WorkerAction::WriteSource {
            source_file: p.source_file_name,
            source: p.submission.source,
        }
    }
}

/// One step of the worker: from state `s` and report `e`, the next state
/// `n` and action `a`.
pub open spec fn step_spec(s: WorkerState, e: WorkerEvent, n: WorkerState, a: WorkerAction) -> bool {
    match s {
        WorkerState::AwaitingJob => match e {
            WorkerEvent::Dequeued(Ok(id)) => n == WorkerState::Loading { id } && a
                == WorkerAction::Load { id },
            WorkerEvent::Dequeued(Err(err)) => finishes(n, a, Err(err)),
            _ => false,
        },
        WorkerState::Loading { id } => match e {
            WorkerEvent::Loaded(Err(err)) => finishes(n, a, Err(err)),
            WorkerEvent::Loaded(Ok(None)) => finishes(n, a, Ok(())),
            WorkerEvent::Loaded(Ok(Some(sub))) => match lookup_runtime(sub.language@) {
                None => stores_failure(n, a, id, "Unsupported language: "@ + sub.language@, None),
                Some(rt) => n matches WorkerState::MarkingStarted { plan } && plans(
                    plan,
                    id,
                    sub,
                    rt,
                ) && a == WorkerAction::SetStatus { id, status: start_status(rt) },
            },
            _ => false,
        },
        WorkerState::MarkingStarted { plan } => match e {
            WorkerEvent::StatusStored(Err(err)) => finishes(n, a, Err(err)),
            WorkerEvent::StatusStored(Ok(())) => n == WorkerState::AcquiringSandbox { plan } && a
                == WorkerAction::AcquireSandbox,
            _ => false,
        },
        WorkerState::AcquiringSandbox { plan } => match e {
            WorkerEvent::SandboxReady(Err(err)) => stores_failure(
                n,
                a,
                plan.id,
                "Failed to acquire sandbox: "@ + error_text(err),
                None,
            ),
            WorkerEvent::SandboxReady(Ok(())) => after_sandbox(n, a, plan),
            _ => false,
        },
        WorkerState::Compiling { plan } => match e {
            WorkerEvent::Compiled(Err(err)) => stores_failure(
                n,
                a,
                plan.id,
                "Compilation failed: "@ + error_text(err),
                None,
            ),
            WorkerEvent::Compiled(Ok(res)) => if res.success {
                n == WorkerState::MarkingRunning { plan, compile_output: Some(res.compile_output) }
                    && a == WorkerAction::SetStatus {
                    id: plan.id,
                    status: SubmissionStatus::Running,
                }
            } else {
                stores(
                    n,
                    a,
                    plan.id,
                    Outcome {
                        status: SubmissionStatus::CompileError,
                        stdout: None,
                        stderr: None,
                        compile_output: Some(res.compile_output),
                        exit_code: None,
                        time_ms: None,
                        memory_kb: None,
                    },
                )
            },
            _ => false,
        },
        WorkerState::WritingSource { plan } => match e {
            WorkerEvent::SourceWritten(Err(m)) => stores_failure(
                n,
                a,
                plan.id,
                "Failed to write source file to sandbox: "@ + m@,
                None,
            ),
            WorkerEvent::SourceWritten(Ok(())) => n == WorkerState::MarkingRunning {
                plan,
                compile_output: None,
            } && a == WorkerAction::SetStatus { id: plan.id, status: SubmissionStatus::Running },
            _ => false,
        },
        WorkerState::MarkingRunning { plan, compile_output } => match e {
            WorkerEvent::StatusStored(Err(err)) => finishes(n, a, Err(err)),
            WorkerEvent::StatusStored(Ok(())) => n == WorkerState::Executing { plan, compile_output }
                && runs(a, plan),
            _ => false,
        },
        WorkerState::Executing { plan, compile_output } => match e {
            WorkerEvent::Executed(Err(err)) => stores_failure(
                n,
                a,
                plan.id,
                "Execution failed: "@ + error_text(err),
                compile_output,
            ),
            WorkerEvent::Executed(Ok(res)) => stores(
                n,
                a,
                plan.id,
                Outcome {
                    status: res.status,
                    stdout: Some(res.stdout),
                    stderr: Some(res.stderr),
                    compile_output,
                    exit_code: Some(res.exit_code),
                    time_ms: Some(res.time_ms),
                    memory_kb: Some(res.memory_kb),
                },
            ),
            _ => false,
        },
        WorkerState::StoringOutcome { id } => match e {
            WorkerEvent::OutcomeStored(Err(err)) => finishes(n, a, Err(err)),
            WorkerEvent::OutcomeStored(Ok(())) => n == WorkerState::Notifying { id } && a
                == WorkerAction::NotifyWaiter { id },
            _ => false,
        },
        WorkerState::Notifying { .. } => match e {
            WorkerEvent::WaiterNotified => finishes(n, a, Ok(())),
            _ => false,
        },
        WorkerState::Finished => false,
    }
}

/// A copy of a list of texts.
fn copy_texts(v: &Vec<String>) -> (r: Vec<String>)
    ensures
        r@ == v@,
{
    let mut r: Vec<String> = Vec::new();
    let mut i: usize = 0;
    while i < v.len()
        invariant
            i <= v@.len(),
            r@ == v@.subrange(0, i as int),
        decreases v@.len() - i,
    {
        r.push(v[i].clone());
        assert(r@ =~= v@.subrange(0, i + 1));
        i = i + 1;
    }
    assert(v@.subrange(0, v@.len() as int) =~= v@);
    r
}

/// The plan of a loaded submission.
fn make_plan(id: String, submission: Submission, runtime: LanguageRuntime) -> (p: JobPlan)
    ensures
        plans(p, id, submission, runtime),
{
    let is_java = same_text(submission.language.as_str(), "java");
    let is_rust = same_text(submission.language.as_str(), "rust");
    let source_file_name = if is_java {
        "Main.java".to_string()
    } else {
        joined("source.", runtime.extension())
    };
    let exec_file_name = if is_java {
        "".to_string()
    } else if runtime.compiled() {
        "program".to_string()
    } else {
        source_file_name.clone()
    };
    let mut extra_dirs: Vec<String> = Vec::new();
    if is_rust {
        extra_dirs.push("/usr/local/cargo=/usr/local/cargo".to_string());
        extra_dirs.push("/usr/local/rustup=/usr/local/rustup".to_string());
    } else if is_java {
        extra_dirs.push("/usr/lib/jvm=/usr/lib/jvm".to_string());
        extra_dirs.push("/etc/java-17-openjdk=/etc/java-17-openjdk".to_string());
    }
    let ghost lang = submission.language@;
    assert(argv_texts(extra_dirs@) =~= extra_dirs_for(lang));
    let mut compile_extra_dirs = copy_texts(&extra_dirs);
    compile_extra_dirs.push("/etc/alternatives=/etc/alternatives".to_string());
    assert(argv_texts(compile_extra_dirs@) =~= compile_dirs_for(lang));
    JobPlan {
        id,
        submission,
        runtime,
        source_file_name,
        exec_file_name,
        extra_dirs,
        compile_extra_dirs,
    }
}

/// An internal error with `message` as its error output.
fn failure(message: String, compile_output: Option<String>) -> (o: Outcome)
    ensures
        is_failure(o, message@, compile_output),
{
    Outcome {
        status: SubmissionStatus::InternalError,
        stdout: None,
        stderr: Some(message),
        compile_output,
        exit_code: None,
        time_ms: None,
        memory_kb: None,
    }
}

impl WorkerState {
    /// Whether this state waits for the report `e`.
    pub fn accepts_event(&self, e: &WorkerEvent) -> (r: bool)
        ensures
            r == accepts(*self, *e),
    {
        match self {
            WorkerState::AwaitingJob => matches!(e, WorkerEvent::Dequeued(_)),
            WorkerState::Loading { .. } => matches!(e, WorkerEvent::Loaded(_)),
            WorkerState::MarkingStarted { .. } => matches!(e, WorkerEvent::StatusStored(_)),
            WorkerState::AcquiringSandbox { .. } => matches!(e, WorkerEvent::SandboxReady(_)),
            WorkerState::Compiling { .. } => matches!(e, WorkerEvent::Compiled(_)),
            WorkerState::WritingSource { .. } => matches!(e, WorkerEvent::SourceWritten(_)),
            WorkerState::MarkingRunning { .. } => matches!(e, WorkerEvent::StatusStored(_)),
            WorkerState::Executing { .. } => matches!(e, WorkerEvent::Executed(_)),
            WorkerState::StoringOutcome { .. } => matches!(e, WorkerEvent::OutcomeStored(_)),
            WorkerState::Notifying { .. } => matches!(e, WorkerEvent::WaiterNotified),
            WorkerState::Finished => false,
        }
    }
}

/// Where a worker starts: waiting for a job, asking the queue for one.
pub fn start() -> (r: (WorkerState, WorkerAction))
    ensures
        r.0 == WorkerState::AwaitingJob,
        r.1 == WorkerAction::Dequeue,
{
    (WorkerState::AwaitingJob, WorkerAction::Dequeue)
}

/// The run a plan asks for once its program is ready.
fn run_action(plan: &JobPlan) -> (a: WorkerAction)
    ensures
        runs(a, *plan),
{
    let stdin = match &plan.submission.stdin {
        Some(t) => t.clone(),
        None => "".to_string(),
    };
    WorkerAction::Execute {
        exec_file: plan.exec_file_name.clone(),
        stdin,
        time_limit_ms: plan.submission.time_limit_ms,
        memory_limit_kb: plan.submission.memory_limit_kb,
        command: plan.runtime.execute_command(plan.exec_file_name.as_str()),
        extra_dirs: copy_texts(&plan.extra_dirs),
        language: plan.submission.language.clone(),
    }
}

/// What the worker does once a sandbox is ready.
fn sandbox_ready(plan: JobPlan) -> (r: (WorkerState, WorkerAction))
    ensures
        after_sandbox(r.0, r.1, plan),
{
    if plan.runtime.compiled() {
        match plan.runtime.compile_command(plan.source_file_name.as_str(), plan.exec_file_name.as_str()) {
            None => {
                let id = plan.id;
                (
                    WorkerState::StoringOutcome { id: id.clone() },
                    WorkerAction::StoreOutcome {
                        id,
                        outcome: failure("Compile command not generated".to_string(), None),
                    },
                )
            },
            Some(command) => {
                let action = WorkerAction::Compile {
                    source: plan.submission.source.clone(),
                    source_file: plan.source_file_name.clone(),
                    command,
                    extra_dirs: copy_texts(&plan.compile_extra_dirs),
                };
                (WorkerState::Compiling { plan }, action)
            },
        }
    } else {
        let action = WorkerAction::WriteSource {
            source_file: plan.source_file_name.clone(),
            source: plan.submission.source.clone(),
        };
        (WorkerState::WritingSource { plan }, action)
    }
}

/// Records the failure of job `id`.
fn fail(id: String, message: String, compile_output: Option<String>) -> (r: (WorkerState, WorkerAction))
    ensures
        stores_failure(r.0, r.1, id, message@, compile_output),
{
    (
        WorkerState::StoringOutcome { id: id.clone() },
        WorkerAction::StoreOutcome { id, outcome: failure(message, compile_output) },
    )
}

/// One step of the worker: the next state and action after report `event`.
pub fn step(state: WorkerState, event: WorkerEvent, registry: &RuntimeRegistry) -> (r: (
    WorkerState,
    WorkerAction,
))
    requires
        state.wf(),
        accepts(state, event),
    ensures
        r.0.wf(),
        step_spec(state, event, r.0, r.1),
        state matches WorkerState::Executing { plan, compile_output } ==> (event matches WorkerEvent::Executed(
            Ok(res),
        ) ==> (r.1 matches WorkerAction::StoreOutcome { id, outcome } && id == plan.id && outcome.status
            == res.status && outcome.stdout == Some(res.stdout) && outcome.stderr == Some(res.stderr)
            && outcome.compile_output == compile_output && outcome.exit_code == Some(res.exit_code)
            && outcome.time_ms == Some(res.time_ms) && outcome.memory_kb == Some(res.memory_kb))),
        r.1 matches WorkerAction::Compile { source, source_file, .. } ==> (state matches WorkerState::AcquiringSandbox {
            plan,
        } && source == plan.submission.source && source_file == plan.source_file_name),
        r.1 matches WorkerAction::WriteSource { source_file, source } ==> (state matches WorkerState::AcquiringSandbox {
            plan,
        } && source == plan.submission.source && source_file == plan.source_file_name),
{
    match state {
        WorkerState::AwaitingJob => match event {
            WorkerEvent::Dequeued(Ok(id)) => (
                WorkerState::Loading { id: id.clone() },
                WorkerAction::Load { id },
            ),
            WorkerEvent::Dequeued(Err(err)) => (WorkerState::Finished, WorkerAction::Finish(Err(err))),
            _ => (WorkerState::Finished, WorkerAction::Finish(Ok(()))),
        },
        WorkerState::Loading { id } => match event {
            WorkerEvent::Loaded(Err(err)) => (WorkerState::Finished, WorkerAction::Finish(Err(err))),
            WorkerEvent::Loaded(Ok(None)) => (WorkerState::Finished, WorkerAction::Finish(Ok(()))),
            WorkerEvent::Loaded(Ok(Some(sub))) => match registry.get(sub.language.as_str()) {
                None => {
                    let message = joined("Unsupported language: ", sub.language.as_str());
                    fail(id, message, None)
                },
                Some(rt) => {
                    let status = if rt.compiled() {
                        SubmissionStatus::Compiling
                    } else {
                        SubmissionStatus::Running
                    };
                    let plan = make_plan(id.clone(), sub, rt);
                    (WorkerState::MarkingStarted { plan }, WorkerAction::SetStatus { id, status })
                },
            },
            _ => (WorkerState::Finished, WorkerAction::Finish(Ok(()))),
        },
        WorkerState::MarkingStarted { plan } => match event {
            WorkerEvent::StatusStored(Err(err)) => (
                WorkerState::Finished,
                WorkerAction::Finish(Err(err)),
            ),
            WorkerEvent::StatusStored(Ok(())) => (
                WorkerState::AcquiringSandbox { plan },
                WorkerAction::AcquireSandbox,
            ),
            _ => (WorkerState::Finished, WorkerAction::Finish(Ok(()))),
        },
        WorkerState::AcquiringSandbox { plan } => match event {
            WorkerEvent::SandboxReady(Err(err)) => {
                let text = err.describe();
                fail(plan.id, joined("Failed to acquire sandbox: ", text.as_str()), None)
            },
            WorkerEvent::SandboxReady(Ok(())) => sandbox_ready(plan),
            _ => (WorkerState::Finished, WorkerAction::Finish(Ok(()))),
        },
        WorkerState::Compiling { plan } => match event {
            WorkerEvent::Compiled(Err(err)) => {
                let text = err.describe();
                fail(plan.id, joined("Compilation failed: ", text.as_str()), None)
            },
            WorkerEvent::Compiled(Ok(res)) => {
                if res.success {
                    let action = WorkerAction::SetStatus {
                        id: plan.id.clone(),
                        status: SubmissionStatus::Running,
                    };
                    (
                        WorkerState::MarkingRunning { plan, compile_output: Some(res.compile_output) },
                        action,
                    )
                } else {
                    let id = plan.id;
                    (
                        WorkerState::StoringOutcome { id: id.clone() },
                        WorkerAction::StoreOutcome {
                            id,
                            outcome: Outcome {
                                status: SubmissionStatus::CompileError,
                                stdout: None,
                                stderr: None,
                                compile_output: Some(res.compile_output),
                                exit_code: None,
                                time_ms: None,
                                memory_kb: None,
                            },
                        },
                    )
                }
            },
            _ => (WorkerState::Finished, WorkerAction::Finish(Ok(()))),
        },
        WorkerState::WritingSource { plan } => match event {
            WorkerEvent::SourceWritten(Err(m)) => {
                fail(plan.id, joined("Failed to write source file to sandbox: ", m.as_str()), None)
            },
            WorkerEvent::SourceWritten(Ok(())) => {
                let action = WorkerAction::SetStatus {
                    id: plan.id.clone(),
                    status: SubmissionStatus::Running,
                };
                (WorkerState::MarkingRunning { plan, compile_output: None }, action)
            },
            _ => (WorkerState::Finished, WorkerAction::Finish(Ok(()))),
        },
        WorkerState::MarkingRunning { plan, compile_output } => match event {
            WorkerEvent::StatusStored(Err(err)) => (
                WorkerState::Finished,
                WorkerAction::Finish(Err(err)),
            ),
            WorkerEvent::StatusStored(Ok(())) => {
                let action = run_action(&plan);
                (WorkerState::Executing { plan, compile_output }, action)
            },
            _ => (WorkerState::Finished, WorkerAction::Finish(Ok(()))),
        },
        WorkerState::Executing { plan, compile_output } => match event {
            WorkerEvent::Executed(Err(err)) => {
                let text = err.describe();
                fail(plan.id, joined("Execution failed: ", text.as_str()), compile_output)
            },
            WorkerEvent::Executed(Ok(res)) => {
                let id = plan.id;
                (
                    WorkerState::StoringOutcome { id: id.clone() },
                    WorkerAction::StoreOutcome {
                        id,
                        outcome: Outcome {
                            status: res.status,
                            stdout: Some(res.stdout),
                            stderr: Some(res.stderr),
                            compile_output,
                            exit_code: Some(res.exit_code),
                            time_ms: Some(res.time_ms),
                            memory_kb: Some(res.memory_kb),
                        },
                    },
                )
            },
            _ => (WorkerState::Finished, WorkerAction::Finish(Ok(()))),
        },
        WorkerState::StoringOutcome { id } => match event {
            WorkerEvent::OutcomeStored(Err(err)) => (
                WorkerState::Finished,
                WorkerAction::Finish(Err(err)),
            ),
            WorkerEvent::OutcomeStored(Ok(())) => (
                WorkerState::Notifying { id: id.clone() },
                WorkerAction::NotifyWaiter { id },
            ),
            _ => (WorkerState::Finished, WorkerAction::Finish(Ok(()))),
        },
        WorkerState::Notifying { .. } => (WorkerState::Finished, WorkerAction::Finish(Ok(()))),
        WorkerState::Finished => (WorkerState::Finished, WorkerAction::Finish(Ok(()))),
    }
}

/// Whenever the worker records an outcome, the next step after a successful
/// write tells the waiter of that same submission.
pub proof fn law_outcome_then_notify(
    s: WorkerState,
    e: WorkerEvent,
    n: WorkerState,
    a: WorkerAction,
    n2: WorkerState,
    a2: WorkerAction,
)
    requires
        step_spec(s, e, n, a),
        a is StoreOutcome,
        step_spec(n, WorkerEvent::OutcomeStored(Ok(())), n2, a2),
    ensures
        (a2 == (WorkerAction::NotifyWaiter { id: a->StoreOutcome_id })),
{
}

/// Every outcome the worker records is final, provided the runs it is told
/// of ended with a final status.
pub proof fn law_recorded_outcomes_are_final(
    s: WorkerState,
    e: WorkerEvent,
    n: WorkerState,
    a: WorkerAction,
)
    requires
        step_spec(s, e, n, a),
        (e matches WorkerEvent::Executed(Ok(res)) ==> is_final(res.status)),
        a is StoreOutcome,
    ensures
        is_final(a->StoreOutcome_outcome.status),
{
}

/// A failed compile is recorded as a compile error with the compiler's
/// report, and the program is never run.
pub proof fn law_failed_compile_stops(
    plan: JobPlan,
    res: CompileResult,
    n: WorkerState,
    a: WorkerAction,
)
    requires
        !res.success,
        step_spec((WorkerState::Compiling { plan }), WorkerEvent::Compiled(Ok(res)), n, a),
    ensures
        (n == (WorkerState::StoringOutcome { id: plan.id })),
        (a matches WorkerAction::StoreOutcome { outcome, .. } && outcome.status
            == SubmissionStatus::CompileError && outcome.compile_output == Some(res.compile_output)),
{
}

/// The worker only ever marks a job compiling or running, and marks it
/// compiling only when its language is compiled.
pub proof fn law_status_marks(s: WorkerState, e: WorkerEvent, n: WorkerState, a: WorkerAction)
    requires
        step_spec(s, e, n, a),
        a is SetStatus,
    ensures
        a->SetStatus_status == SubmissionStatus::Compiling || a->SetStatus_status
            == SubmissionStatus::Running,
        (a->SetStatus_status == SubmissionStatus::Compiling ==> (n matches WorkerState::MarkingStarted {
            plan,
        } && plan.runtime.spec_compiled())),
{
}

/// A job whose language has no runtime is recorded as an internal error
/// naming the language, without taking a sandbox.
pub proof fn law_unsupported_language(id: String, sub: Submission, n: WorkerState, a: WorkerAction)
    requires
        lookup_runtime(sub.language@) is None,
        step_spec((WorkerState::Loading { id }), WorkerEvent::Loaded(Ok(Some(sub))), n, a),
    ensures
        stores_failure(n, a, id, "Unsupported language: "@ + sub.language@, None),
{
}

/// How far along its job a state is; every step moves strictly forward.
pub open spec fn progress(s: WorkerState) -> int {
    match s {
        WorkerState::AwaitingJob => 0,
        WorkerState::Loading { .. } => 1,
        WorkerState::MarkingStarted { .. } => 2,
        WorkerState::AcquiringSandbox { .. } => 3,
        WorkerState::Compiling { .. } => 4,
        WorkerState::WritingSource { .. } => 4,
        WorkerState::MarkingRunning { .. } => 5,
        WorkerState::Executing { .. } => 6,
        WorkerState::StoringOutcome { .. } => 7,
        WorkerState::Notifying { .. } => 8,
        WorkerState::Finished => 9,
    }
}

/// The job a state is about, once one has been taken from the queue.
pub open spec fn state_job(s: WorkerState) -> Option<String> {
    match s {
        WorkerState::Loading { id } => Some(id),
        WorkerState::MarkingStarted { plan } => Some(plan.id),
        WorkerState::AcquiringSandbox { plan } => Some(plan.id),
        WorkerState::Compiling { plan } => Some(plan.id),
        WorkerState::WritingSource { plan } => Some(plan.id),
        WorkerState::MarkingRunning { plan, .. } => Some(plan.id),
        WorkerState::Executing { plan, .. } => Some(plan.id),
        WorkerState::StoringOutcome { id } => Some(id),
        WorkerState::Notifying { id } => Some(id),
        _ => None,
    }
}

/// The job an action reads or writes in the store, if it names one.
pub open spec fn action_job(a: WorkerAction) -> Option<String> {
    match a {
        WorkerAction::Load { id } => Some(id),
        WorkerAction::SetStatus { id, .. } => Some(id),
        WorkerAction::StoreOutcome { id, .. } => Some(id),
        WorkerAction::NotifyWaiter { id } => Some(id),
        _ => None,
    }
}

/// Reports after which the worker stops without recording an outcome: the
/// queue or the store failed, or the submission is gone.
pub open spec fn stops_early(e: WorkerEvent) -> bool {
    ||| e matches WorkerEvent::Dequeued(Err(_))
    ||| e matches WorkerEvent::Loaded(Err(_))
    ||| e matches WorkerEvent::Loaded(Ok(None))
    ||| e matches WorkerEvent::StatusStored(Err(_))
    ||| e matches WorkerEvent::OutcomeStored(Err(_))
}

/// Step `i` of a run: from state `i` and report `i`, state `i + 1` and the
/// action that goes with it.
pub open spec fn follows(
    sts: Seq<WorkerState>,
    evs: Seq<WorkerEvent>,
    acts: Seq<WorkerAction>,
    i: int,
) -> bool {
    step_spec(sts[i], evs[i], sts[i + 1], acts[i + 1])
}

/// A run of the worker on one job: the states it passes through, the
/// reports it is given, and the action issued on entering each state (the
/// first is the start's `Dequeue`).
pub open spec fn is_run(sts: Seq<WorkerState>, evs: Seq<WorkerEvent>, acts: Seq<WorkerAction>) -> bool {
    &&& sts.len() == evs.len() + 1
    &&& acts.len() == sts.len()
    &&& sts[0] == WorkerState::AwaitingJob
    &&& acts[0] == WorkerAction::Dequeue
    &&& forall|i: int| 0 <= i < evs.len() ==> #[trigger] follows(sts, evs, acts, i)
}

/// What one step tells about where it came from and what it issued.
proof fn lemma_step(s: WorkerState, e: WorkerEvent, n: WorkerState, a: WorkerAction)
    requires
        step_spec(s, e, n, a),
    ensures
        progress(s) < progress(n),
        (a is StoreOutcome) == (n is StoringOutcome),
        (a is Finish) == (n is Finished),
        n is Finished ==> stops_early(e) || (s is Notifying && a == WorkerAction::Finish(Ok(()))),
        n matches WorkerState::Notifying { id } ==> (s == (WorkerState::StoringOutcome { id })) && a
            == (WorkerAction::NotifyWaiter { id }),
        n matches WorkerState::StoringOutcome { id } ==> (a matches WorkerAction::StoreOutcome { id: i, .. }
            && i == id),
        n matches WorkerState::MarkingStarted { plan } ==> a == (WorkerAction::SetStatus {
            id: plan.id,
            status: start_status(plan.runtime),
        }),
        n matches WorkerState::AcquiringSandbox { plan } ==> (s == (WorkerState::MarkingStarted { plan }))
            && a is AcquireSandbox,
        n matches WorkerState::Compiling { plan } ==> (s == (WorkerState::AcquiringSandbox { plan }))
            && a is Compile,
        n matches WorkerState::WritingSource { plan } ==> (s == (WorkerState::AcquiringSandbox { plan }))
            && a is WriteSource,
        n matches WorkerState::MarkingRunning { plan, .. } ==> ((s == (WorkerState::Compiling { plan }))
            || (s == (WorkerState::WritingSource { plan }))) && a == (WorkerAction::SetStatus {
            id: plan.id,
            status: SubmissionStatus::Running,
        }),
        a is SetStatus ==> n is MarkingStarted || n is MarkingRunning,
        a is AcquireSandbox ==> n is AcquiringSandbox,
        a is Execute ==> n is Executing && s is MarkingRunning,
        action_job(a) is Some ==> action_job(a) == state_job(n),
        (s !is AwaitingJob && n !is Finished) ==> state_job(n) == state_job(s),
        (s is AwaitingJob && n !is Finished) ==> a is Load,
{
}

/// Along a run, every state is further along its job than every earlier
/// one: no state of the job is entered twice.
pub proof fn law_run_moves_forward(
    sts: Seq<WorkerState>,
    evs: Seq<WorkerEvent>,
    acts: Seq<WorkerAction>,
    i: int,
    j: int,
)
    requires
        is_run(sts, evs, acts),
        0 <= i < j < sts.len(),
    ensures
        progress(sts[i]) < progress(sts[j]),
    decreases j - i,
{
    assert(follows(sts, evs, acts, j - 1));
    lemma_step(sts[j - 1], evs[j - 1], sts[j], acts[j]);
    if i < j - 1 {
        law_run_moves_forward(sts, evs, acts, i, j - 1);
    }
}

/// State `k` of a run is at least `k` steps along its job.
proof fn lemma_run_progress_bound(
    sts: Seq<WorkerState>,
    evs: Seq<WorkerEvent>,
    acts: Seq<WorkerAction>,
    k: int,
)
    requires
        is_run(sts, evs, acts),
        0 <= k < sts.len(),
    ensures
        progress(sts[k]) >= k,
    decreases k,
{
    if k > 0 {
        lemma_run_progress_bound(sts, evs, acts, k - 1);
        law_run_moves_forward(sts, evs, acts, k - 1, k);
    }
}

/// A run on one job passes through at most ten states.
pub proof fn law_run_is_short(sts: Seq<WorkerState>, evs: Seq<WorkerEvent>, acts: Seq<WorkerAction>)
    requires
        is_run(sts, evs, acts),
    ensures
        sts.len() <= 10,
{
    lemma_run_progress_bound(sts, evs, acts, sts.len() - 1);
}

/// The action issued at a later position comes from a step of the run.
proof fn lemma_action_step(
    sts: Seq<WorkerState>,
    evs: Seq<WorkerEvent>,
    acts: Seq<WorkerAction>,
    k: int,
)
    requires
        is_run(sts, evs, acts),
        1 <= k < acts.len(),
    ensures
        step_spec(sts[k - 1], evs[k - 1], sts[k], acts[k]),
{
    assert(follows(sts, evs, acts, k - 1));
}

/// A run records an outcome at most once.
pub proof fn law_one_outcome_write(
    sts: Seq<WorkerState>,
    evs: Seq<WorkerEvent>,
    acts: Seq<WorkerAction>,
    i: int,
    j: int,
)
    requires
        is_run(sts, evs, acts),
        0 <= i < acts.len(),
        0 <= j < acts.len(),
        acts[i] is StoreOutcome,
        acts[j] is StoreOutcome,
    ensures
        i == j,
{
    lemma_action_step(sts, evs, acts, i);
    lemma_step(sts[i - 1], evs[i - 1], sts[i], acts[i]);
    lemma_action_step(sts, evs, acts, j);
    lemma_step(sts[j - 1], evs[j - 1], sts[j], acts[j]);
    if i < j {
        law_run_moves_forward(sts, evs, acts, i, j);
    } else if j < i {
        law_run_moves_forward(sts, evs, acts, j, i);
    }
}

/// The first status write of a run: the start status of the job's runtime,
/// before any sandbox is asked for.
pub open spec fn first_status_write(sts: Seq<WorkerState>, acts: Seq<WorkerAction>, j: int) -> bool {
    &&& sts[j] matches WorkerState::MarkingStarted { plan } && acts[j] == (WorkerAction::SetStatus {
        id: plan.id,
        status: start_status(plan.runtime),
    })
    &&& forall|k: int| 0 <= k < j ==> !(#[trigger] acts[k] is AcquireSandbox)
}

/// The second status write of a run: `Running`, after the first write, the
/// sandbox request and the compile or the writing of the source, in that
/// order and with nothing between them.
pub open spec fn second_status_write(sts: Seq<WorkerState>, acts: Seq<WorkerAction>, j: int) -> bool {
    &&& j >= 4
    &&& sts[j] matches WorkerState::MarkingRunning { plan, .. } && acts[j] == (WorkerAction::SetStatus {
        id: plan.id,
        status: SubmissionStatus::Running,
    }) && acts[j - 3] == (WorkerAction::SetStatus {
        id: plan.id,
        status: start_status(plan.runtime),
    })
    &&& acts[j - 2] is AcquireSandbox
    &&& (acts[j - 1] is Compile || acts[j - 1] is WriteSource)
}

/// Every status write of a run is either its first write (the start status,
/// before any sandbox) or its second (`Running`, once the program is
/// ready); none writes `Queued`, and all come before the outcome is
/// recorded.
pub proof fn law_status_write_order(
    sts: Seq<WorkerState>,
    evs: Seq<WorkerEvent>,
    acts: Seq<WorkerAction>,
    j: int,
)
    requires
        is_run(sts, evs, acts),
        0 <= j < acts.len(),
        acts[j] is SetStatus,
    ensures
        acts[j]->SetStatus_status != SubmissionStatus::Queued,
        first_status_write(sts, acts, j) || second_status_write(sts, acts, j),
        forall|k: int| 0 <= k < acts.len() && #[trigger] acts[k] is StoreOutcome ==> j < k,
{
    lemma_action_step(sts, evs, acts, j);
    lemma_step(sts[j - 1], evs[j - 1], sts[j], acts[j]);
    assert forall|k: int| 0 <= k < acts.len() && #[trigger] acts[k] is StoreOutcome implies j < k by {
        lemma_action_step(sts, evs, acts, k);
        lemma_step(sts[k - 1], evs[k - 1], sts[k], acts[k]);
        if k <= j {
            if k < j {
                law_run_moves_forward(sts, evs, acts, k, j);
            }
        }
    }
    if sts[j] is MarkingStarted {
        assert forall|k: int| 0 <= k < j implies !(#[trigger] acts[k] is AcquireSandbox) by {
            if k >= 1 {
                lemma_action_step(sts, evs, acts, k);
                lemma_step(sts[k - 1], evs[k - 1], sts[k], acts[k]);
                law_run_moves_forward(sts, evs, acts, k, j);
            }
        }
    } else {
        let plan = sts[j]->MarkingRunning_plan;
        law_run_moves_forward(sts, evs, acts, 0, j - 1);
        lemma_action_step(sts, evs, acts, j - 1);
        lemma_step(sts[j - 2], evs[j - 2], sts[j - 1], acts[j - 1]);
        law_run_moves_forward(sts, evs, acts, 0, j - 2);
        lemma_action_step(sts, evs, acts, j - 2);
        lemma_step(sts[j - 3], evs[j - 3], sts[j - 2], acts[j - 2]);
        law_run_moves_forward(sts, evs, acts, 0, j - 3);
        lemma_action_step(sts, evs, acts, j - 3);
        lemma_step(sts[j - 4], evs[j - 4], sts[j - 3], acts[j - 3]);
    }
}

/// The program is run only right after the job is marked `Running`.
pub proof fn law_run_follows_running_mark(
    sts: Seq<WorkerState>,
    evs: Seq<WorkerEvent>,
    acts: Seq<WorkerAction>,
    j: int,
)
    requires
        is_run(sts, evs, acts),
        0 <= j < acts.len(),
        acts[j] is Execute,
    ensures
        j >= 1,
        acts[j - 1] matches WorkerAction::SetStatus { status, .. } && status == SubmissionStatus::Running,
{
    lemma_action_step(sts, evs, acts, j);
    lemma_step(sts[j - 1], evs[j - 1], sts[j], acts[j]);
    law_run_moves_forward(sts, evs, acts, 0, j - 1);
    lemma_action_step(sts, evs, acts, j - 1);
    lemma_step(sts[j - 2], evs[j - 2], sts[j - 1], acts[j - 1]);
}

/// Every later state of a run that is not the end is about the job that was
/// loaded first.
proof fn lemma_run_one_job(
    sts: Seq<WorkerState>,
    evs: Seq<WorkerEvent>,
    acts: Seq<WorkerAction>,
    j: int,
)
    requires
        is_run(sts, evs, acts),
        1 <= j < sts.len(),
        sts[j] !is Finished,
    ensures
        state_job(sts[j]) == action_job(acts[1]),
        state_job(sts[j]) is Some,
    decreases j,
{
    lemma_action_step(sts, evs, acts, j);
    lemma_step(sts[j - 1], evs[j - 1], sts[j], acts[j]);
    law_run_moves_forward(sts, evs, acts, 0, j);
    if j > 1 {
        law_run_moves_forward(sts, evs, acts, 0, j - 1);
        lemma_run_one_job(sts, evs, acts, j - 1);
    }
}

/// Every store read, status write, outcome write and notification of a run
/// is about the job that the run loaded first.
pub proof fn law_run_stays_on_one_job(
    sts: Seq<WorkerState>,
    evs: Seq<WorkerEvent>,
    acts: Seq<WorkerAction>,
    j: int,
)
    requires
        is_run(sts, evs, acts),
        1 <= j < acts.len(),
        action_job(acts[j]) is Some,
    ensures
        action_job(acts[j]) == action_job(acts[1]),
{
    lemma_action_step(sts, evs, acts, j);
    lemma_step(sts[j - 1], evs[j - 1], sts[j], acts[j]);
    lemma_run_one_job(sts, evs, acts, j);
}

/// A run that ends without a queue or store failure and without a missing
/// submission ends by recording one outcome, telling the waiter of that
/// job, and finishing cleanly, in that order; the outcome is final when
/// every run it was told of ended with a final status.
pub proof fn law_clean_run_writes_once_then_notifies(
    sts: Seq<WorkerState>,
    evs: Seq<WorkerEvent>,
    acts: Seq<WorkerAction>,
)
    requires
        is_run(sts, evs, acts),
        sts.last() is Finished,
        forall|i: int| 0 <= i < evs.len() ==> !stops_early(#[trigger] evs[i]),
        forall|i: int|
            0 <= i < evs.len() ==> (#[trigger] evs[i] matches WorkerEvent::Executed(Ok(res))
                ==> is_final(res.status)),
    ensures
        acts.len() >= 4,
        acts[acts.len() - 3] matches WorkerAction::StoreOutcome { id, outcome } && is_final(outcome.status)
            && acts[acts.len() - 2] == (WorkerAction::NotifyWaiter { id }) && Some(id) == action_job(
            acts[1],
        ),
        acts.last() == WorkerAction::Finish(Ok(())),
        forall|k: int| 0 <= k < acts.len() && #[trigger] acts[k] is StoreOutcome ==> k == acts.len() - 3,
{
    let l = sts.len() - 1;
    law_run_moves_forward(sts, evs, acts, 0, l);
    lemma_action_step(sts, evs, acts, l);
    lemma_step(sts[l - 1], evs[l - 1], sts[l], acts[l]);
    assert(!stops_early(evs[l - 1]));
    law_run_moves_forward(sts, evs, acts, 0, l - 1);
    lemma_action_step(sts, evs, acts, l - 1);
    lemma_step(sts[l - 2], evs[l - 2], sts[l - 1], acts[l - 1]);
    law_run_moves_forward(sts, evs, acts, 0, l - 2);
    lemma_action_step(sts, evs, acts, l - 2);
    lemma_step(sts[l - 3], evs[l - 3], sts[l - 2], acts[l - 2]);
    assert(evs[l - 3] matches WorkerEvent::Executed(Ok(res)) ==> is_final(res.status));
    law_recorded_outcomes_are_final(sts[l - 3], evs[l - 3], sts[l - 2], acts[l - 2]);
    law_run_stays_on_one_job(sts, evs, acts, l - 2);
    assert forall|k: int| 0 <= k < acts.len() && #[trigger] acts[k] is StoreOutcome implies k == l - 2 by {
        law_one_outcome_write(sts, evs, acts, k, l - 2);
    }
}

/// A finished run is recorded as it was reported: its status, output,
/// error output, exit code, time and memory unchanged, with the compiler's
/// report, under the job's id.
pub proof fn law_run_results_recorded(
    plan: JobPlan,
    compile_output: Option<String>,
    res: ExecuteResult,
    n: WorkerState,
    a: WorkerAction,
)
    requires
        step_spec((WorkerState::Executing { plan, compile_output }), WorkerEvent::Executed(Ok(res)), n, a),
    ensures
        a matches WorkerAction::StoreOutcome { id, outcome } && id == plan.id && outcome.status == res.status
            && outcome.stdout == Some(res.stdout) && outcome.stderr == Some(res.stderr)
            && outcome.compile_output == compile_output && outcome.exit_code == Some(res.exit_code)
            && outcome.time_ms == Some(res.time_ms) && outcome.memory_kb == Some(res.memory_kb),
{
}

/// What goes into the sandbox is the submission's own program: a compile
/// writes the submission's source to the plan's source file, and so does
/// the writing of an interpreted program's source.
pub proof fn law_sandbox_gets_submission_source(s: WorkerState, e: WorkerEvent, n: WorkerState, a: WorkerAction)
    requires
        step_spec(s, e, n, a),
    ensures
        a matches WorkerAction::Compile { source, source_file, .. } ==> (s matches WorkerState::AcquiringSandbox {
            plan,
        } && source == plan.submission.source && source_file == plan.source_file_name),
        a matches WorkerAction::WriteSource { source_file, source } ==> (s matches WorkerState::AcquiringSandbox {
            plan,
        } && source == plan.submission.source && source_file == plan.source_file_name),
{
}

/// A run asks for exactly what the submission set: its stdin (empty when
/// none), its time and memory limits, its language, the plan's program
/// file, and the runtime's run command for that file.
pub proof fn law_run_uses_submission_settings(s: WorkerState, e: WorkerEvent, n: WorkerState, a: WorkerAction)
    requires
        step_spec(s, e, n, a),
    ensures
        a matches WorkerAction::Execute {
            exec_file,
            stdin,
            time_limit_ms,
            memory_limit_kb,
            command,
            extra_dirs,
            language,
        } ==> (s matches WorkerState::MarkingRunning { plan, .. } && exec_file == plan.exec_file_name
            && time_limit_ms == plan.submission.time_limit_ms && memory_limit_kb
            == plan.submission.memory_limit_kb && language == plan.submission.language && extra_dirs@
            == plan.extra_dirs@ && argv_texts(command@) == plan.runtime.spec_execute_argv(
            plan.exec_file_name@,
        ) && (plan.submission.stdin matches Some(t) ==> stdin@ == t@) && (plan.submission.stdin is None
            ==> stdin@.len() == 0)),
{
    reveal_strlit("");
}

/// A step that fails after the job was planned records an internal error
/// whose error output says what failed, with no output, exit code, time or
/// memory.
pub proof fn law_failures_recorded(plan: JobPlan, compile_output: Option<String>, err: AppError, n: WorkerState, a: WorkerAction)
    ensures
        step_spec((WorkerState::AcquiringSandbox { plan }), WorkerEvent::SandboxReady(Err(err)), n, a) ==> (a matches WorkerAction::StoreOutcome { id, outcome } && id == plan.id && outcome.status
            == SubmissionStatus::InternalError && outcome.stderr is Some
            && outcome.stderr.unwrap()@ == "Failed to acquire sandbox: "@ + error_text(err) && outcome.stdout is None
            && outcome.exit_code is None && outcome.time_ms is None && outcome.memory_kb is None),
        step_spec((WorkerState::Compiling { plan }), WorkerEvent::Compiled(Err(err)), n, a) ==> (a matches WorkerAction::StoreOutcome { id, outcome } && id == plan.id && outcome.status
            == SubmissionStatus::InternalError && outcome.stderr is Some
            && outcome.stderr.unwrap()@ == "Compilation failed: "@ + error_text(err) && outcome.stdout is None && outcome.exit_code is None
            && outcome.time_ms is None && outcome.memory_kb is None),
        step_spec((WorkerState::Executing { plan, compile_output }), WorkerEvent::Executed(Err(err)), n, a) ==> (a matches WorkerAction::StoreOutcome { id, outcome } && id == plan.id && outcome.status
            == SubmissionStatus::InternalError && outcome.stderr is Some
            && outcome.stderr.unwrap()@ == "Execution failed: "@ + error_text(err) && outcome.compile_output == compile_output
            && outcome.stdout is None && outcome.exit_code is None && outcome.time_ms is None
            && outcome.memory_kb is None),
{
}

/// Only the Java runtime has the id `java`.
proof fn lemma_runtime_ids(rt: LanguageRuntime)
    ensures
        (rt.spec_id() == "java"@) == (rt is Java),
{
    reveal_strlit("c");
    reveal_strlit("cpp");
    reveal_strlit("java");
    reveal_strlit("node");
    reveal_strlit("python");
    reveal_strlit("ruby");
    reveal_strlit("rust");
    if rt.spec_id().len() == 4 && !(rt is Java) {
        assert(rt.spec_id()[0] != "java"@[0]);
    }
}

/// The files of a job whose runtime is its language's: the source file
/// carries the runtime's extension; an interpreted program runs from its
/// source file, a compiled one from the file `program`, except Java, which
/// runs a class named on the command line.
pub proof fn law_plan_files(p: JobPlan)
    requires
        p.wf(),
        p.runtime.spec_id() == p.submission.language@,
    ensures
        p.source_file_name@.len() > p.runtime.spec_extension().len(),
        p.source_file_name@.subrange(
            p.source_file_name@.len() - p.runtime.spec_extension().len() - 1,
            p.source_file_name@.len() as int,
        ) == "."@ + p.runtime.spec_extension(),
        !p.runtime.spec_compiled() ==> p.exec_file_name@ == p.source_file_name@,
        (p.runtime.spec_compiled() && p.runtime !is Java) ==> p.exec_file_name@ == "program"@,
        p.runtime is Java ==> p.exec_file_name@.len() == 0,
{
    reveal_strlit("java");
    reveal_strlit("Main.java");
    reveal_strlit("source.");
    reveal_strlit(".");
    reveal_strlit("");
    let lang = p.submission.language@;
    let ext = p.runtime.spec_extension();
    let name = p.source_file_name@;
    lemma_runtime_ids(p.runtime);
    if p.runtime is Java {
        assert(lang == "java"@);
        assert(name == "Main.java"@);
        assert(name.subrange(name.len() - ext.len() - 1, name.len() as int) =~= "."@ + ext);
    } else {
        lemma_runtime_ids(p.runtime);
        assert(name == "source."@ + ext);
        assert(name.subrange(name.len() - ext.len() - 1, name.len() as int) =~= "."@ + ext);
    }
}

} // verus!
