//! The command lines given to the `isolate` sandbox tool, and what its
//! replies mean.

use vstd::prelude::*;
use crate::errors::AppError;
use crate::runtime::runtime::argv_texts;
use crate::text::{joined, joined3, decimal, signed_decimal, trimmed, lossy_utf8, u64_text,
    i64_text, lossy_text, trim_text};

verus! {

/// The settings of one run inside a sandbox.
pub struct IsolateRunArgs<'a> {
    pub cmd: &'a [String],
    pub time_limit_ms: Option<u64>,
    pub memory_limit_kb: Option<u64>,
    pub stdin_file: Option<&'a str>,
    pub stdout_file: Option<&'a str>,
    pub stderr_file: Option<&'a str>,
    pub meta_file: Option<&'a str>,
    pub use_cg: bool,
}

/// The option naming the sandbox.
pub open spec fn box_flag(box_id: u32) -> Seq<char> {
    "--box-id="@ + decimal(box_id as nat)
}

/// The options for the memory limit: a control-group limit when control
/// groups are used, else an address-space limit.
pub open spec fn memory_flags(use_cg: bool, memory_limit_kb: Option<u64>) -> Seq<Seq<char>> {
    let limit = match memory_limit_kb {
        Some(m) => if use_cg {
            seq!["--cg-mem="@ + decimal(m as nat)]
        } else {
            seq!["--mem="@ + decimal(m as nat)]
        },
        None => seq![],
    };
    if use_cg {
        seq!["--cg"@] + limit
    } else {
        limit
    }
}

/// One option for a file when it is given.
pub open spec fn file_flag(name: Seq<char>, file: Option<&str>) -> Seq<Seq<char>> {
    match file {
        Some(f) => seq![name + f@],
        None => seq![],
    }
}

/// The arguments of `isolate` for one run. `cpu_seconds` and `wall_seconds`
/// are the renderings, in seconds, of the CPU time limit and of the wall
/// clock limit (twice the CPU limit plus one second); they are used only when
/// a time limit is set.
pub open spec fn run_argv(
    box_id: u32,
    args: IsolateRunArgs,
    cpu_seconds: Seq<char>,
    wall_seconds: Seq<char>,
) -> Seq<Seq<char>> {
    seq![box_flag(box_id)] + memory_flags(args.use_cg, args.memory_limit_kb) + (if args.time_limit_ms
        is Some {
        seq!["--time="@ + cpu_seconds, "--wall-time="@ + wall_seconds]
    } else {
        seq![]
    }) + file_flag("--stdin="@, args.stdin_file) + file_flag("--stdout="@, args.stdout_file)
        + file_flag("--stderr="@, args.stderr_file) + file_flag("--meta="@, args.meta_file)
        + seq!["--run"@, "--"@] + argv_texts(args.cmd@)
}

/// How `{:?}` shows an optional exit code.
pub open spec fn code_debug(code: Option<i32>) -> Seq<char> {
    match code {
        Some(c) => "Some("@ + signed_decimal(c as int) + ")"@,
        None => "None"@,
    }
}

/// What a finished `isolate` process reported.
pub struct ProcessOutput {
    pub success: bool,
    pub code: Option<i32>,
    pub stdout: Vec<u8>,
    pub stderr: Vec<u8>,
}

/// What preparing a sandbox comes to: the sandbox directory, or the error.
pub open spec fn init_result(spawned: Result<ProcessOutput, String>) -> Result<Seq<char>, Seq<char>> {
    match spawned {
        Err(e) => Err("Failed to execute isolate --init: "@ + e@),
        Ok(out) => if !out.success {
            Err("isolate --init failed (code "@ + code_debug(out.code) + "): "@ + lossy_utf8(
                out.stderr@,
            ))
        } else if trimmed(lossy_utf8(out.stdout@)).len() == 0 {
            Err("isolate --init returned empty path"@)
        } else {
            Ok(trimmed(lossy_utf8(out.stdout@)))
        },
    }
}

/// What cleaning a sandbox comes to: nothing, or the error.
pub open spec fn cleanup_result(spawned: Result<ProcessOutput, String>) -> Result<(), Seq<char>> {
    match spawned {
        Err(e) => Err("Failed to execute isolate --cleanup: "@ + e@),
        Ok(out) => if !out.success {
            Err("isolate --cleanup failed (code "@ + code_debug(out.code) + "): "@ + lossy_utf8(
                out.stderr@,
            ))
        } else {
            Ok(())
        },
    }
}

/// Appends a `name` + `value` option.
fn push_flag(v: &mut Vec<String>, name: &str, value: &str)
    ensures
        final(v)@.len() == old(v)@.len() + 1,
        argv_texts(final(v)@) == argv_texts(old(v)@).push(name@ + value@),
{
    let f = joined(name, value);
    v.push(f);
    assert(argv_texts(final(v)@) =~= argv_texts(old(v)@).push(name@ + value@));
}

/// The sandbox option naming `box_id`.
fn box_option(box_id: u32) -> (r: String)
    ensures
        r@ == box_flag(box_id),
{
    let n = u64_text(box_id as u64);
    joined("--box-id=", n.as_str())
}

/// The arguments of `isolate` that prepare sandbox `box_id`.
pub fn init_argv(box_id: u32) -> (r: Vec<String>)
    ensures
        argv_texts(r@) == seq![box_flag(box_id), "--init"@],
{
    let mut v: Vec<String> = Vec::new();
    v.push(box_option(box_id));
    v.push("--init".to_string());
    assert(argv_texts(v@) =~= seq![box_flag(box_id), "--init"@]);
    v
}

/// The arguments of `isolate` that clean sandbox `box_id`.
pub fn cleanup_argv(box_id: u32) -> (r: Vec<String>)
    ensures
        argv_texts(r@) == seq![box_flag(box_id), "--cleanup"@],
{
    let mut v: Vec<String> = Vec::new();
    v.push(box_option(box_id));
    v.push("--cleanup".to_string());
    assert(argv_texts(v@) =~= seq![box_flag(box_id), "--cleanup"@]);
    v
}

/// Appends the option for a file when it is given.
fn push_file_flag(v: &mut Vec<String>, name: &str, file: Option<&str>)
    ensures
        argv_texts(final(v)@) == argv_texts(old(v)@) + file_flag(name@, file),
{
    match file {
        Some(f) => {
            push_flag(v, name, f);
            assert(argv_texts(final(v)@) =~= argv_texts(old(v)@) + file_flag(name@, file));
        },
        None => {
            assert(argv_texts(final(v)@) =~= argv_texts(old(v)@) + file_flag(name@, file));
        },
    }
}

/// The arguments of `isolate` for one run in sandbox `box_id`.
/// `cpu_seconds` and `wall_seconds` render the time limits in seconds.
pub fn build_run_argv(box_id: u32, args: &IsolateRunArgs, cpu_seconds: &str, wall_seconds: &str) -> (r:
    Vec<String>)
    ensures
        argv_texts(r@) == run_argv(box_id, *args, cpu_seconds@, wall_seconds@),
{
    let mut v: Vec<String> = Vec::new();
    v.push(box_option(box_id));
    let ghost start = argv_texts(v@);
    assert(start =~= seq![box_flag(box_id)]);
    if args.use_cg {
        v.push("--cg".to_string());
        match args.memory_limit_kb {
            Some(m) => {
                let t = u64_text(m);
                push_flag(&mut v, "--cg-mem=", t.as_str());
            },
            None => {},
        }
    } else {
        match args.memory_limit_kb {
            Some(m) => {
                let t = u64_text(m);
                push_flag(&mut v, "--mem=", t.as_str());
            },
            None => {},
        }
    }
    let ghost after_mem = argv_texts(v@);
    assert(after_mem =~= start + memory_flags(args.use_cg, args.memory_limit_kb));
    if args.time_limit_ms.is_some() {
        push_flag(&mut v, "--time=", cpu_seconds);
        push_flag(&mut v, "--wall-time=", wall_seconds);
    }
    let ghost after_time = argv_texts(v@);
    assert(after_time =~= after_mem + (if args.time_limit_ms is Some {
        seq!["--time="@ + cpu_seconds@, "--wall-time="@ + wall_seconds@]
    } else {
        seq![]
    }));
    push_file_flag(&mut v, "--stdin=", args.stdin_file);
    push_file_flag(&mut v, "--stdout=", args.stdout_file);
    push_file_flag(&mut v, "--stderr=", args.stderr_file);
    push_file_flag(&mut v, "--meta=", args.meta_file);
    v.push("--run".to_string());
    v.push("--".to_string());
    let ghost before_cmd = argv_texts(v@);
    let n = args.cmd.len();
    let mut i: usize = 0;
    while i < n
        invariant
            n == args.cmd@.len(),
            i <= n,
            argv_texts(v@) == before_cmd + argv_texts(args.cmd@.subrange(0, i as int)),
        decreases n - i,
    {
        let ghost prev = v@;
        let item = args.cmd[i].clone();
        v.push(item);
        assert(v@ == prev.push(item));
        assert(argv_texts(v@) =~= argv_texts(prev).push(item@));
        assert(args.cmd@.subrange(0, i + 1) =~= args.cmd@.subrange(0, i as int).push(args.cmd@[i as int]));
        assert(argv_texts(args.cmd@.subrange(0, i + 1)) =~= argv_texts(args.cmd@.subrange(0, i as int)).push(item@));
        assert(argv_texts(v@) =~= before_cmd + argv_texts(args.cmd@.subrange(0, i + 1)));
        i = i + 1;
    }
    assert(args.cmd@.subrange(0, n as int) =~= args.cmd@);
    assert(argv_texts(v@) =~= run_argv(box_id, *args, cpu_seconds@, wall_seconds@));
    v
}

/// `{:?}` of an optional exit code.
fn code_debug_text(code: Option<i32>) -> (r: String)
    ensures
        r@ == code_debug(code),
{
    match code {
        Some(c) => {
            let n = i64_text(c as i64);
            joined3("Some(", n.as_str(), ")")
        },
        None => "None".to_string(),
    }
}

/// The sandbox directory `isolate --init` reported, or the error it comes
/// to. `spawned` is the finished process, or why it could not be started.
pub fn init_outcome(spawned: Result<ProcessOutput, String>) -> (r: Result<String, AppError>)
    ensures
        match init_result(spawned) {
            Ok(p) => r matches Ok(path) && path@ == p,
            Err(m) => r matches Err(AppError::SandboxError(e)) && e@ == m,
        },
{
    match spawned {
        Err(e) => Err(AppError::SandboxError(joined("Failed to execute isolate --init: ", e.as_str()))),
        Ok(out) => {
            if !out.success {
                let code = code_debug_text(out.code);
                let err = lossy_text(out.stderr.as_slice());
                let head = joined3("isolate --init failed (code ", code.as_str(), "): ");
                return Err(AppError::SandboxError(joined(head.as_str(), err.as_str())));
            }
            let text = lossy_text(out.stdout.as_slice());
            let path = trim_text(text.as_str());
            if path.as_str().is_empty() {
                Err(AppError::SandboxError("isolate --init returned empty path".to_string()))
            } else {
                Ok(path)
            }
        },
    }
}

/// Whether `isolate --cleanup` succeeded, or the error it comes to.
pub fn cleanup_outcome(spawned: Result<ProcessOutput, String>) -> (r: Result<(), AppError>)
    ensures
        match cleanup_result(spawned) {
            Ok(_) => r is Ok,
            Err(m) => r matches Err(AppError::SandboxError(e)) && e@ == m,
        },
{
    match spawned {
        Err(e) => Err(AppError::SandboxError(joined("Failed to execute isolate --cleanup: ", e.as_str()))),
        Ok(out) => {
            if !out.success {
                let code = code_debug_text(out.code);
                let err = lossy_text(out.stderr.as_slice());
                let head = joined3("isolate --cleanup failed (code ", code.as_str(), "): ");
                return Err(AppError::SandboxError(joined(head.as_str(), err.as_str())));
            }
            Ok(())
        },
    }
}

/// The error when the `isolate` process of a run cannot be started.
pub fn spawn_failure(detail: &str) -> (r: AppError)
    ensures
        r matches AppError::SandboxError(m) && m@ == "Failed to spawn isolate process: "@ + detail@,
{
    AppError::SandboxError(joined("Failed to spawn isolate process: ", detail))
}

/// The error when waiting for the `isolate` process of a run fails.
pub fn wait_failure(detail: &str) -> (r: AppError)
    ensures
        r matches AppError::SandboxError(m) && m@ == "Failed to wait for isolate process: "@ + detail@,
{
    AppError::SandboxError(joined("Failed to wait for isolate process: ", detail))
}

/// The shape of a run's command line: the sandbox first; then, with
/// control groups, `--cg` and the control-group memory limit, else the
/// address-space limit; then the CPU and wall time limits when a time limit
/// is set; and at the end `--run`, `--` and the program's command line,
/// unchanged.
#[verifier::rlimit(60)]
pub proof fn law_run_argv_shape(
    box_id: u32,
    args: IsolateRunArgs,
    cpu_seconds: Seq<char>,
    wall_seconds: Seq<char>,
    r: Seq<Seq<char>>,
)
    requires
        r == run_argv(box_id, args, cpu_seconds, wall_seconds),
    ensures
        r[0] == "--box-id="@ + decimal(box_id as nat),
        args.use_cg ==> r[1] == "--cg"@,
        (args.use_cg && args.memory_limit_kb is Some) ==> r[2] == "--cg-mem="@ + decimal(
            args.memory_limit_kb->0 as nat,
        ),
        (!args.use_cg && args.memory_limit_kb is Some) ==> r[1] == "--mem="@ + decimal(
            args.memory_limit_kb->0 as nat,
        ),
        args.time_limit_ms is Some ==> r[1 + (if args.use_cg { 1int } else { 0 }) + (if args.memory_limit_kb
            is Some { 1int } else { 0 })] == "--time="@ + cpu_seconds && r[2 + (if args.use_cg { 1int } else {
            0
        }) + (if args.memory_limit_kb is Some { 1int } else { 0 })] == "--wall-time="@ + wall_seconds,
        r.len() >= args.cmd@.len() + 3,
        r.subrange(r.len() - args.cmd@.len(), r.len() as int) == argv_texts(args.cmd@),
        r[r.len() - args.cmd@.len() - 2] == "--run"@,
        r[r.len() - args.cmd@.len() - 1] == "--"@,
{
    let mf = memory_flags(args.use_cg, args.memory_limit_kb);
    let head = seq![box_flag(box_id)] + mf;
    let tf: Seq<Seq<char>> = if args.time_limit_ms is Some {
        seq!["--time="@ + cpu_seconds, "--wall-time="@ + wall_seconds]
    } else {
        seq![]
    };
    let files = file_flag("--stdin="@, args.stdin_file) + file_flag("--stdout="@, args.stdout_file)
        + file_flag("--stderr="@, args.stderr_file) + file_flag("--meta="@, args.meta_file);
    let front = head + tf + files;
    let tail = seq!["--run"@, "--"@] + argv_texts(args.cmd@);
    let n = args.cmd@.len();
    assert(r == front + tail);
    assert(argv_texts(args.cmd@).len() == n);
    assert(tail.len() == n + 2);
    assert(r.len() == front.len() + n + 2);
    assert(front.len() >= 1);
    assert forall|i: int| 0 <= i < front.len() implies r[i] == front[i] by {
        assert(r[i] == (front + tail)[i]);
    }
    assert forall|i: int| 0 <= i < tail.len() implies r[front.len() + i] == tail[i] by {
        assert(r[front.len() + i] == (front + tail)[front.len() + i]);
    }
    assert forall|i: int| 0 <= i < head.len() implies front[i] == head[i] by {
        assert(front == head + (tf + files));
    }
    assert forall|i: int| 0 <= i < tf.len() implies front[head.len() + i] == tf[i] by {
        assert(front == (head + tf) + files);
        assert((head + tf)[head.len() + i] == tf[i]);
    }
    assert(head[0] == box_flag(box_id));
    assert(r[0] == front[0]);
    assert(r.subrange(r.len() - n, r.len() as int) =~= argv_texts(args.cmd@)) by {
        assert forall|i: int| 0 <= i < n implies r[r.len() - n + i] == argv_texts(args.cmd@)[i] by {
            assert(r[front.len() + (i + 2)] == tail[i + 2]);
        }
    }
    assert(r[r.len() - n - 2] == tail[0]);
    assert(r[r.len() - n - 1] == tail[1]);
    if args.use_cg {
        assert(r[1] == front[1]);
        assert(front[1] == head[1]);
        if args.memory_limit_kb is Some {
            assert(r[2] == front[2]);
            assert(front[2] == head[2]);
        }
    } else if args.memory_limit_kb is Some {
        assert(r[1] == front[1]);
        assert(front[1] == head[1]);
    }
    if args.time_limit_ms is Some {
        let h = head.len() as int;
        assert(r[h] == front[h]);
        assert(r[h + 1] == front[h + 1]);
    }
}

/// Preparing a sandbox succeeds exactly when `isolate --init` ran, exited
/// successfully and printed a non-blank path, and its answer is that path
/// with surrounding whitespace removed; a failed run's error names its exit
/// code and carries what it wrote to its error output.
pub proof fn law_init_result_cases(spawned: Result<ProcessOutput, String>)
    ensures
        init_result(spawned) is Ok <==> (spawned matches Ok(out) && out.success && trimmed(
            lossy_utf8(out.stdout@),
        ).len() > 0),
        init_result(spawned) is Ok ==> init_result(spawned)->Ok_0 == trimmed(
            lossy_utf8(spawned->Ok_0.stdout@),
        ),
        spawned is Err ==> init_result(spawned) == Err::<Seq<char>, Seq<char>>(
            "Failed to execute isolate --init: "@ + spawned->Err_0@,
        ),
        (spawned matches Ok(out) && !out.success) ==> init_result(spawned) == Err::<Seq<char>, Seq<char>>(
            "isolate --init failed (code "@ + code_debug(spawned->Ok_0.code) + "): "@ + lossy_utf8(
                spawned->Ok_0.stderr@,
            ),
        ),
{
}

/// Cleaning a sandbox succeeds exactly when `isolate --cleanup` ran and
/// exited successfully.
pub proof fn law_cleanup_result_cases(spawned: Result<ProcessOutput, String>)
    ensures
        cleanup_result(spawned) is Ok <==> (spawned matches Ok(out) && out.success),
        spawned is Err ==> cleanup_result(spawned) == Err::<(), Seq<char>>(
            "Failed to execute isolate --cleanup: "@ + spawned->Err_0@,
        ),
{
}

} // verus!
