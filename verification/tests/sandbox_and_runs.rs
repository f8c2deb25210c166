use codecsec::compiler::Compiler;
use codecsec::errors::AppError;
use codecsec::executor::{parse_meta, Executor};
use codecsec::isolate::{build_run_argv, cleanup_argv, cleanup_outcome, init_argv, init_outcome,
    spawn_failure, wait_failure, IsolateRunArgs, ProcessOutput};
use codecsec::models::SubmissionStatus;
use codecsec::pool::{acquire_outcome, SandboxPool};

fn strs(v: &[&str]) -> Vec<String> {
    v.iter().map(|s| s.to_string()).collect()
}

#[test]
fn init_and_cleanup_arguments() {
    assert_eq!(init_argv(3), strs(&["--box-id=3", "--init"]));
    assert_eq!(cleanup_argv(12), strs(&["--box-id=12", "--cleanup"]));
}

#[test]
fn compile_run_arguments() {
    let cmd = strs(&["/usr/bin/g++", "-O3", "source.cpp", "-o", "program", "-lm"]);
    let args = Compiler::compile_args(&cmd);
    let argv = build_run_argv(4, &args, "10", "21");
    assert_eq!(
        argv,
        strs(&[
            "--box-id=4",
            "--cg",
            "--cg-mem=1048576",
            "--time=10",
            "--wall-time=21",
            "--stdout=compile_out.txt",
            "--stderr=compile_err.txt",
            "--run",
            "--",
            "/usr/bin/g++",
            "-O3",
            "source.cpp",
            "-o",
            "program",
            "-lm",
        ])
    );
}

#[test]
fn execute_run_arguments() {
    let cmd = strs(&["/usr/bin/python3", "source.py"]);
    let args = Executor::run_args(&cmd, 1500, 262144, "/box/meta.txt");
    let argv = build_run_argv(1, &args, "1.5", "4");
    assert_eq!(
        argv,
        strs(&[
            "--box-id=1",
            "--cg",
            "--cg-mem=262144",
            "--time=1.5",
            "--wall-time=4",
            "--stdin=stdin.txt",
            "--stdout=stdout.txt",
            "--stderr=stderr.txt",
            "--meta=/box/meta.txt",
            "--run",
            "--",
            "/usr/bin/python3",
            "source.py",
        ])
    );
}

#[test]
fn run_arguments_without_control_groups_or_time() {
    let cmd = strs(&["prog"]);
    let args = IsolateRunArgs {
        cmd: &cmd,
        time_limit_ms: None,
        memory_limit_kb: Some(100),
        stdin_file: None,
        stdout_file: None,
        stderr_file: None,
        meta_file: None,
        use_cg: false,
    };
    assert_eq!(build_run_argv(2, &args, "x", "y"), strs(&["--box-id=2", "--mem=100", "--run", "--", "prog"]));
}

fn out(success: bool, code: Option<i32>, stdout: &[u8], stderr: &[u8]) -> ProcessOutput {
    ProcessOutput { success, code, stdout: stdout.to_vec(), stderr: stderr.to_vec() }
}

#[test]
fn init_replies() {
    match init_outcome(Ok(out(true, Some(0), b"/var/local/lib/isolate/3\n", b""))) {
        Ok(p) => assert_eq!(p, "/var/local/lib/isolate/3"),
        Err(e) => panic!("unexpected {:?}", e),
    }
    match init_outcome(Ok(out(true, Some(0), b"  \n", b""))) {
        Err(AppError::SandboxError(m)) => assert_eq!(m, "isolate --init returned empty path"),
        other => panic!("unexpected {:?}", other),
    }
    match init_outcome(Ok(out(false, Some(2), b"", b"Box already exists"))) {
        Err(AppError::SandboxError(m)) => {
            assert_eq!(m, "isolate --init failed (code Some(2)): Box already exists")
        }
        other => panic!("unexpected {:?}", other),
    }
    match init_outcome(Ok(out(false, None, b"", b"killed"))) {
        Err(AppError::SandboxError(m)) => assert_eq!(m, "isolate --init failed (code None): killed"),
        other => panic!("unexpected {:?}", other),
    }
    match init_outcome(Ok(out(false, Some(-1), b"", b""))) {
        Err(AppError::SandboxError(m)) => assert_eq!(m, "isolate --init failed (code Some(-1)): "),
        other => panic!("unexpected {:?}", other),
    }
    match init_outcome(Err("No such file or directory".to_string())) {
        Err(AppError::SandboxError(m)) => {
            assert_eq!(m, "Failed to execute isolate --init: No such file or directory")
        }
        other => panic!("unexpected {:?}", other),
    }
}

#[test]
fn cleanup_replies() {
    assert!(cleanup_outcome(Ok(out(true, Some(0), b"", b""))).is_ok());
    match cleanup_outcome(Ok(out(false, Some(1), b"", b"busy"))) {
        Err(AppError::SandboxError(m)) => assert_eq!(m, "isolate --cleanup failed (code Some(1)): busy"),
        other => panic!("unexpected {:?}", other),
    }
    match cleanup_outcome(Err("denied".to_string())) {
        Err(AppError::SandboxError(m)) => assert_eq!(m, "Failed to execute isolate --cleanup: denied"),
        other => panic!("unexpected {:?}", other),
    }
}

#[test]
fn run_failures() {
    match spawn_failure("gone") {
        AppError::SandboxError(m) => assert_eq!(m, "Failed to spawn isolate process: gone"),
        _ => panic!(),
    }
    match wait_failure("lost") {
        AppError::SandboxError(m) => assert_eq!(m, "Failed to wait for isolate process: lost"),
        _ => panic!(),
    }
}

#[test]
fn pool_hands_out_ids_in_order() {
    let mut pool = SandboxPool::new(3);
    assert_eq!(pool.available(), 3);
    assert_eq!(pool.take(), Some(1));
    assert_eq!(pool.take(), Some(2));
    assert!(pool.give_back(1));
    assert_eq!(pool.take(), Some(3));
    assert_eq!(pool.take(), Some(1));
    assert_eq!(pool.take(), None);
    assert_eq!(pool.available(), 0);
}

#[test]
fn pool_take_then_give_back_keeps_ids() {
    let mut pool = SandboxPool::new(2);
    let id = pool.take().unwrap();
    assert!(pool.give_back(id));
    let mut seen = vec![pool.take().unwrap(), pool.take().unwrap()];
    seen.sort();
    assert_eq!(seen, vec![1, 2]);
}

#[test]
fn pool_tracks_boxes_in_use() {
    let mut pool = SandboxPool::new(2);
    assert!(!pool.in_use(1));
    assert!(!pool.in_use(3));
    assert!(!pool.in_use(0));
    let id = pool.take().unwrap();
    assert_eq!(id, 1);
    assert!(pool.in_use(1));
    assert!(!pool.in_use(2));
    assert!(pool.give_back(1));
    assert!(!pool.in_use(1));
    assert_eq!(pool.available(), 2);
}

#[test]
fn acquiring_returns_id_on_failure() {
    let (r, back) = acquire_outcome(5, Ok("/box/5".to_string()));
    assert_eq!(back, None);
    match r {
        Ok((id, path)) => {
            assert_eq!(id, 5);
            assert_eq!(path, "/box/5");
        }
        Err(e) => panic!("unexpected {:?}", e),
    }
    let (r, back) = acquire_outcome(6, Err(AppError::SandboxError("x".to_string())));
    assert_eq!(back, Some(6));
    assert!(matches!(r, Err(AppError::SandboxError(_))));
}

#[test]
fn compile_output_combination() {
    assert_eq!(Compiler::compile_result(true, "", "").compile_output, "");
    assert_eq!(Compiler::compile_result(true, "  \n", "\t").compile_output, "");
    assert_eq!(Compiler::compile_result(false, "out", "").compile_output, "out");
    assert_eq!(Compiler::compile_result(false, " ", "err\n").compile_output, "err\n");
    assert_eq!(Compiler::compile_result(false, "out", "err").compile_output, "out\nerr");
    assert!(!Compiler::compile_result(false, "out", "err").success);
    assert!(Compiler::compile_result(true, "", "").success);
}

#[test]
fn meta_report_accepted() {
    let m = parse_meta("time:0.004\ntime-wall:0.010\nmax-rss:3216\ncsw-voluntary:2\nexitcode:0\n");
    assert_eq!(m.times, vec!["0.004".to_string()]);
    assert_eq!(m.max_rss, 3216);
    assert_eq!(m.cg_mem, None);
    let r = Executor::summarize(Some(&m), 4, "hi\n".to_string(), String::new(), 262144);
    assert_eq!(r.status, SubmissionStatus::Accepted);
    assert_eq!(r.memory_kb, 3216);
    assert_eq!(r.time_ms, 4);
    assert_eq!(r.exit_code, 0);
    assert_eq!(r.stdout, "hi\n");
}

#[test]
fn meta_report_runtime_error_and_crlf() {
    let m = parse_meta("exitcode:1\r\nstatus:RE\r\nmax-rss:100\r\ncg-mem:200\n");
    assert_eq!(m.exit_code, 1);
    assert_eq!(m.status, Some("RE".to_string()));
    let r = Executor::summarize(Some(&m), 0, String::new(), String::new(), 1000);
    assert_eq!(r.status, SubmissionStatus::RuntimeError);
    assert_eq!(r.memory_kb, 200);
    assert_eq!(r.exit_code, 1);
}

#[test]
fn meta_report_verdicts() {
    let tle = parse_meta("status:TO\ntime:2.001\n");
    assert_eq!(Executor::summarize(Some(&tle), 2001, String::new(), String::new(), 1000).status,
        SubmissionStatus::TimeLimitExceeded);

    let oom = parse_meta("status:SG\nexitsig:9\ncg-mem:16000\n");
    assert_eq!(Executor::summarize(Some(&oom), 0, String::new(), String::new(), 16384).status,
        SubmissionStatus::MemoryLimitExceeded);

    let segv_low = parse_meta("status:SG\nexitsig:11\ncg-mem:100\n");
    assert_eq!(Executor::summarize(Some(&segv_low), 0, String::new(), String::new(), 16384).status,
        SubmissionStatus::RuntimeError);

    let other_sig = parse_meta("status:SG\nexitsig:6\ncg-mem:16384\n");
    assert_eq!(Executor::summarize(Some(&other_sig), 0, String::new(), String::new(), 16384).status,
        SubmissionStatus::RuntimeError);

    let small_limit = parse_meta("status:SG\nexitsig:9\nmax-rss:0\n");
    assert_eq!(Executor::summarize(Some(&small_limit), 0, String::new(), String::new(), 100).status,
        SubmissionStatus::MemoryLimitExceeded);

    let xx = parse_meta("status:XX\n");
    assert_eq!(Executor::summarize(Some(&xx), 0, String::new(), String::new(), 100).status,
        SubmissionStatus::InternalError);

    let nonzero = parse_meta("exitcode:3\n");
    assert_eq!(Executor::summarize(Some(&nonzero), 0, String::new(), String::new(), 100).status,
        SubmissionStatus::RuntimeError);
}

#[test]
fn meta_report_ignores_noise() {
    let m = parse_meta("garbage\nmax-rss:abc\nexitcode:-2\nmax-rss:+50\nexitsig:99999999999\nstatus: TO\n");
    assert_eq!(m.max_rss, 50);
    assert_eq!(m.exit_code, -2);
    assert_eq!(m.exitsig, None);
    assert_eq!(m.status, Some(" TO".to_string()));
    let r = Executor::summarize(Some(&m), 0, String::new(), String::new(), 100);
    assert_eq!(r.status, SubmissionStatus::InternalError);
}

#[test]
fn missing_report_is_internal_error() {
    let r = Executor::summarize(None, 55, "o".to_string(), "e".to_string(), 100);
    assert_eq!(r.status, SubmissionStatus::InternalError);
    assert_eq!(r.time_ms, 0);
    assert_eq!(r.memory_kb, 0);
    assert_eq!(r.exit_code, 0);
    assert_eq!(r.stderr, "e");
}

#[test]
fn empty_report_is_accepted() {
    let m = parse_meta("");
    let r = Executor::summarize(Some(&m), 0, String::new(), String::new(), 100);
    assert_eq!(r.status, SubmissionStatus::Accepted);
}

#[test]
fn limited_output() {
    assert_eq!(Executor::read_limited(None, 10), "");
    assert_eq!(Executor::read_limited(Some(b"short".to_vec()), 10), "short");
    assert_eq!(Executor::read_limited(Some(b"0123456789".to_vec()), 10), "0123456789");
    assert_eq!(
        Executor::read_limited(Some(b"0123456789AB".to_vec()), 10),
        "0123456789... [Output Truncated]"
    );
    assert_eq!(Executor::read_limited(Some(vec![0x41, 0xff]), 10), "");
    assert_eq!(Executor::read_limited(Some(vec![0x41, 0xff, 0x42, 0x43]), 2), "A\u{fffd}... [Output Truncated]");
}

#[test]
fn failed_acquire_puts_the_box_back() {
    let mut pool = SandboxPool::new(2);
    let id = pool.take().unwrap();
    let (r, back) = acquire_outcome(id, Err(AppError::SandboxError("init".to_string())));
    assert!(r.is_err());
    assert_eq!(back, Some(1));
    assert!(pool.in_use(1));
    assert!(pool.give_back(back.unwrap()));
    assert!(!pool.in_use(1));
    assert_eq!(pool.available(), 2);
    assert_eq!(pool.take(), Some(2));
    assert_eq!(pool.take(), Some(1));
}
