use codecsec::api::{content_type_is_json, memory_limit_for, prepare_submission, queued_response,
    runtime_infos, submission_lookup, synchronous_response, time_limit_for, validate_request,
    wait_requested, wait_timeout_ms, waited_response, WaitOutcome};
use codecsec::compiler::CompileResult;
use codecsec::config::Config;
use codecsec::errors::AppError;
use codecsec::executor::ExecuteResult;
use codecsec::models::{CreateSubmissionRequest, Submission, SubmissionStatus};
use codecsec::runtime::registry::RuntimeRegistry;
use codecsec::store::{InMemoryStore, SubmissionStore};
use codecsec::worker::{start, step, WorkerAction, WorkerEvent, WorkerState};

fn config() -> Config {
    Config::from_settings(None, None, None, None, Some("20"), None, None)
}

fn request(language: &str, source: &str) -> CreateSubmissionRequest {
    CreateSubmissionRequest {
        language: language.to_string(),
        source: source.to_string(),
        stdin: None,
        time_limit_ms: None,
        memory_limit_kb: None,
    }
}

fn submission(id: &str, language: &str) -> Submission {
    Submission {
        id: id.to_string(),
        language: language.to_string(),
        source: "print(1)".to_string(),
        stdin: Some("in".to_string()),
        time_limit_ms: 2000,
        memory_limit_kb: 262144,
        status: SubmissionStatus::Queued,
        stdout: None,
        stderr: None,
        compile_output: None,
        exit_code: None,
        time_ms: None,
        memory_kb: None,
        created_at: "2024-01-01T00:00:00+00:00".to_string(),
    }
}

#[test]
fn request_checks() {
    assert!(content_type_is_json("application/json"));
    assert!(content_type_is_json("application/json; charset=utf-8"));
    assert!(!content_type_is_json(""));
    assert!(wait_requested(Some("true")));
    assert!(!wait_requested(Some("TRUE")));
    assert!(!wait_requested(Some("1")));
    assert!(!wait_requested(None));
}

#[test]
fn request_validation() {
    let reg = RuntimeRegistry::new();
    let cfg = config();
    assert!(validate_request(&request("python", "print(1)"), &cfg, &reg).is_ok());
    match validate_request(&request("go", "x"), &cfg, &reg) {
        Err(AppError::InvalidRequest(m)) => assert_eq!(m, "Unsupported language: go"),
        other => panic!("unexpected {:?}", other),
    }
    match validate_request(&request("python", "123456789012345678901"), &cfg, &reg) {
        Err(AppError::InvalidRequest(m)) => {
            assert_eq!(m, "Source code size exceeds maximum limit of 20 bytes")
        }
        other => panic!("unexpected {:?}", other),
    }
    // the size is counted in bytes: 10 two-byte characters are 20 bytes
    assert!(validate_request(&request("python", "éééééééééé"), &cfg, &reg).is_ok());
    assert!(validate_request(&request("python", "ééééééééééé"), &cfg, &reg).is_err());
    // size is checked before the language
    match validate_request(&request("go", "123456789012345678901"), &cfg, &reg) {
        Err(AppError::InvalidRequest(m)) => assert!(m.starts_with("Source code size")),
        other => panic!("unexpected {:?}", other),
    }
}

#[test]
fn limits() {
    assert_eq!(time_limit_for(None, 2000), 2000);
    assert_eq!(time_limit_for(Some(0), 2000), 2000);
    assert_eq!(time_limit_for(Some(-5), 2000), 2000);
    assert_eq!(time_limit_for(Some(500), 2000), 500);
    assert_eq!(time_limit_for(Some(10000), 2000), 10000);
    assert_eq!(time_limit_for(Some(99999), 2000), 10000);
    assert_eq!(memory_limit_for(Some(16384), 262144), 16384);
    assert_eq!(memory_limit_for(Some(i64::MAX), 262144), 1048576);
    assert_eq!(memory_limit_for(None, 262144), 262144);
    assert_eq!(wait_timeout_ms(2000), 17000);
}

#[test]
fn accepted_requests_become_queued_submissions() {
    let reg = RuntimeRegistry::new();
    let cfg = config();
    let mut req = request("ruby", "puts 1");
    req.time_limit_ms = Some(50000);
    req.stdin = Some("x".to_string());
    let s = prepare_submission(req, &cfg, &reg).unwrap();
    assert_eq!(s.status, SubmissionStatus::Queued);
    assert_eq!(s.language, "ruby");
    assert_eq!(s.source, "puts 1");
    assert_eq!(s.stdin, Some("x".to_string()));
    assert_eq!(s.time_limit_ms, 10000);
    assert_eq!(s.memory_limit_kb, 262144);
    assert!(s.stdout.is_none() && s.exit_code.is_none() && s.time_ms.is_none());
    assert_eq!(s.id.len(), 36);
    assert_eq!(s.id.chars().nth(8), Some('-'));
    assert_eq!(s.id.chars().nth(14), Some('4'));
    assert!(matches!(s.id.chars().nth(19), Some('8') | Some('9') | Some('a') | Some('b')));
    assert!(s.created_at.ends_with("+00:00"));
    assert_eq!(s.created_at.chars().nth(10), Some('T'));
    let t = prepare_submission(request("ruby", "puts 1"), &cfg, &reg).unwrap();
    assert_ne!(s.id, t.id);
    assert!(prepare_submission(request("cobol", "x"), &cfg, &reg).is_err());
}

#[test]
fn responses() {
    let q = queued_response("abc");
    assert_eq!(q.id, "abc");
    assert_eq!(q.status, "Queued");

    let mut s = submission("abc", "python");
    s.status = SubmissionStatus::TimeLimitExceeded;
    s.stdout = Some("out".to_string());
    let r = submission_lookup(Some(s), "abc").unwrap();
    assert_eq!(r.status, "Time Limit Exceeded");
    assert_eq!(r.stdout, Some("out".to_string()));
    assert_eq!(r.language, "python");
    match submission_lookup(None, "zzz") {
        Err(AppError::SubmissionNotFound(id)) => assert_eq!(id, "zzz"),
        other => panic!("unexpected {:?}", other),
    }

    let infos = runtime_infos(&RuntimeRegistry::new());
    let ids: Vec<&str> = infos.iter().map(|i| i.id.as_str()).collect();
    assert_eq!(ids, vec!["c", "cpp", "java", "node", "python", "ruby", "rust"]);
    assert_eq!(infos[1].name, "C++");
    assert!(infos[1].compiled);
    assert_eq!(infos[3].name, "Node.js");
    assert!(!infos[3].compiled);
    assert_eq!(infos[4].name, "Python");
    assert!(!infos[4].compiled);
    assert!(infos[0].compiled);
}

#[test]
fn waited_responses() {
    let mut s = submission("a", "python");
    s.status = SubmissionStatus::Accepted;
    s.stdout = Some("hello\n".to_string());
    s.exit_code = Some(0);
    s.time_ms = Some(4);
    let r = synchronous_response(s);
    assert_eq!(r.stdout, "hello\n");
    assert_eq!(r.stderr, "");
    assert_eq!(r.compile_output, "");
    assert_eq!(r.status, "Accepted");
    assert_eq!(r.time_ms, 4);
    assert_eq!(r.memory_kb, 0);

    let mut s = submission("a", "python");
    s.status = SubmissionStatus::RuntimeError;
    assert_eq!(waited_response(WaitOutcome::Finished(s)).unwrap().status, "Runtime Error");
    match waited_response(WaitOutcome::Dropped) {
        Err(AppError::Internal(m)) => assert_eq!(m, "Worker task dropped before sending result"),
        other => panic!("unexpected {:?}", other),
    }
    match waited_response(WaitOutcome::TimedOut) {
        Err(AppError::Internal(m)) => assert_eq!(m, "Execution timed out waiting for queue processing"),
        other => panic!("unexpected {:?}", other),
    }
}

#[test]
fn store_reads_back_writes() {
    let mut store = InMemoryStore::new();
    assert!(store.get("a").unwrap().is_none());
    store.set("a", submission("a", "python")).unwrap();
    let got = store.get("a").unwrap().unwrap();
    assert_eq!(got.language, "python");
    store.update_status("a", SubmissionStatus::Running).unwrap();
    assert_eq!(store.get("a").unwrap().unwrap().status, SubmissionStatus::Running);
    store
        .update_result("a", SubmissionStatus::Accepted, Some("o".to_string()), Some(String::new()), None,
            Some(0), Some(3), Some(100))
        .unwrap();
    let got = store.get("a").unwrap().unwrap();
    assert_eq!(got.status, SubmissionStatus::Accepted);
    assert_eq!(got.stdout, Some("o".to_string()));
    assert_eq!(got.memory_kb, Some(100));
    assert_eq!(got.source, "print(1)");
    assert!(store.get("b").unwrap().is_none());
}

#[test]
fn store_updates_of_missing_ids_fail() {
    let mut store = InMemoryStore::new();
    match store.update_status("nope", SubmissionStatus::Running) {
        Err(AppError::SubmissionNotFound(id)) => assert_eq!(id, "nope"),
        other => panic!("unexpected {:?}", other),
    }
    match store.update_result("nope", SubmissionStatus::Accepted, None, None, None, None, None, None) {
        Err(AppError::SubmissionNotFound(id)) => assert_eq!(id, "nope"),
        other => panic!("unexpected {:?}", other),
    }
    assert!(store.get("nope").unwrap().is_none());
}

fn outcome_of(a: &WorkerAction) -> (SubmissionStatus, Option<String>, Option<String>) {
    match a {
        WorkerAction::StoreOutcome { outcome, .. } => {
            (outcome.status, outcome.stderr.clone(), outcome.compile_output.clone())
        }
        _ => panic!("expected an outcome to store"),
    }
}

#[test]
fn worker_runs_an_interpreted_job() {
    let reg = RuntimeRegistry::new();
    let (s, a) = start();
    assert!(matches!(a, WorkerAction::Dequeue));
    let (s, a) = step(s, WorkerEvent::Dequeued(Ok("j1".to_string())), &reg);
    assert!(matches!(&a, WorkerAction::Load { id } if id == "j1"));
    let (s, a) = step(s, WorkerEvent::Loaded(Ok(Some(submission("j1", "python")))), &reg);
    assert!(matches!(&a, WorkerAction::SetStatus { id, status: SubmissionStatus::Running } if id == "j1"));
    let (s, a) = step(s, WorkerEvent::StatusStored(Ok(())), &reg);
    assert!(matches!(a, WorkerAction::AcquireSandbox));
    let (s, a) = step(s, WorkerEvent::SandboxReady(Ok(())), &reg);
    match &a {
        WorkerAction::WriteSource { source_file, source } => {
            assert_eq!(source_file, "source.py");
            assert_eq!(source, "print(1)");
        }
        _ => panic!("expected the source to be written"),
    }
    let (s, a) = step(s, WorkerEvent::SourceWritten(Ok(())), &reg);
    assert!(matches!(&a, WorkerAction::SetStatus { status: SubmissionStatus::Running, .. }));
    let (s, a) = step(s, WorkerEvent::StatusStored(Ok(())), &reg);
    match &a {
        WorkerAction::Execute { exec_file, stdin, time_limit_ms, memory_limit_kb, command, extra_dirs, language } => {
            assert_eq!(exec_file, "source.py");
            assert_eq!(stdin, "in");
            assert_eq!(*time_limit_ms, 2000);
            assert_eq!(*memory_limit_kb, 262144);
            assert_eq!(command, &vec!["/usr/bin/python3".to_string(), "source.py".to_string()]);
            assert!(extra_dirs.is_empty());
            assert_eq!(language, "python");
        }
        _ => panic!("expected a run"),
    }
    let res = ExecuteResult {
        stdout: "1\n".to_string(),
        stderr: String::new(),
        exit_code: 0,
        status: SubmissionStatus::Accepted,
        time_ms: 5,
        memory_kb: 900,
    };
    let (s, a) = step(s, WorkerEvent::Executed(Ok(res)), &reg);
    match &a {
        WorkerAction::StoreOutcome { id, outcome } => {
            assert_eq!(id, "j1");
            assert_eq!(outcome.status, SubmissionStatus::Accepted);
            assert_eq!(outcome.stdout, Some("1\n".to_string()));
            assert_eq!(outcome.exit_code, Some(0));
            assert_eq!(outcome.time_ms, Some(5));
            assert_eq!(outcome.memory_kb, Some(900));
            assert_eq!(outcome.compile_output, None);
        }
        _ => panic!("expected the outcome"),
    }
    let (s, a) = step(s, WorkerEvent::OutcomeStored(Ok(())), &reg);
    assert!(matches!(&a, WorkerAction::NotifyWaiter { id } if id == "j1"));
    let (s, a) = step(s, WorkerEvent::WaiterNotified, &reg);
    assert!(matches!(a, WorkerAction::Finish(Ok(()))));
    assert!(matches!(s, WorkerState::Finished));
}

fn to_sandbox(reg: &RuntimeRegistry, language: &str) -> WorkerState {
    let (s, _) = start();
    let (s, _) = step(s, WorkerEvent::Dequeued(Ok("j".to_string())), reg);
    let (s, a) = step(s, WorkerEvent::Loaded(Ok(Some(submission("j", language)))), reg);
    if let WorkerAction::SetStatus { status, .. } = a {
        let expected = if language == "python" || language == "node" || language == "ruby" {
            SubmissionStatus::Running
        } else {
            SubmissionStatus::Compiling
        };
        assert_eq!(status, expected);
    } else {
        panic!("expected a status change");
    }
    let (s, _) = step(s, WorkerEvent::StatusStored(Ok(())), reg);
    s
}

#[test]
fn worker_compiles_java() {
    let reg = RuntimeRegistry::new();
    let s = to_sandbox(&reg, "java");
    let (s, a) = step(s, WorkerEvent::SandboxReady(Ok(())), &reg);
    match &a {
        WorkerAction::Compile { source_file, command, extra_dirs, .. } => {
            assert_eq!(source_file, "Main.java");
            assert_eq!(command[1], "Main.java");
            assert_eq!(
                extra_dirs,
                &vec![
                    "/usr/lib/jvm=/usr/lib/jvm".to_string(),
                    "/etc/java-17-openjdk=/etc/java-17-openjdk".to_string(),
                    "/etc/alternatives=/etc/alternatives".to_string(),
                ]
            );
        }
        _ => panic!("expected a compile"),
    }
    let compiled = CompileResult { success: true, compile_output: "note".to_string() };
    let (s, _) = step(s, WorkerEvent::Compiled(Ok(compiled)), &reg);
    let (s, a) = step(s, WorkerEvent::StatusStored(Ok(())), &reg);
    match &a {
        WorkerAction::Execute { exec_file, command, .. } => {
            assert_eq!(exec_file, "");
            assert_eq!(command[1], "Main");
        }
        _ => panic!("expected a run"),
    }
    let (_, a) = step(s, WorkerEvent::Executed(Err(AppError::SandboxError("x".to_string()))), &reg);
    assert_eq!(
        outcome_of(&a),
        (SubmissionStatus::InternalError, Some("Execution failed: Sandbox error: x".to_string()), Some("note".to_string()))
    );
}

#[test]
fn worker_compiles_c() {
    let reg = RuntimeRegistry::new();
    let s = to_sandbox(&reg, "c");
    let (_, a) = step(s, WorkerEvent::SandboxReady(Ok(())), &reg);
    match &a {
        WorkerAction::Compile { source_file, command, extra_dirs, .. } => {
            assert_eq!(source_file, "source.c");
            assert_eq!(command[0], "/usr/bin/gcc");
            assert_eq!(command[4], "program");
            assert_eq!(extra_dirs, &vec!["/etc/alternatives=/etc/alternatives".to_string()]);
        }
        _ => panic!("expected a compile"),
    }
}

#[test]
fn worker_records_compile_errors() {
    let reg = RuntimeRegistry::new();
    let s = to_sandbox(&reg, "rust");
    let (s, a) = step(s, WorkerEvent::SandboxReady(Ok(())), &reg);
    match &a {
        WorkerAction::Compile { source_file, command, .. } => {
            assert_eq!(source_file, "source.rs");
            assert_eq!(command[4], "program");
        }
        _ => panic!("expected a compile"),
    }
    let failed = CompileResult { success: false, compile_output: "error[E0425]".to_string() };
    let (s, a) = step(s, WorkerEvent::Compiled(Ok(failed)), &reg);
    assert_eq!(outcome_of(&a), (SubmissionStatus::CompileError, None, Some("error[E0425]".to_string())));
    assert!(matches!(s, WorkerState::StoringOutcome { .. }));
}

#[test]
fn worker_failures() {
    let reg = RuntimeRegistry::new();
    let (s, _) = start();
    let (s, _) = step(s, WorkerEvent::Dequeued(Ok("j".to_string())), &reg);
    let (_, a) = step(s, WorkerEvent::Loaded(Ok(Some(submission("j", "go")))), &reg);
    assert_eq!(outcome_of(&a), (SubmissionStatus::InternalError, Some("Unsupported language: go".to_string()), None));

    let s = to_sandbox(&reg, "cpp");
    let (_, a) = step(s, WorkerEvent::SandboxReady(Err(AppError::SandboxError("busy".to_string()))), &reg);
    assert_eq!(
        outcome_of(&a),
        (SubmissionStatus::InternalError, Some("Failed to acquire sandbox: Sandbox error: busy".to_string()), None)
    );

    let s = to_sandbox(&reg, "cpp");
    let (s, _) = step(s, WorkerEvent::SandboxReady(Ok(())), &reg);
    let (_, a) = step(s, WorkerEvent::Compiled(Err(AppError::Internal("disk".to_string()))), &reg);
    assert_eq!(
        outcome_of(&a),
        (SubmissionStatus::InternalError, Some("Compilation failed: Internal error: disk".to_string()), None)
    );

    let s = to_sandbox(&reg, "node");
    let (s, _) = step(s, WorkerEvent::SandboxReady(Ok(())), &reg);
    let (_, a) = step(s, WorkerEvent::SourceWritten(Err("read-only".to_string())), &reg);
    assert_eq!(
        outcome_of(&a),
        (SubmissionStatus::InternalError, Some("Failed to write source file to sandbox: read-only".to_string()), None)
    );

    let (s, _) = start();
    let (s, a) = step(s, WorkerEvent::Dequeued(Err(AppError::Internal("closed".to_string()))), &reg);
    assert!(matches!(a, WorkerAction::Finish(Err(AppError::Internal(_)))));
    assert!(matches!(s, WorkerState::Finished));

    let (s, _) = start();
    let (s, _) = step(s, WorkerEvent::Dequeued(Ok("j".to_string())), &reg);
    let (_, a) = step(s, WorkerEvent::Loaded(Ok(None)), &reg);
    assert!(matches!(a, WorkerAction::Finish(Ok(()))));
}

#[test]
fn worker_accepts_only_expected_reports() {
    let (s, _) = start();
    assert!(s.accepts_event(&WorkerEvent::Dequeued(Ok("x".to_string()))));
    assert!(!s.accepts_event(&WorkerEvent::WaiterNotified));
    assert!(!WorkerState::Finished.accepts_event(&WorkerEvent::WaiterNotified));
}

#[test]
fn worker_run_writes_statuses_in_order() {
    let reg = RuntimeRegistry::new();
    let res = ExecuteResult {
        stdout: "ok".to_string(),
        stderr: String::new(),
        exit_code: 0,
        status: SubmissionStatus::Accepted,
        time_ms: 3,
        memory_kb: 100,
    };
    let events = vec![
        WorkerEvent::Dequeued(Ok("c1".to_string())),
        WorkerEvent::Loaded(Ok(Some(submission("c1", "cpp")))),
        WorkerEvent::StatusStored(Ok(())),
        WorkerEvent::SandboxReady(Ok(())),
        WorkerEvent::Compiled(Ok(CompileResult { success: true, compile_output: String::new() })),
        WorkerEvent::StatusStored(Ok(())),
        WorkerEvent::Executed(Ok(res)),
        WorkerEvent::OutcomeStored(Ok(())),
        WorkerEvent::WaiterNotified,
    ];
    let (mut s, first) = start();
    let mut actions = vec![first];
    for e in events {
        assert!(s.accepts_event(&e));
        let (n, a) = step(s, e, &reg);
        s = n;
        actions.push(a);
    }
    assert!(matches!(s, WorkerState::Finished));
    assert_eq!(actions.len(), 10);
    let kinds: Vec<&str> = actions
        .iter()
        .map(|a| match a {
            WorkerAction::Dequeue => "dequeue",
            WorkerAction::Load { .. } => "load",
            WorkerAction::SetStatus { status: SubmissionStatus::Compiling, .. } => "compiling",
            WorkerAction::SetStatus { status: SubmissionStatus::Running, .. } => "running",
            WorkerAction::SetStatus { .. } => "other status",
            WorkerAction::AcquireSandbox => "sandbox",
            WorkerAction::Compile { .. } => "compile",
            WorkerAction::WriteSource { .. } => "write",
            WorkerAction::Execute { .. } => "execute",
            WorkerAction::StoreOutcome { .. } => "outcome",
            WorkerAction::NotifyWaiter { .. } => "notify",
            WorkerAction::Finish(Ok(())) => "done",
            WorkerAction::Finish(Err(_)) => "failed",
        })
        .collect();
    assert_eq!(
        kinds,
        vec!["dequeue", "load", "compiling", "sandbox", "compile", "running", "execute", "outcome", "notify", "done"]
    );
    for a in &actions {
        match a {
            WorkerAction::Load { id } | WorkerAction::SetStatus { id, .. } | WorkerAction::NotifyWaiter { id } => {
                assert_eq!(id, "c1")
            }
            WorkerAction::StoreOutcome { id, outcome } => {
                assert_eq!(id, "c1");
                assert_eq!(outcome.status, SubmissionStatus::Accepted);
            }
            _ => {}
        }
    }
}
