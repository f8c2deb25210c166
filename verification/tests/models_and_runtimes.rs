use codecsec::errors::AppError;
use codecsec::models::SubmissionStatus;
use codecsec::runtime::c::CRuntime;
use codecsec::runtime::cpp::CppRuntime;
use codecsec::runtime::java::JavaRuntime;
use codecsec::runtime::node::NodeRuntime;
use codecsec::runtime::python::PythonRuntime;
use codecsec::runtime::registry::{LanguageRuntime, RuntimeRegistry};
use codecsec::runtime::ruby::RubyRuntime;
use codecsec::runtime::runtime::Runtime;
use codecsec::runtime::rust::RustRuntime;

#[test]
fn status_labels() {
    assert_eq!(SubmissionStatus::Queued.as_str(), "Queued");
    assert_eq!(SubmissionStatus::Compiling.as_str(), "Compiling");
    assert_eq!(SubmissionStatus::Running.as_str(), "Running");
    assert_eq!(SubmissionStatus::Accepted.as_str(), "Accepted");
    assert_eq!(SubmissionStatus::CompileError.as_str(), "Compile Error");
    assert_eq!(SubmissionStatus::RuntimeError.as_str(), "Runtime Error");
    assert_eq!(SubmissionStatus::TimeLimitExceeded.as_str(), "Time Limit Exceeded");
    assert_eq!(SubmissionStatus::MemoryLimitExceeded.as_str(), "Memory Limit Exceeded");
    assert_eq!(SubmissionStatus::InternalError.as_str(), "Internal Error");
}

#[test]
fn error_reports() {
    let e = AppError::SubmissionNotFound("abc".to_string());
    assert_eq!(e.status_code(), 404);
    assert_eq!(e.kind(), "SUBMISSION_NOT_FOUND");
    assert_eq!(e.message(), "Submission abc not found");
    assert_eq!(e.describe(), "Submission abc not found");

    let e = AppError::InvalidRequest("bad".to_string());
    assert_eq!(e.status_code(), 400);
    assert_eq!(e.kind(), "INVALID_REQUEST");
    assert_eq!(e.message(), "bad");
    assert_eq!(e.describe(), "Invalid request: bad");

    let e = AppError::SandboxError("box".to_string());
    assert_eq!(e.status_code(), 500);
    assert_eq!(e.kind(), "SANDBOX_ERROR");
    assert_eq!(e.message(), "box");
    assert_eq!(e.describe(), "Sandbox error: box");

    let e = AppError::Internal("oops".to_string());
    assert_eq!(e.status_code(), 500);
    assert_eq!(e.kind(), "INTERNAL_ERROR");
    assert_eq!(e.message(), "oops");
    assert_eq!(e.describe(), "Internal error: oops");

    match AppError::from_io_text("disk full") {
        AppError::Internal(m) => assert_eq!(m, "I/O Error: disk full"),
        _ => panic!("expected an internal error"),
    }
}

fn strs(v: &[&str]) -> Vec<String> {
    v.iter().map(|s| s.to_string()).collect()
}

#[test]
fn c_runtime() {
    let c = CRuntime::new();
    assert_eq!((c.id(), c.name(), c.extension(), c.compiled()), ("c", "C", "c", true));
    assert_eq!(
        c.compile_command("source.c", "program"),
        Some(strs(&["/usr/bin/gcc", "-O3", "source.c", "-o", "program", "-lm"]))
    );
    assert_eq!(c.execute_command("program"), strs(&["program"]));
}

#[test]
fn compiled_runtimes() {
    let cpp = CppRuntime::new();
    assert_eq!((cpp.id(), cpp.name(), cpp.extension(), cpp.compiled()), ("cpp", "C++", "cpp", true));
    assert_eq!(
        cpp.compile_command("source.cpp", "program"),
        Some(strs(&["/usr/bin/g++", "-O3", "source.cpp", "-o", "program", "-lm"]))
    );
    assert_eq!(cpp.execute_command("program"), strs(&["program"]));

    let rust = RustRuntime::new();
    assert_eq!((rust.id(), rust.name(), rust.extension(), rust.compiled()), ("rust", "Rust", "rs", true));
    assert_eq!(
        rust.compile_command("source.rs", "program"),
        Some(strs(&["/usr/bin/rustc", "-O", "source.rs", "-o", "program"]))
    );
    assert_eq!(rust.execute_command("program"), strs(&["program"]));

    let java = JavaRuntime::new();
    assert_eq!((java.id(), java.name(), java.extension(), java.compiled()), ("java", "Java", "java", true));
    assert_eq!(
        java.compile_command("Main.java", ""),
        Some(strs(&["/usr/lib/jvm/java-17-openjdk-amd64/bin/javac", "Main.java"]))
    );
    assert_eq!(
        java.execute_command(""),
        strs(&["/usr/lib/jvm/java-17-openjdk-amd64/bin/java", "Main"])
    );
}

#[test]
fn interpreted_runtimes() {
    let py = PythonRuntime::new();
    assert_eq!((py.id(), py.name(), py.extension(), py.compiled()), ("python", "Python", "py", false));
    assert_eq!(py.compile_command("source.py", "source.py"), None);
    assert_eq!(py.execute_command("source.py"), strs(&["/usr/bin/python3", "source.py"]));

    let node = NodeRuntime::new();
    assert_eq!((node.id(), node.name(), node.extension(), node.compiled()), ("node", "Node.js", "js", false));
    assert_eq!(node.compile_command("a", "b"), None);
    assert_eq!(node.execute_command("source.js"), strs(&["/usr/bin/node", "source.js"]));

    let ruby = RubyRuntime::new();
    assert_eq!((ruby.id(), ruby.name(), ruby.extension(), ruby.compiled()), ("ruby", "Ruby", "rb", false));
    assert_eq!(ruby.compile_command("a", "b"), None);
    assert_eq!(ruby.execute_command("source.rb"), strs(&["/usr/bin/ruby", "source.rb"]));
}

#[test]
fn registry_lookup() {
    let reg = RuntimeRegistry::new();
    for id in ["c", "cpp", "java", "node", "python", "ruby", "rust"] {
        let r = reg.get(id).expect("registered");
        assert_eq!(r.id(), id);
    }
    assert!(reg.get("go").is_none());
    assert!(reg.get("").is_none());
    assert!(reg.get("Python").is_none());
    assert_eq!(reg.get("python"), Some(LanguageRuntime::Python(PythonRuntime)));
    assert_eq!(reg.get("c"), Some(LanguageRuntime::C(CRuntime)));
    assert_eq!(reg.get("cpp").unwrap().name(), "C++");
}

#[test]
fn registry_list_is_sorted_by_id() {
    let reg = RuntimeRegistry::new();
    let list = reg.list();
    let ids: Vec<&str> = list.iter().map(|r| r.id()).collect::<Vec<_>>();
    assert_eq!(ids, vec!["c", "cpp", "java", "node", "python", "ruby", "rust"]);
    let mut sorted = ids.clone();
    sorted.sort();
    assert_eq!(ids, sorted);
}
