//! Compiling a program: the sandbox settings of a compile step and how its
//! output is reported.

use vstd::prelude::*;
use crate::errors::AppError;
use crate::isolate::IsolateRunArgs;
use crate::text::{is_blank, is_blank_text, joined, joined3};

verus! {

/// What a compile step produced.
pub struct CompileResult {
    pub success: bool,
    pub compile_output: String,
}

/// Compiles programs inside a sandbox.
pub struct Compiler;

/// The compiler's report: its standard output unless blank, then its error
/// output unless blank, on a new line when both are shown.
pub open spec fn combined_output(out: Seq<char>, err: Seq<char>) -> Seq<char> {
    let first = if is_blank(out) {
        Seq::<char>::empty()
    } else {
        out
    };
    if is_blank(err) {
        first
    } else if first.len() == 0 {
        err
    } else {
        first + "\n"@ + err
    }
}

impl Compiler {
    /// The sandbox settings of a compile step: 10 s of CPU time, 1 GiB of
    /// memory under control groups, output captured in `compile_out.txt` and
    /// `compile_err.txt`, no input and no report file.
    pub fn compile_args<'a>(compile_cmd: &'a [String]) -> (r: IsolateRunArgs<'a>)
        ensures
            r.cmd == compile_cmd,
            r.time_limit_ms == Some(10000u64),
            r.memory_limit_kb == Some(1048576u64),
            r.stdin_file is None,
            r.stdout_file matches Some(f) && f@ == "compile_out.txt"@,
            r.stderr_file matches Some(f) && f@ == "compile_err.txt"@,
            r.meta_file is None,
            r.use_cg,
    {
        IsolateRunArgs {
            cmd: compile_cmd,
            time_limit_ms: Some(10000),
            memory_limit_kb: Some(1048576),
            stdin_file: None,
            stdout_file: Some("compile_out.txt"),
            stderr_file: Some("compile_err.txt"),
            meta_file: None,
            use_cg: true,
        }
    }

    /// The error when the source cannot be written into the sandbox, given
    /// why.
    pub fn source_write_failure(detail: &str) -> (r: AppError)
        ensures
            r matches AppError::Internal(m) && m@ == "Failed to write source file to sandbox: "@
                + detail@,
    {
        AppError::Internal(joined("Failed to write source file to sandbox: ", detail))
    }

    /// The result of a compile step that exited successfully or not, given
    /// what it wrote to its output and error files.
    pub fn compile_result(success: bool, out: &str, err: &str) -> (r: CompileResult)
        ensures
            r.success == success,
            r.compile_output@ == combined_output(out@, err@),
    {
        let out_blank = is_blank_text(out);
        let err_blank = is_blank_text(err);
        let compile_output = if err_blank {
            if out_blank {
                String::new()
            } else {
                out.to_string()
            }
        } else if out_blank {
            err.to_string()
        } else {
            proof {
                assert(out@.len() > 0);
            }
            joined3(out, "\n", err)
        };
        CompileResult { success, compile_output }
    }
}

/// The compiler's report shows what it wrote: nothing when both outputs
/// are blank, the one that is not blank when only one is, and the standard
/// output, a newline and the error output when neither is.
pub proof fn law_combined_output_cases(out: Seq<char>, err: Seq<char>)
    ensures
        is_blank(out) && is_blank(err) ==> combined_output(out, err).len() == 0,
        !is_blank(out) && is_blank(err) ==> combined_output(out, err) == out,
        is_blank(out) && !is_blank(err) ==> combined_output(out, err) == err,
        !is_blank(out) && !is_blank(err) ==> combined_output(out, err) == out + "\n"@ + err,
{
    if !is_blank(out) {
        assert(out.len() > 0);
    }
}

} // verus!
