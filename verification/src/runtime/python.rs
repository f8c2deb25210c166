//! The Python runtime.

use vstd::prelude::*;
use crate::runtime::runtime::{Runtime, argv_texts};

verus! {

/// Runs Python programs.
#[derive(Debug, Clone, Copy, PartialEq, Eq, Structural)]
pub struct PythonRuntime;

impl PythonRuntime {
    /// The Python runtime.
    pub fn new() -> (r: Self)
        ensures
            r == PythonRuntime,
    {
        PythonRuntime
    }
}

impl Runtime for PythonRuntime {
    fn id(&self) -> (r: &str)
        ensures
            r@ == "python"@,
    {
        "python"
    }

    fn name(&self) -> (r: &str)
        ensures
            r@ == "Python"@,
    {
        "Python"
    }

    fn extension(&self) -> (r: &str)
        ensures
            r@ == "py"@,
    {
        "py"
    }

    fn compiled(&self) -> (r: bool)
        ensures
            !r,
    {
        false
    }

    fn compile_command(&self, source_file: &str, output_file: &str) -> (r: Option<Vec<String>>)
        ensures
            r is None,
    {
        None
    }

    fn execute_command(&self, source_or_exec_file: &str) -> (r: Vec<String>)
        ensures
            argv_texts(r@) == seq!["/usr/bin/python3"@, source_or_exec_file@],
    {
        let mut v: Vec<String> = Vec::new();
        v.push("/usr/bin/python3".to_string());
        v.push(source_or_exec_file.to_string());
        assert(argv_texts(v@) =~= seq!["/usr/bin/python3"@, source_or_exec_file@]);
        v
    }
}

} // verus!
