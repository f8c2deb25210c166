//! The C runtime.

use vstd::prelude::*;
use crate::runtime::runtime::{Runtime, argv_texts};

verus! {

/// Runs C programs.
#[derive(Debug, Clone, Copy, PartialEq, Eq, Structural)]
pub struct CRuntime;

impl CRuntime {
    /// The C runtime.
    pub fn new() -> (r: Self)
        ensures
            r == CRuntime,
    {
        CRuntime
    }
}

/// The C compile command line.
pub open spec fn c_compile_argv(source_file: Seq<char>, output_file: Seq<char>) -> Seq<Seq<char>> {
    seq!["/usr/bin/gcc"@, "-O3"@, source_file, "-o"@, output_file, "-lm"@]
}

impl Runtime for CRuntime {
    fn id(&self) -> (r: &str)
        ensures
            r@ == "c"@,
    {
        "c"
    }

    fn name(&self) -> (r: &str)
        ensures
            r@ == "C"@,
    {
        "C"
    }

    fn extension(&self) -> (r: &str)
        ensures
            r@ == "c"@,
    {
        "c"
    }

    fn compiled(&self) -> (r: bool)
        ensures
            r,
    {
        true
    }

    fn compile_command(&self, source_file: &str, output_file: &str) -> (r: Option<Vec<String>>)
        ensures
            r matches Some(v) && argv_texts(v@) == c_compile_argv(source_file@, output_file@),
    {
        let mut v: Vec<String> = Vec::new();
        v.push("/usr/bin/gcc".to_string());
        v.push("-O3".to_string());
        v.push(source_file.to_string());
        v.push("-o".to_string());
        v.push(output_file.to_string());
        v.push("-lm".to_string());
        assert(argv_texts(v@) =~= c_compile_argv(source_file@, output_file@));
        Some(v)
    }

    fn execute_command(&self, source_or_exec_file: &str) -> (r: Vec<String>)
        ensures
            argv_texts(r@) == seq![source_or_exec_file@],
    {
        let mut v: Vec<String> = Vec::new();
        v.push(source_or_exec_file.to_string());
        assert(argv_texts(v@) =~= seq![source_or_exec_file@]);
        v
    }
}

} // verus!
