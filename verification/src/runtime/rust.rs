//! The Rust runtime.

use vstd::prelude::*;
use crate::runtime::runtime::{Runtime, argv_texts};

verus! {

/// Runs Rust programs.
#[derive(Debug, Clone, Copy, PartialEq, Eq, Structural)]
pub struct RustRuntime;

impl RustRuntime {
    /// The Rust runtime.
    pub fn new() -> (r: Self)
        ensures
            r == RustRuntime,
    {
        RustRuntime
    }
}

/// The Rust compile command line.
pub open spec fn rust_compile_argv(source_file: Seq<char>, output_file: Seq<char>) -> Seq<Seq<char>> {
    seq!["/usr/bin/rustc"@, "-O"@, source_file, "-o"@, output_file]
}

impl Runtime for RustRuntime {
    fn id(&self) -> (r: &str)
        ensures
            r@ == "rust"@,
    {
        "rust"
    }

    fn name(&self) -> (r: &str)
        ensures
            r@ == "Rust"@,
    {
        "Rust"
    }

    fn extension(&self) -> (r: &str)
        ensures
            r@ == "rs"@,
    {
        "rs"
    }

    fn compiled(&self) -> (r: bool)
        ensures
            r,
    {
        true
    }

    fn compile_command(&self, source_file: &str, output_file: &str) -> (r: Option<Vec<String>>)
        ensures
            r matches Some(v) && argv_texts(v@) == rust_compile_argv(source_file@, output_file@),
    {
        let mut v: Vec<String> = Vec::new();
        v.push("/usr/bin/rustc".to_string());
        v.push("-O".to_string());
        v.push(source_file.to_string());
        v.push("-o".to_string());
        v.push(output_file.to_string());
        assert(argv_texts(v@) =~= rust_compile_argv(source_file@, output_file@));
        Some(v)
    }

    fn execute_command(&self, source_or_exec_file: &str) -> (r: Vec<String>)
        ensures
            argv_texts(r@) == seq![source_or_exec_file@],
    {
        let mut v: Vec<String> = Vec::new();
        v.push(source_or_exec_file.to_string());
        assert(argv_texts(v@) =~= seq![source_or_exec_file@]);
        v
    }
}

} // verus!
