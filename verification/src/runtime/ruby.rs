//! The Ruby runtime.

use vstd::prelude::*;
use crate::runtime::runtime::{Runtime, argv_texts};

verus! {

/// Runs Ruby programs.
#[derive(Debug, Clone, Copy, PartialEq, Eq, Structural)]
pub struct RubyRuntime;

impl RubyRuntime {
    /// The Ruby runtime.
    pub fn new() -> (r: Self)
        ensures
            r == RubyRuntime,
    {
        RubyRuntime
    }
}

impl Runtime for RubyRuntime {
    fn id(&self) -> (r: &str)
        ensures
            r@ == "ruby"@,
    {
        "ruby"
    }

    fn name(&self) -> (r: &str)
        ensures
            r@ == "Ruby"@,
    {
        "Ruby"
    }

    fn extension(&self) -> (r: &str)
        ensures
            r@ == "rb"@,
    {
        "rb"
    }

    fn compiled(&self) -> (r: bool)
        ensures
            !r,
    {
        false
    }

    fn compile_command(&self, source_file: &str, output_file: &str) -> (r: Option<Vec<String>>)
        ensures
            r is None,
    {
        None
    }

    fn execute_command(&self, source_or_exec_file: &str) -> (r: Vec<String>)
        ensures
            argv_texts(r@) == seq!["/usr/bin/ruby"@, source_or_exec_file@],
    {
        let mut v: Vec<String> = Vec::new();
        v.push("/usr/bin/ruby".to_string());
        v.push(source_or_exec_file.to_string());
        assert(argv_texts(v@) =~= seq!["/usr/bin/ruby"@, source_or_exec_file@]);
        v
    }
}

} // verus!
