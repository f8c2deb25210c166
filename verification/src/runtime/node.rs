//! The Node.js runtime.

use vstd::prelude::*;
use crate::runtime::runtime::{Runtime, argv_texts};

verus! {

/// Runs Node.js programs.
#[derive(Debug, Clone, Copy, PartialEq, Eq, Structural)]
pub struct NodeRuntime;

impl NodeRuntime {
    /// The Node.js runtime.
    pub fn new() -> (r: Self)
        ensures
            r == NodeRuntime,
    {
        NodeRuntime
    }
}

impl Runtime for NodeRuntime {
    fn id(&self) -> (r: &str)
        ensures
            r@ == "node"@,
    {
        "node"
    }

    fn name(&self) -> (r: &str)
        ensures
            r@ == "Node.js"@,
    {
        "Node.js"
    }

    fn extension(&self) -> (r: &str)
        ensures
            r@ == "js"@,
    {
        "js"
    }

    fn compiled(&self) -> (r: bool)
        ensures
            !r,
    {
        false
    }

    fn compile_command(&self, source_file: &str, output_file: &str) -> (r: Option<Vec<String>>)
        ensures
            r is None,
    {
        None
    }

    fn execute_command(&self, source_or_exec_file: &str) -> (r: Vec<String>)
        ensures
            argv_texts(r@) == seq!["/usr/bin/node"@, source_or_exec_file@],
    {
        let mut v: Vec<String> = Vec::new();
        v.push("/usr/bin/node".to_string());
        v.push(source_or_exec_file.to_string());
        assert(argv_texts(v@) =~= seq!["/usr/bin/node"@, source_or_exec_file@]);
        v
    }
}

} // verus!
