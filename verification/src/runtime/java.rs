//! The Java runtime.

use vstd::prelude::*;
use crate::runtime::runtime::{Runtime, argv_texts};

verus! {

/// Runs Java programs.
#[derive(Debug, Clone, Copy, PartialEq, Eq, Structural)]
pub struct JavaRuntime;

impl JavaRuntime {
    /// The Java runtime.
    pub fn new() -> (r: Self)
        ensures
            r == JavaRuntime,
    {
        JavaRuntime
    }
}

/// The Java compile command line.
pub open spec fn java_compile_argv(source_file: Seq<char>) -> Seq<Seq<char>> {
    seq!["/usr/lib/jvm/java-17-openjdk-amd64/bin/javac"@, source_file]
}

/// The Java run command line: the main class is always `Main`.
pub open spec fn java_execute_argv() -> Seq<Seq<char>> {
    seq!["/usr/lib/jvm/java-17-openjdk-amd64/bin/java"@, "Main"@]
}

impl Runtime for JavaRuntime {
    fn id(&self) -> (r: &str)
        ensures
            r@ == "java"@,
    {
        "java"
    }

    fn name(&self) -> (r: &str)
        ensures
            r@ == "Java"@,
    {
        "Java"
    }

    fn extension(&self) -> (r: &str)
        ensures
            r@ == "java"@,
    {
        "java"
    }

    fn compiled(&self) -> (r: bool)
        ensures
            r,
    {
        true
    }

    fn compile_command(&self, source_file: &str, output_file: &str) -> (r: Option<Vec<String>>)
        ensures
            r matches Some(v) && argv_texts(v@) == java_compile_argv(source_file@),
    {
        let mut v: Vec<String> = Vec::new();
        v.push("/usr/lib/jvm/java-17-openjdk-amd64/bin/javac".to_string());
        v.push(source_file.to_string());
        assert(argv_texts(v@) =~= java_compile_argv(source_file@));
        Some(v)
    }

    fn execute_command(&self, source_or_exec_file: &str) -> (r: Vec<String>)
        ensures
            argv_texts(r@) == java_execute_argv(),
    {
        let mut v: Vec<String> = Vec::new();
        v.push("/usr/lib/jvm/java-17-openjdk-amd64/bin/java".to_string());
        v.push("Main".to_string());
        assert(argv_texts(v@) =~= java_execute_argv());
        v
    }
}

} // verus!
