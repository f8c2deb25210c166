//! The interface every language runtime offers.

use vstd::prelude::*;

verus! {

/// The texts of a command line.
pub open spec fn argv_texts(v: Seq<String>) -> Seq<Seq<char>> {
    v.map_values(|s: String| s@)
}

/// A language the engine can run: its identity, whether it needs a compile
/// step, and the command lines that compile and run a program.
pub trait Runtime {
    /// The language id clients name in requests.
    fn id(&self) -> &str;

    /// The language's display name.
    fn name(&self) -> &str;

    /// The file extension of a source file.
    fn extension(&self) -> &str;

    /// Whether a program is compiled before it runs.
    fn compiled(&self) -> bool;

    /// The command that compiles `source_file` into `output_file`, if the
    /// language has one.
    fn compile_command(&self, source_file: &str, output_file: &str) -> Option<Vec<String>>;

    /// The command that runs the program in `source_or_exec_file`.
    fn execute_command(&self, source_or_exec_file: &str) -> Vec<String>;
}

} // verus!
