//! The set of supported languages and lookup by language id.

use vstd::prelude::*;
use crate::runtime::runtime::{Runtime, argv_texts};
use crate::runtime::c::{CRuntime, c_compile_argv};
use crate::runtime::cpp::{CppRuntime, cpp_compile_argv};
use crate::runtime::java::{JavaRuntime, java_compile_argv, java_execute_argv};
use crate::runtime::node::NodeRuntime;
use crate::runtime::python::PythonRuntime;
use crate::runtime::ruby::RubyRuntime;
use crate::runtime::rust::{RustRuntime, rust_compile_argv};
use crate::text::same_text;

verus! {

/// One of the supported language runtimes.
#[derive(Debug, Clone, Copy, PartialEq, Eq, Structural)]
pub enum LanguageRuntime {
    C(CRuntime),
    Cpp(CppRuntime),
    Java(JavaRuntime),
    Node(NodeRuntime),
    Python(PythonRuntime),
    Ruby(RubyRuntime),
    Rust(RustRuntime),
}

impl LanguageRuntime {
    /// The language id.
    pub open spec fn spec_id(self) -> Seq<char> {
        match self {
            LanguageRuntime::C(_) => "c"@,
            LanguageRuntime::Cpp(_) => "cpp"@,
            LanguageRuntime::Java(_) => "java"@,
            LanguageRuntime::Node(_) => "node"@,
            LanguageRuntime::Python(_) => "python"@,
            LanguageRuntime::Ruby(_) => "ruby"@,
            LanguageRuntime::Rust(_) => "rust"@,
        }
    }

    /// The display name.
    pub open spec fn spec_name(self) -> Seq<char> {
        match self {
            LanguageRuntime::C(_) => "C"@,
            LanguageRuntime::Cpp(_) => "C++"@,
            LanguageRuntime::Java(_) => "Java"@,
            LanguageRuntime::Node(_) => "Node.js"@,
            LanguageRuntime::Python(_) => "Python"@,
            LanguageRuntime::Ruby(_) => "Ruby"@,
            LanguageRuntime::Rust(_) => "Rust"@,
        }
    }

    /// The source file extension.
    pub open spec fn spec_extension(self) -> Seq<char> {
        match self {
            LanguageRuntime::C(_) => "c"@,
            LanguageRuntime::Cpp(_) => "cpp"@,
            LanguageRuntime::Java(_) => "java"@,
            LanguageRuntime::Node(_) => "js"@,
            LanguageRuntime::Python(_) => "py"@,
            LanguageRuntime::Ruby(_) => "rb"@,
            LanguageRuntime::Rust(_) => "rs"@,
        }
    }

    /// Whether programs are compiled before they run.
    pub open spec fn spec_compiled(self) -> bool {
        match self {
            LanguageRuntime::C(_) => true,
            LanguageRuntime::Cpp(_) => true,
            LanguageRuntime::Java(_) => true,
            LanguageRuntime::Rust(_) => true,
            _ => false,
        }
    }

    /// The compile command line, for compiled languages.
    pub open spec fn spec_compile_argv(self, source_file: Seq<char>, output_file: Seq<char>) -> Option<
        Seq<Seq<char>>,
    > {
        match self {
            LanguageRuntime::C(_) => Some(c_compile_argv(source_file, output_file)),
            LanguageRuntime::Cpp(_) => Some(cpp_compile_argv(source_file, output_file)),
            LanguageRuntime::Java(_) => Some(java_compile_argv(source_file)),
            LanguageRuntime::Rust(_) => Some(rust_compile_argv(source_file, output_file)),
            _ => None,
        }
    }

    /// The run command line.
    pub open spec fn spec_execute_argv(self, file: Seq<char>) -> Seq<Seq<char>> {
        match self {
            LanguageRuntime::C(_) => seq![file],
            LanguageRuntime::Cpp(_) => seq![file],
            LanguageRuntime::Java(_) => java_execute_argv(),
            LanguageRuntime::Node(_) => seq!["/usr/bin/node"@, file],
            LanguageRuntime::Python(_) => seq!["/usr/bin/python3"@, file],
            LanguageRuntime::Ruby(_) => seq!["/usr/bin/ruby"@, file],
            LanguageRuntime::Rust(_) => seq![file],
        }
    }
}

impl Runtime for LanguageRuntime {
    fn id(&self) -> (r: &str)
        ensures
            r@ == self.spec_id(),
    {
        match self {
            LanguageRuntime::C(x) => x.id(),
            LanguageRuntime::Cpp(x) => x.id(),
            LanguageRuntime::Java(x) => x.id(),
            LanguageRuntime::Node(x) => x.id(),
            LanguageRuntime::Python(x) => x.id(),
            LanguageRuntime::Ruby(x) => x.id(),
            LanguageRuntime::Rust(x) => x.id(),
        }
    }

    fn name(&self) -> (r: &str)
        ensures
            r@ == self.spec_name(),
    {
        match self {
            LanguageRuntime::C(x) => x.name(),
            LanguageRuntime::Cpp(x) => x.name(),
            LanguageRuntime::Java(x) => x.name(),
            LanguageRuntime::Node(x) => x.name(),
            LanguageRuntime::Python(x) => x.name(),
            LanguageRuntime::Ruby(x) => x.name(),
            LanguageRuntime::Rust(x) => x.name(),
        }
    }

    fn extension(&self) -> (r: &str)
        ensures
            r@ == self.spec_extension(),
    {
        match self {
            LanguageRuntime::C(x) => x.extension(),
            LanguageRuntime::Cpp(x) => x.extension(),
            LanguageRuntime::Java(x) => x.extension(),
            LanguageRuntime::Node(x) => x.extension(),
            LanguageRuntime::Python(x) => x.extension(),
            LanguageRuntime::Ruby(x) => x.extension(),
            LanguageRuntime::Rust(x) => x.extension(),
        }
    }

    fn compiled(&self) -> (r: bool)
        ensures
            r == self.spec_compiled(),
    {
        match self {
            LanguageRuntime::C(x) => x.compiled(),
            LanguageRuntime::Cpp(x) => x.compiled(),
            LanguageRuntime::Java(x) => x.compiled(),
            LanguageRuntime::Node(x) => x.compiled(),
            LanguageRuntime::Python(x) => x.compiled(),
            LanguageRuntime::Ruby(x) => x.compiled(),
            LanguageRuntime::Rust(x) => x.compiled(),
        }
    }

    fn compile_command(&self, source_file: &str, output_file: &str) -> (r: Option<Vec<String>>)
        ensures
            match r {
                Some(v) => self.spec_compile_argv(source_file@, output_file@) == Some(
                    argv_texts(v@),
                ),
                None => self.spec_compile_argv(source_file@, output_file@) is None,
            },
    {
        match self {
            LanguageRuntime::C(x) => x.compile_command(source_file, output_file),
            LanguageRuntime::Cpp(x) => x.compile_command(source_file, output_file),
            LanguageRuntime::Java(x) => x.compile_command(source_file, output_file),
            LanguageRuntime::Node(x) => x.compile_command(source_file, output_file),
            LanguageRuntime::Python(x) => x.compile_command(source_file, output_file),
            LanguageRuntime::Ruby(x) => x.compile_command(source_file, output_file),
            LanguageRuntime::Rust(x) => x.compile_command(source_file, output_file),
        }
    }

    fn execute_command(&self, source_or_exec_file: &str) -> (r: Vec<String>)
        ensures
            argv_texts(r@) == self.spec_execute_argv(source_or_exec_file@),
    {
        match self {
            LanguageRuntime::C(x) => x.execute_command(source_or_exec_file),
            LanguageRuntime::Cpp(x) => x.execute_command(source_or_exec_file),
            LanguageRuntime::Java(x) => x.execute_command(source_or_exec_file),
            LanguageRuntime::Node(x) => x.execute_command(source_or_exec_file),
            LanguageRuntime::Python(x) => x.execute_command(source_or_exec_file),
            LanguageRuntime::Ruby(x) => x.execute_command(source_or_exec_file),
            LanguageRuntime::Rust(x) => x.execute_command(source_or_exec_file),
        }
    }
}

/// The supported runtimes, in ascending order of language id.
pub open spec fn catalog() -> Seq<LanguageRuntime> {
    seq![
        LanguageRuntime::C(CRuntime),
        LanguageRuntime::Cpp(CppRuntime),
        LanguageRuntime::Java(JavaRuntime),
        LanguageRuntime::Node(NodeRuntime),
        LanguageRuntime::Python(PythonRuntime),
        LanguageRuntime::Ruby(RubyRuntime),
        LanguageRuntime::Rust(RustRuntime),
    ]
}

/// The first runtime in `rs` whose id is `id`.
pub open spec fn find_runtime(rs: Seq<LanguageRuntime>, id: Seq<char>) -> Option<LanguageRuntime>
    decreases rs.len(),
{
    if rs.len() == 0 {
        None
    } else if rs[0].spec_id() == id {
        Some(rs[0])
    } else {
        find_runtime(rs.drop_first(), id)
    }
}

/// The runtime registered under `id`, if any.
pub open spec fn lookup_runtime(id: Seq<char>) -> Option<LanguageRuntime> {
    find_runtime(catalog(), id)
}

/// `a` sorts strictly before `b` in the order `str::cmp` uses.
pub open spec fn text_before(a: Seq<char>, b: Seq<char>) -> bool {
    exists|k: int|
        0 <= k <= a.len() && k <= b.len() && a.subrange(0, k) == b.subrange(0, k) && ((k
            == a.len() && k < b.len()) || (k < a.len() && k < b.len() && a[k] < b[k]))
}

/// The supported languages, looked up by id.
pub struct RuntimeRegistry {
    runtimes: Vec<LanguageRuntime>,
}

impl RuntimeRegistry {
    #[verifier::type_invariant]
    spec fn holds_catalog(self) -> bool {
        self.runtimes@ == catalog()
    }

    /// The registered runtimes.
    pub closed spec fn entries(self) -> Seq<LanguageRuntime> {
        self.runtimes@
    }

    /// A registry of every supported language.
    pub fn new() -> (r: Self)
        ensures
            r.entries() == catalog(),
    {
        let mut runtimes: Vec<LanguageRuntime> = Vec::new();
        runtimes.push(LanguageRuntime::C(CRuntime::new()));
        runtimes.push(LanguageRuntime::Cpp(CppRuntime::new()));
        runtimes.push(LanguageRuntime::Java(JavaRuntime::new()));
        runtimes.push(LanguageRuntime::Node(NodeRuntime::new()));
        runtimes.push(LanguageRuntime::Python(PythonRuntime::new()));
        runtimes.push(LanguageRuntime::Ruby(RubyRuntime::new()));
        runtimes.push(LanguageRuntime::Rust(RustRuntime::new()));
        assert(runtimes@ =~= catalog());
        RuntimeRegistry { runtimes }
    }

    /// The runtime whose id is `id`, if the language is supported.
    pub fn get(&self, id: &str) -> (r: Option<LanguageRuntime>)
        ensures
            r == lookup_runtime(id@),
    {
        proof {
            use_type_invariant(self);
        }
        let n = self.runtimes.len();
        let mut i: usize = 0;
        assert(catalog().subrange(0, n as int) =~= catalog());
        while i < n
            invariant
                n == self.runtimes@.len(),
                self.runtimes@ == catalog(),
                i <= n,
                find_runtime(catalog(), id@) == find_runtime(catalog().subrange(i as int, n as int), id@),
            decreases n - i,
        {
            let entry = self.runtimes[i];
            let ghost rest = catalog().subrange(i as int, n as int);
            assert(rest[0] == entry);
            assert(rest.drop_first() =~= catalog().subrange(i + 1, n as int));
            if same_text(entry.id(), id) {
                return Some(entry);
            }
            i = i + 1;
        }
        assert(catalog().subrange(n as int, n as int).len() == 0);
        None
    }

    /// Every registered runtime, in ascending order of language id.
    pub fn list(&self) -> (r: Vec<LanguageRuntime>)
        ensures
            r@ == catalog(),
    {
        proof {
            use_type_invariant(self);
        }
        self.runtimes.clone()
    }
}

/// The catalog is in strictly ascending order of language id, so listing the
/// registry sorts it by id and no id occurs twice.
pub proof fn law_catalog_sorted_by_id(i: int, j: int)
    requires
        0 <= i < j < catalog().len(),
    ensures
        text_before(catalog()[i].spec_id(), catalog()[j].spec_id()),
{
    reveal_strlit("c");
    reveal_strlit("cpp");
    reveal_strlit("java");
    reveal_strlit("node");
    reveal_strlit("python");
    reveal_strlit("ruby");
    reveal_strlit("rust");
    let a = catalog()[i].spec_id();
    let b = catalog()[j].spec_id();
    // Witnesses: the length of the common prefix of each pair.
    if a[0] != b[0] {
        assert(a.subrange(0, 0) =~= b.subrange(0, 0));
        assert(text_before(a, b));
    } else if a.len() == 1 {
        // "c" is a prefix of "cpp"
        assert(a.subrange(0, 1) =~= b.subrange(0, 1));
        assert(text_before(a, b));
    } else {
        // "ruby" and "rust" share two letters
        assert(a.subrange(0, 2) =~= b.subrange(0, 2));
        assert(text_before(a, b));
    }
}

/// Looking up a listed runtime by its own id finds it, and an id that no
/// listed runtime has finds nothing.
pub proof fn law_lookup_matches_list(id: Seq<char>)
    ensures
        (lookup_runtime(id) matches Some(r) ==> catalog().contains(r) && r.spec_id() == id),
        (lookup_runtime(id) is None <==> forall|k: int|
            0 <= k < catalog().len() ==> catalog()[k].spec_id() != id),
{
    lemma_find_runtime(catalog(), id);
}

proof fn lemma_find_runtime(rs: Seq<LanguageRuntime>, id: Seq<char>)
    ensures
        (find_runtime(rs, id) matches Some(r) ==> rs.contains(r) && r.spec_id() == id),
        (find_runtime(rs, id) is None <==> forall|k: int|
            0 <= k < rs.len() ==> rs[k].spec_id() != id),
    decreases rs.len(),
{
    if rs.len() > 0 {
        let t = rs.drop_first();
        lemma_find_runtime(t, id);
        if rs[0].spec_id() != id {
            if find_runtime(t, id) is Some {
                let r = find_runtime(t, id)->0;
                let k = choose|k: int| 0 <= k < t.len() && t[k] == r;
                assert(rs[k + 1] == r);
            }
            assert forall|k: int| 0 <= k < rs.len() && find_runtime(t, id) is None implies rs[k].spec_id() != id by {
                if k > 0 {
                    assert(rs[k] == t[k - 1]);
                }
            }
            if find_runtime(t, id) is Some {
                let r = find_runtime(t, id)->0;
                let k = choose|k: int| 0 <= k < t.len() && t[k] == r;
                assert(rs[k + 1].spec_id() == id);
            }
        } else {
            assert(rs.contains(rs[0]));
        }
    }
}

/// A runtime has a compile command exactly when it is compiled; that
/// command names the source file and, except for Java (whose class files
/// are named by the compiler), the program file it produces. The run
/// command ends with the program file, except for Java, which runs the
/// class `Main`.
pub proof fn law_runtime_commands(rt: LanguageRuntime, source_file: Seq<char>, output_file: Seq<char>, file: Seq<char>)
    ensures
        rt.spec_compiled() == (rt.spec_compile_argv(source_file, output_file) is Some),
        rt.spec_compile_argv(source_file, output_file) matches Some(argv) ==> argv.contains(source_file),
        (rt.spec_compiled() && rt !is Java) ==> rt.spec_compile_argv(source_file, output_file)->0.contains(
            output_file,
        ),
        rt !is Java ==> rt.spec_execute_argv(file).last() == file,
        rt is Java ==> rt.spec_execute_argv(file).last() == "Main"@,
{
    match rt {
        LanguageRuntime::C(_) => {
            assert(c_compile_argv(source_file, output_file)[2] == source_file);
            assert(c_compile_argv(source_file, output_file)[4] == output_file);
        },
        LanguageRuntime::Cpp(_) => {
            assert(cpp_compile_argv(source_file, output_file)[2] == source_file);
            assert(cpp_compile_argv(source_file, output_file)[4] == output_file);
        },
        LanguageRuntime::Java(_) => {
            assert(java_compile_argv(source_file)[1] == source_file);
        },
        LanguageRuntime::Rust(_) => {
            assert(rust_compile_argv(source_file, output_file)[2] == source_file);
            assert(rust_compile_argv(source_file, output_file)[4] == output_file);
        },
        _ => {},
    }
}

} // verus!
